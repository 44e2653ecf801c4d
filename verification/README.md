# focloireacht-server

Exact-match lexicon and terminology queries over two read-only SQLite
databases, with the request logic verified in Verus.

- `src/` — the verified library:
  - `config.rs`: settings with their defaults, read-only connection strings;
  - `error.rs`: the refusals and the HTTP status of each (400 or 500);
  - `text.rs`: character-level helpers (`&amp;` decoding, trimming, loose
    label comparison, JSON id lists);
  - `rows.rs`: grouping database rows under a key;
  - `models/`: the rows and payloads;
  - `routes/`: one module per group of endpoints. Each request that needs
    several queries is a state machine: `start` checks the parameters and asks
    for the first query; `resume` takes the database's reply and asks for the
    next query or answers. Payloads are assembled from the rows by verified
    functions whose contracts state the result exactly;
  - `properties.rs`: laws that relate the steps of these machines.
- `app/` — the HTTP service: settings from the environment, connection
  pools, running each machine's queries with sqlx, JSON in and out with axum.
- `tests/` — tests of the library on concrete values.
