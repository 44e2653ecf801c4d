use vstd::prelude::*;

verus! {

/// Where the service listens and where its two databases lie.
#[derive(Clone, Debug)]
pub struct Config {
    pub bind_addr: String,
    pub lex_db_path: String,
    pub term_db_path: String,
}

/// The connection string of a database file opened read-only.
pub open spec fn read_only_url(path: Seq<char>) -> Seq<char> {
    "sqlite:"@ + path + "?mode=ro"@
}

fn read_only_url_of(path: &String) -> (url: String)
    ensures
        url@ == read_only_url(path@),
{
    let url = String::from_str("sqlite:");
    let url = url.concat(path.as_str());
    url.concat("?mode=ro")
}

impl Config {
    /// The connection string of the lexicon database.
    pub fn lex_db_url(&self) -> (url: String)
        ensures
            url@ == read_only_url(self.lex_db_path@),
    {
        read_only_url_of(&self.lex_db_path)
    }

    /// The connection string of the terminology database.
    pub fn term_db_url(&self) -> (url: String)
        ensures
            url@ == read_only_url(self.term_db_path@),
    {
        read_only_url_of(&self.term_db_path)
    }
}


/// The address listened on when `BIND_ADDR` is not set.
pub open spec fn default_bind_addr() -> Seq<char> {
    "127.0.0.1:5005"@
}

/// The lexicon database used when `LEX_DB_PATH` is not set.
pub open spec fn default_lex_db_path() -> Seq<char> {
    "./data/lexicon.sqlite"@
}

/// The terminology database used when `TERM_DB_PATH` is not set.
pub open spec fn default_term_db_path() -> Seq<char> {
    "./data/terminology.sqlite"@
}

/// A setting, or its default.
pub open spec fn setting_or(value: Option<String>, default: Seq<char>) -> Seq<char> {
    match value {
        Some(v) => v@,
        None => default,
    }
}

fn or_default(value: Option<String>, default: &str) -> (r: String)
    ensures
        r@ == setting_or(value, default@),
{
    match value {
        Some(v) => v,
        None => String::from_str(default),
    }
}

impl Config {
    /// The configuration made of the values of `BIND_ADDR`, `LEX_DB_PATH` and
    /// `TERM_DB_PATH`, each replaced by its default where it is not set.
    pub fn from_vars(bind_addr: Option<String>, lex_db_path: Option<String>, term_db_path: Option<String>) -> (c: Config)
        ensures
            c.bind_addr@ == setting_or(bind_addr, default_bind_addr()),
            c.lex_db_path@ == setting_or(lex_db_path, default_lex_db_path()),
            c.term_db_path@ == setting_or(term_db_path, default_term_db_path()),
    {
        Config {
            bind_addr: or_default(bind_addr, "127.0.0.1:5005"),
            lex_db_path: or_default(lex_db_path, "./data/lexicon.sqlite"),
            term_db_path: or_default(term_db_path, "./data/terminology.sqlite"),
        }
    }
}

} // verus!
