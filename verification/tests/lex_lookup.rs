use focloireacht_server::error::ApiError;
use focloireacht_server::models::lex::{
    EntryRow, EtyRow, ExampleRow, FreqRow, LexEntryPayload, SenseRow, VariantRow,
};
use focloireacht_server::routes::lex::{
    assemble_lex_payloads, get_by_lemma, get_by_variant, lookup_legacy, LegacyLookupBody,
    LemmaQuery, LexLookup, LexQuery, LexReply, LexStep, VariantQuery,
};
use focloireacht_server::routes::lex_batch::{post_batch, LexBatch, LexBatchBody, LexBatchStep};

fn s(x: &str) -> String {
    x.to_string()
}

fn entry(id: &str) -> EntryRow {
    EntryRow {
        id: s(id),
        lemma: format!("lemma-{}", id),
        pos: Some(s("n")),
        sort_key: None,
        lookup_key: Some(format!("lemma-{}", id)),
        notes_raw: None,
    }
}

fn sense(id: &str, entry_id: &str) -> SenseRow {
    SenseRow {
        id: s(id),
        entry_id: s(entry_id),
        gloss: Some(format!("gloss {}", id)),
        usage_labels: None,
        notes_raw: None,
        source_id: s("src"),
    }
}

fn example(id: &str, sense_id: &str) -> ExampleRow {
    ExampleRow { id: s(id), sense_id: s(sense_id), text: format!("text {}", id), trans: None, source_id: s("src") }
}

fn ety(id: &str, entry_id: &str) -> EtyRow {
    EtyRow { id: s(id), entry_id: s(entry_id), src_lang: Some(s("la")), value: None, ref_: None, source_id: s("src") }
}

fn variant(id: &str, entry_id: &str) -> VariantRow {
    VariantRow {
        id: s(id),
        entry_id: s(entry_id),
        form: format!("form {}", id),
        vtype: None,
        dialect: Some(s("Mumhan")),
        note: None,
        source_id: s("src"),
    }
}

fn freq(entry_id: &str, rank: i64) -> FreqRow {
    FreqRow {
        entry_id: s(entry_id),
        lemma: s("l"),
        rank: Some(rank),
        count_tokens: Some(10),
        per_million_bits: Some(2.5f64.to_bits()),
        note: None,
        source_id: s("src"),
    }
}

fn ids<T>(rows: &[T], id: impl Fn(&T) -> &String) -> Vec<String> {
    rows.iter().map(|r| id(r).clone()).collect()
}

fn query(step: &LexStep) -> &LexQuery {
    match step {
        LexStep::Query(q) => q,
        LexStep::Done(_) => panic!("expected a query"),
    }
}

fn ids_json(step: &LexStep) -> String {
    match query(step) {
        LexQuery::EntriesByIds { ids_json }
        | LexQuery::SensesByEntryIds { ids_json }
        | LexQuery::ExamplesBySenseIds { ids_json }
        | LexQuery::EtymologyByEntryIds { ids_json }
        | LexQuery::VariantsByEntryIds { ids_json }
        | LexQuery::FrequenciesByEntryIds { ids_json } => ids_json.clone(),
        _ => panic!("expected a query by ids"),
    }
}

fn done(step: LexStep) -> Result<Vec<LexEntryPayload>, ApiError> {
    match step {
        LexStep::Done(r) => r,
        LexStep::Query(_) => panic!("expected an answer"),
    }
}

#[test]
fn payloads_gather_the_rows_of_each_entry() {
    let entries = vec![entry("e1"), entry("e2")];
    let senses = vec![sense("s1", "e1"), sense("s2", "e2"), sense("s3", "e1")];
    let examples = vec![example("x1", "s3"), example("x2", "s1"), example("x3", "s2"), example("x4", "s1")];
    let etymology = vec![ety("y1", "e2")];
    let variants = vec![variant("v1", "e1"), variant("v2", "e9")];
    let freqs = vec![freq("e1", 7), freq("e1", 3)];
    let ps = assemble_lex_payloads(&entries, &senses, &examples, &etymology, &variants, &freqs);
    assert_eq!(ps.len(), 2);
    assert_eq!(ps[0].entry.id, "e1");
    assert_eq!(ids(&ps[0].senses, |r| &r.id), vec!["s1", "s3"]);
    // the examples of s1, then those of s3
    assert_eq!(ids(&ps[0].examples, |r| &r.id), vec!["x2", "x4", "x1"]);
    assert!(ps[0].etymology.is_empty());
    assert_eq!(ids(&ps[0].variants, |r| &r.id), vec!["v1"]);
    // the last frequency row of the entry
    assert_eq!(ps[0].freq.as_ref().unwrap().rank, Some(3));
    assert_eq!(ps[1].entry.id, "e2");
    assert_eq!(ids(&ps[1].senses, |r| &r.id), vec!["s2"]);
    assert_eq!(ids(&ps[1].examples, |r| &r.id), vec!["x3"]);
    assert_eq!(ids(&ps[1].etymology, |r| &r.id), vec!["y1"]);
    assert!(ps[1].variants.is_empty());
    assert!(ps[1].freq.is_none());
}

#[test]
fn a_repeated_entry_gets_nothing_the_second_time() {
    let entries = vec![entry("e1"), entry("e1")];
    let senses = vec![sense("s1", "e1")];
    let examples = vec![example("x1", "s1")];
    let freqs = vec![freq("e1", 1)];
    let ps = assemble_lex_payloads(&entries, &senses, &examples, &Vec::new(), &Vec::new(), &freqs);
    assert_eq!(ps.len(), 2);
    assert_eq!(ps[0].senses.len(), 1);
    assert_eq!(ps[0].examples.len(), 1);
    assert!(ps[0].freq.is_some());
    assert_eq!(ps[1].entry.id, "e1");
    assert!(ps[1].senses.is_empty());
    assert!(ps[1].examples.is_empty());
    assert!(ps[1].freq.is_none());
}

#[test]
fn a_lookup_by_lemma_asks_its_queries_in_turn() {
    let (lookup, step) = get_by_lemma(&LemmaQuery { lemma: s("madra"), limit: None });
    match query(&step) {
        LexQuery::EntriesByLookupKey { key, limit } => {
            assert_eq!(key, "madra");
            assert_eq!(*limit, 5);
        }
        _ => panic!("expected the entries by key"),
    }
    let (lookup, step) = lookup.resume(LexReply::Entries(vec![entry("e1"), entry("e2")]));
    assert!(matches!(query(&step), LexQuery::SensesByEntryIds { .. }));
    assert_eq!(ids_json(&step), "[\"e1\",\"e2\"]");
    let (lookup, step) = lookup.resume(LexReply::Senses(vec![sense("s1", "e2")]));
    assert!(matches!(query(&step), LexQuery::ExamplesBySenseIds { .. }));
    assert_eq!(ids_json(&step), "[\"s1\"]");
    let (lookup, step) = lookup.resume(LexReply::Examples(vec![example("x1", "s1")]));
    assert!(matches!(query(&step), LexQuery::EtymologyByEntryIds { .. }));
    assert_eq!(ids_json(&step), "[\"e1\",\"e2\"]");
    let (lookup, step) = lookup.resume(LexReply::Etymology(vec![]));
    assert!(matches!(query(&step), LexQuery::VariantsByEntryIds { .. }));
    let (lookup, step) = lookup.resume(LexReply::Variants(vec![variant("v1", "e1")]));
    assert!(matches!(query(&step), LexQuery::FrequenciesByEntryIds { .. }));
    let (lookup, step) = lookup.resume(LexReply::Frequencies(vec![]));
    assert!(matches!(lookup, LexLookup::Finished));
    let ps = done(step).unwrap();
    assert_eq!(ps.len(), 2);
    assert_eq!(ps[0].variants.len(), 1);
    assert_eq!(ps[1].senses.len(), 1);
    assert_eq!(ps[1].examples.len(), 1);
}

#[test]
fn no_senses_skip_the_examples() {
    let (lookup, _) = lookup_legacy(&LegacyLookupBody { q: s("madra"), limit: Some(2) });
    let (lookup, _) = lookup.resume(LexReply::Entries(vec![entry("e1")]));
    let (_, step) = lookup.resume(LexReply::Senses(vec![]));
    assert!(matches!(query(&step), LexQuery::EtymologyByEntryIds { .. }));
    assert_eq!(ids_json(&step), "[\"e1\"]");
}

#[test]
fn no_entries_answer_with_no_payloads() {
    let (lookup, _) = get_by_lemma(&LemmaQuery { lemma: s("xyz"), limit: Some(50) });
    let (_, step) = lookup.resume(LexReply::Entries(vec![]));
    assert_eq!(done(step).unwrap().len(), 0);
}

#[test]
fn a_lookup_by_variant_asks_for_entry_ids_first() {
    let (lookup, step) = get_by_variant(&VariantQuery { form: s("mhadra"), limit: Some(3) });
    match query(&step) {
        LexQuery::EntryIdsByVariantForm { form, limit } => {
            assert_eq!(form, "mhadra");
            assert_eq!(*limit, 3);
        }
        _ => panic!("expected the entry ids by form"),
    }
    let (lookup2, step2) = get_by_variant(&VariantQuery { form: s("mhadra"), limit: None });
    let (_, empty) = lookup2.resume(LexReply::EntryIds(vec![]));
    drop(step2);
    assert_eq!(done(empty).unwrap().len(), 0);
    let (lookup, step) = lookup.resume(LexReply::EntryIds(vec![s("e7"), s("e8")]));
    assert!(matches!(query(&step), LexQuery::EntriesByIds { .. }));
    assert_eq!(ids_json(&step), "[\"e7\",\"e8\"]");
    let (_, step) = lookup.resume(LexReply::Entries(vec![entry("e7")]));
    assert!(matches!(query(&step), LexQuery::SensesByEntryIds { .. }));
}

#[test]
fn bad_parameters_are_refused_before_any_query() {
    let (_, step) = get_by_lemma(&LemmaQuery { lemma: s(""), limit: None });
    assert_eq!(done(step).err(), Some(ApiError::InvalidKey));
    let (_, step) = get_by_lemma(&LemmaQuery { lemma: s("madra"), limit: Some(51) });
    assert_eq!(done(step).err(), Some(ApiError::InvalidLimit));
    // the key is checked before the limit
    let (_, step) = get_by_variant(&VariantQuery { form: "a".repeat(129), limit: Some(0) });
    assert_eq!(done(step).err(), Some(ApiError::InvalidKey));
}

#[test]
fn a_failed_or_unexpected_reply_is_a_db_error() {
    let (lookup, _) = get_by_lemma(&LemmaQuery { lemma: s("madra"), limit: None });
    let (after, step) = lookup.resume(LexReply::Failed);
    assert!(matches!(after, LexLookup::Finished));
    assert_eq!(done(step).err(), Some(ApiError::DbError));
    let (lookup, _) = get_by_lemma(&LemmaQuery { lemma: s("madra"), limit: None });
    let (_, step) = lookup.resume(LexReply::Senses(vec![]));
    assert_eq!(done(step).err(), Some(ApiError::DbError));
}

fn batch_query(step: &LexBatchStep) -> &LexQuery {
    match step {
        LexBatchStep::Query(q) => q,
        LexBatchStep::Done(_) => panic!("expected a query"),
    }
}

fn finish_lookup(batch: LexBatch, entries: Vec<EntryRow>) -> (LexBatch, LexBatchStep) {
    let no_entries = entries.is_empty();
    let (batch, step) = batch.resume(LexReply::Entries(entries));
    if no_entries {
        return (batch, step);
    }
    let (batch, _) = batch.resume(LexReply::Senses(vec![]));
    let (batch, _) = batch.resume(LexReply::Etymology(vec![]));
    let (batch, _) = batch.resume(LexReply::Variants(vec![]));
    batch.resume(LexReply::Frequencies(vec![]))
}

#[test]
fn a_batch_answers_each_lemma_and_variant() {
    let body = LexBatchBody {
        lemmas: Some(vec![s("cat"), s("madra"), s("cat")]),
        variants: Some(vec![s("mhadra")]),
        limit: None,
    };
    let (batch, step) = post_batch(&body);
    match batch_query(&step) {
        LexQuery::EntriesByLookupKey { key, limit } => {
            assert_eq!(key, "cat");
            assert_eq!(*limit, 5);
        }
        _ => panic!("expected the first lemma"),
    }
    let (batch, step) = finish_lookup(batch, vec![]);
    assert!(matches!(batch_query(&step), LexQuery::EntriesByLookupKey { key, .. } if key == "madra"));
    let (batch, step) = finish_lookup(batch, vec![entry("e1")]);
    assert!(matches!(batch_query(&step), LexQuery::EntriesByLookupKey { key, .. } if key == "cat"));
    let (batch, step) = finish_lookup(batch, vec![]);
    assert!(matches!(batch_query(&step), LexQuery::EntryIdsByVariantForm { form, .. } if form == "mhadra"));
    let (batch, _) = batch.resume(LexReply::EntryIds(vec![]));
    assert!(matches!(batch, LexBatch::Finished));
    let (_, step) = post_batch(&body);
    drop(step);
    // run it again to the end and read the answer
    let (b, _) = post_batch(&body);
    let (b, _) = finish_lookup(b, vec![]);
    let (b, _) = finish_lookup(b, vec![entry("e1")]);
    let (b, _) = finish_lookup(b, vec![]);
    let (_, step) = b.resume(LexReply::EntryIds(vec![]));
    let response = match step {
        LexBatchStep::Done(Ok(r)) => r,
        _ => panic!("expected an answer"),
    };
    let mut lemma_keys: Vec<&String> = response.lemmas.iter().map(|p| &p.0).collect();
    lemma_keys.sort();
    assert_eq!(lemma_keys, vec!["cat", "madra"]);
    let madra = response.lemmas.iter().find(|p| p.0 == "madra").unwrap();
    assert_eq!(madra.1.len(), 1);
    assert_eq!(response.variants.len(), 1);
    assert_eq!(response.variants[0].0, "mhadra");
    assert!(response.variants[0].1.is_empty());
}

#[test]
fn a_batch_checks_its_limit_first_and_stops_at_a_bad_key() {
    let (_, step) = post_batch(&LexBatchBody { lemmas: Some(vec![s("")]), variants: None, limit: Some(0) });
    assert!(matches!(step, LexBatchStep::Done(Err(ApiError::InvalidLimit))));
    let body = LexBatchBody { lemmas: Some(vec![s("cat"), s("")]), variants: None, limit: None };
    let (batch, _) = post_batch(&body);
    let (_, step) = finish_lookup(batch, vec![]);
    assert!(matches!(step, LexBatchStep::Done(Err(ApiError::InvalidKey))));
    let (_, step) = post_batch(&LexBatchBody { lemmas: None, variants: None, limit: None });
    match step {
        LexBatchStep::Done(Ok(r)) => {
            assert!(r.lemmas.is_empty());
            assert!(r.variants.is_empty());
        }
        _ => panic!("expected an empty answer"),
    }
}

#[test]
fn a_failed_query_ends_a_batch() {
    let (batch, _) = post_batch(&LexBatchBody { lemmas: Some(vec![s("cat")]), variants: None, limit: None });
    let (batch, step) = batch.resume(LexReply::Failed);
    assert!(matches!(batch, LexBatch::Finished));
    assert!(matches!(step, LexBatchStep::Done(Err(ApiError::DbError))));
}

#[test]
fn a_batch_key_gets_what_its_single_lookup_gets() {
    let replies = || {
        vec![
            LexReply::Entries(vec![entry("e1")]),
            LexReply::Senses(vec![sense("s1", "e1")]),
            LexReply::Examples(vec![example("x1", "s1")]),
            LexReply::Etymology(vec![ety("y1", "e1")]),
            LexReply::Variants(vec![]),
            LexReply::Frequencies(vec![freq("e1", 4)]),
        ]
    };
    let (mut b, mut bstep) = post_batch(&LexBatchBody { lemmas: Some(vec![s("madra")]), variants: None, limit: Some(7) });
    for r in replies() {
        let (nb, ns) = b.resume(r);
        b = nb;
        bstep = ns;
    }
    let (mut l, mut lstep) = get_by_lemma(&LemmaQuery { lemma: s("madra"), limit: Some(7) });
    for r in replies() {
        let (nl, ns) = l.resume(r);
        l = nl;
        lstep = ns;
    }
    let response = match bstep {
        LexBatchStep::Done(Ok(r)) => r,
        _ => panic!("expected an answer"),
    };
    let single = done(lstep).unwrap();
    assert_eq!(response.lemmas.len(), 1);
    let batched = &response.lemmas[0].1;
    assert_eq!(batched.len(), single.len());
    assert_eq!(batched[0].entry.id, single[0].entry.id);
    assert_eq!(ids(&batched[0].examples, |r| &r.id), ids(&single[0].examples, |r| &r.id));
    assert_eq!(ids(&batched[0].etymology, |r| &r.id), ids(&single[0].etymology, |r| &r.id));
    assert_eq!(batched[0].freq.as_ref().unwrap().rank, single[0].freq.as_ref().unwrap().rank);
}
