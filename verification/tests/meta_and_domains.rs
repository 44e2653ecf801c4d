use focloireacht_server::error::ApiError;
use focloireacht_server::models::meta::SourceRow;
use focloireacht_server::routes::domains::{
    domain_search_response, domains, domains_search, vocab, vocab_response, DomainCountRow,
    DomainSearchQuery, DomainSearchRow, VocabQuery,
};
use focloireacht_server::routes::health::health;
use focloireacht_server::routes::meta::{fetch_meta_for_db, meta, MetaFetch, MetaQuery, MetaReply, MetaStep};

fn s(x: &str) -> String {
    x.to_string()
}

fn source(id: &str) -> SourceRow {
    SourceRow { id: s(id), name: Some(s("Téarma")), version: None, license: None, url: None }
}

#[test]
fn health_says_ok() {
    assert_eq!(health().status, "ok");
}

#[test]
fn meta_reads_version_build_time_and_sources() {
    let (f, step) = fetch_meta_for_db();
    assert!(matches!(step, MetaStep::Query(MetaQuery::SchemaVersion)));
    let (f, step) = f.resume(MetaReply::Text(Some(s("3"))));
    assert!(matches!(step, MetaStep::Query(MetaQuery::BuildTime)));
    let (f, step) = f.resume(MetaReply::Text(None));
    assert!(matches!(step, MetaStep::Query(MetaQuery::Sources)));
    let (f, step) = f.resume(MetaReply::Sources(vec![source("tearma")]));
    assert!(matches!(f, MetaFetch::Finished));
    let info = match step {
        MetaStep::Done(Ok(info)) => info,
        _ => panic!("expected an answer"),
    };
    assert_eq!(info.schema_version.as_deref(), Some("3"));
    assert_eq!(info.build_time, None);
    assert_eq!(info.sources.len(), 1);
}

#[test]
fn unreadable_sources_are_left_empty_and_an_unreadable_db_is_unknown() {
    let (f, _) = fetch_meta_for_db();
    let (f, _) = f.resume(MetaReply::Text(Some(s("3"))));
    let (f, _) = f.resume(MetaReply::Text(Some(s("2024-01-01"))));
    let (_, step) = f.resume(MetaReply::Failed);
    let info = match step {
        MetaStep::Done(Ok(info)) => info,
        _ => panic!("expected an answer"),
    };
    assert_eq!(info.build_time.as_deref(), Some("2024-01-01"));
    assert!(info.sources.is_empty());

    let (f, _) = fetch_meta_for_db();
    let (_, step) = f.resume(MetaReply::Failed);
    let failed = match step {
        MetaStep::Done(r) => r,
        _ => panic!("expected an answer"),
    };
    assert_eq!(failed.as_ref().err(), Some(&ApiError::DbError));
    let r = meta(Ok(info), failed);
    assert_eq!(r.lex.sources.len(), 0);
    assert_eq!(r.lex.schema_version.as_deref(), Some("3"));
    assert_eq!(r.term.schema_version, None);
    assert_eq!(r.term.build_time, None);
    assert!(r.term.sources.is_empty());
}

#[test]
fn domains_are_answered_as_given() {
    let r = domains(vec![DomainCountRow { label: s("Dlí"), count: 4 }]);
    assert_eq!(r.domains.len(), 1);
    assert_eq!(r.domains[0].count, 4);
    let r = domain_search_response(vec![DomainSearchRow { label: s("Law & Order"), count: 2 }]);
    assert_eq!(r.domains[0].label, "Law & Order");
}

#[test]
fn a_domain_search_reads_amp_and_caps_its_limit() {
    let plan = domains_search(&DomainSearchQuery { q: s("Law &amp; Order"), limit: None }).unwrap();
    assert_eq!(plan.pattern, "%Law & Order%");
    assert_eq!(plan.limit, 20);
    let plan = domains_search(&DomainSearchQuery { q: s("x"), limit: Some(1000) }).unwrap();
    assert_eq!(plan.limit, 100);
    let plan = domains_search(&DomainSearchQuery { q: s("x"), limit: Some(-1) }).unwrap();
    assert_eq!(plan.limit, -1);
    assert_eq!(domains_search(&DomainSearchQuery { q: s(""), limit: None }).err(), Some(ApiError::InvalidKey));
}

#[test]
fn a_vocabulary_checks_domain_then_language() {
    let plan = vocab(&VocabQuery { domain: s("Law &amp; Order"), lang: None, limit: None }).unwrap();
    assert_eq!(plan.domain, "Law & Order");
    assert_eq!(plan.lang, "ga");
    assert_eq!(plan.limit, 200);
    let plan = vocab(&VocabQuery { domain: s("Dlí"), lang: Some(s("en")), limit: Some(9999) }).unwrap();
    assert_eq!(plan.lang, "en");
    assert_eq!(plan.limit, 500);
    assert_eq!(vocab(&VocabQuery { domain: s(""), lang: Some(s("fr")), limit: None }).err(), Some(ApiError::InvalidKey));
    assert_eq!(vocab(&VocabQuery { domain: s("Dlí"), lang: Some(s("fr")), limit: None }).err(), Some(ApiError::InvalidLang));
}

#[test]
fn a_vocabulary_answer_counts_its_pairs() {
    let plan = vocab(&VocabQuery { domain: s("Law &amp; Order"), lang: None, limit: None }).unwrap();
    let rows = vec![(s("dlí"), s("law"), Some(s("n"))), (s("ord"), s("order"), None)];
    let r = vocab_response(&s("Law &amp; Order"), &plan, rows);
    assert_eq!(r.domain, "Law &amp; Order");
    assert_eq!(r.lang, "ga");
    assert_eq!(r.count, 2);
    assert_eq!(r.terms[1].en, "order");
    assert_eq!(r.terms[0].pos.as_deref(), Some("n"));
}
