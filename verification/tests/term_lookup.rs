use focloireacht_server::error::ApiError;
use focloireacht_server::models::term::{TermQueryResponse, TermRow};
use focloireacht_server::routes::term::{
    assemble_term_pairs, en2ga, ga2en, TermDbQuery, TermLookup, TermQuery, TermReply, TermStep,
};
use focloireacht_server::routes::term_batch::{batch, BatchBody, TermBatch, TermBatchStep};
use focloireacht_server::routes::validate::{validate, CheckQuery, CheckReply, CheckStep, ValidateQuery};

fn s(x: &str) -> String {
    x.to_string()
}

fn term(id: &str, lang: &str, text: &str) -> TermRow {
    TermRow {
        id: s(id),
        lang: s(lang),
        term: s(text),
        pos: Some(s("n")),
        lookup_key: s(text),
        source_id: s("tearma"),
    }
}

fn pair(a: &str, b: &str) -> (String, String) {
    (s(a), s(b))
}

fn query(step: &TermStep) -> &TermDbQuery {
    match step {
        TermStep::Query(q) => q,
        TermStep::Done(_) => panic!("expected a query"),
    }
}

fn done(step: TermStep) -> Result<TermQueryResponse, ApiError> {
    match step {
        TermStep::Done(r) => r,
        TermStep::Query(_) => panic!("expected an answer"),
    }
}

#[test]
fn pairs_put_the_irish_row_on_the_irish_side() {
    let pairs = vec![pair("g1", "e1"), pair("g2", "e1")];
    let targets = vec![term("g1", "ga", "madra"), term("g2", "ga", "gadhar")];
    let sources = vec![term("e1", "en", "dog")];
    let links = vec![pair("g1", "Zoology"), pair("g1", "Farming"), pair("g2", "Zoology")];
    let out = assemble_term_pairs(&pairs, &targets, &sources, &links, &None);
    assert_eq!(out.len(), 2);
    assert_eq!(out[0].ga.term, "madra");
    assert_eq!(out[0].en.term, "dog");
    assert_eq!(out[0].ga.domains, vec![s("Zoology"), s("Farming")]);
    assert!(out[0].en.domains.is_empty());
    assert_eq!(out[1].ga.term_id, "g2");
    assert_eq!(out[1].ga.domains, vec![s("Zoology")]);
    // from Irish: the target is English, the source Irish
    let out = assemble_term_pairs(&vec![pair("e1", "g1")], &sources, &targets, &links, &None);
    assert_eq!(out.len(), 1);
    assert_eq!(out[0].ga.term_id, "g1");
    assert_eq!(out[0].en.term_id, "e1");
}

#[test]
fn an_irish_term_gets_its_domains_once() {
    let pairs = vec![pair("g1", "e1"), pair("g1", "e2")];
    let targets = vec![term("g1", "ga", "madra")];
    let sources = vec![term("e1", "en", "dog"), term("e2", "en", "hound")];
    let links = vec![pair("g1", "Zoology")];
    let out = assemble_term_pairs(&pairs, &targets, &sources, &links, &None);
    assert_eq!(out.len(), 2);
    assert_eq!(out[0].ga.domains, vec![s("Zoology")]);
    assert!(out[1].ga.domains.is_empty());
    // with a domain asked for, the second pair is left out
    let out = assemble_term_pairs(&pairs, &targets, &sources, &links, &Some(s("zoology ")));
    assert_eq!(out.len(), 1);
    assert_eq!(out[0].en.term, "dog");
}

#[test]
fn pairs_without_rows_or_domain_are_left_out() {
    let pairs = vec![pair("g1", "e1"), pair("g9", "e1"), pair("g2", "e1")];
    let targets = vec![term("g1", "ga", "madra"), term("g2", "ga", "gadhar")];
    let sources = vec![term("e1", "en", "dog")];
    let links = vec![pair("g1", "Dlí"), pair("g2", "Zoology")];
    let out = assemble_term_pairs(&pairs, &targets, &sources, &links, &Some(s("DLÍ")));
    assert_eq!(out.len(), 1);
    assert_eq!(out[0].ga.term_id, "g1");
    let out = assemble_term_pairs(&pairs, &targets, &sources, &links, &None);
    assert_eq!(out.len(), 2);
}

#[test]
fn a_domain_keeps_the_plain_pairs_whose_target_answers_it() {
    let pairs = vec![pair("g1", "e1"), pair("g2", "e1"), pair("g3", "e1"), pair("g4", "e1")];
    let targets = vec![term("g1", "ga", "madra"), term("g2", "ga", "gadhar"), term("g4", "ga", "cú")];
    let sources = vec![term("e1", "en", "dog")];
    let links = vec![pair("g1", "Law"), pair("g2", "Zoology"), pair("g4", "Farming"), pair("g4", " ZOOLOGY")];
    let ids = |out: &Vec<focloireacht_server::models::term::TermPairPayload>| -> Vec<(String, String)> {
        out.iter().map(|p| (p.ga.term_id.clone(), p.en.term_id.clone())).collect()
    };
    let plain = assemble_term_pairs(&pairs, &targets, &sources, &links, &None);
    assert_eq!(ids(&plain), vec![pair("g1", "e1"), pair("g2", "e1"), pair("g4", "e1")]);
    let within = assemble_term_pairs(&pairs, &targets, &sources, &links, &Some(s("zoology")));
    assert_eq!(ids(&within), vec![pair("g2", "e1"), pair("g4", "e1")]);
    assert_eq!(within[1].ga.domains, vec![s("Farming"), s(" ZOOLOGY")]);
}

#[test]
fn a_term_lookup_asks_its_queries_in_turn() {
    let q = TermQuery { term: s("dog"), domain: Some(s("Zoology")), limit: None };
    let (lookup, step) = en2ga(&q);
    match query(&step) {
        TermDbQuery::SourceTerms { lang, key, limit } => {
            assert_eq!(lang, "en");
            assert_eq!(key, "dog");
            assert_eq!(*limit, 5);
        }
        _ => panic!("expected the source terms"),
    }
    let (lookup, step) = lookup.resume(TermReply::Terms(vec![term("e1", "en", "dog")]));
    match query(&step) {
        TermDbQuery::PairsBySourceIds { source_is_en, ids_json } => {
            assert!(*source_is_en);
            assert_eq!(ids_json, "[\"e1\"]");
        }
        _ => panic!("expected the pairs"),
    }
    let (lookup, step) = lookup.resume(TermReply::Pairs(vec![pair("g1", "e1")]));
    assert!(matches!(query(&step), TermDbQuery::TermsByIds { ids_json } if ids_json == "[\"g1\"]"));
    let (lookup, step) = lookup.resume(TermReply::Terms(vec![term("g1", "ga", "madra")]));
    match query(&step) {
        TermDbQuery::DomainLinks { ids_json, domain } => {
            assert_eq!(ids_json, "[\"g1\"]");
            assert_eq!(domain.as_deref(), Some("Zoology"));
        }
        _ => panic!("expected the domain links"),
    }
    let (lookup, step) = lookup.resume(TermReply::Pairs(vec![pair("g1", "Zoology")]));
    assert!(matches!(query(&step), TermDbQuery::TermsByIds { ids_json } if ids_json == "[\"e1\"]"));
    let (lookup, step) = lookup.resume(TermReply::Terms(vec![term("e1", "en", "dog")]));
    assert!(matches!(lookup, TermLookup::Finished));
    let r = done(step).unwrap();
    assert_eq!(r.query.term, "dog");
    assert_eq!(r.query.lang, "en");
    assert_eq!(r.query.domain.as_deref(), Some("Zoology"));
    assert_eq!(r.matches.len(), 1);
    assert_eq!(r.matches[0].ga.term, "madra");
}

#[test]
fn no_source_terms_or_pairs_answer_with_no_matches() {
    let q = TermQuery { term: s("madra"), domain: None, limit: Some(2) };
    let (lookup, step) = ga2en(&q);
    assert!(matches!(query(&step), TermDbQuery::SourceTerms { lang, .. } if lang == "ga"));
    let (_, step) = lookup.resume(TermReply::Terms(vec![]));
    let r = done(step).unwrap();
    assert_eq!(r.query.lang, "ga");
    assert!(r.matches.is_empty());
    let (lookup, _) = ga2en(&q);
    let (lookup, step) = lookup.resume(TermReply::Terms(vec![term("g1", "ga", "madra")]));
    assert!(matches!(query(&step), TermDbQuery::PairsBySourceIds { source_is_en: false, .. }));
    let (_, step) = lookup.resume(TermReply::Pairs(vec![]));
    assert!(done(step).unwrap().matches.is_empty());
}

#[test]
fn no_target_terms_skip_the_domain_links() {
    let q = TermQuery { term: s("dog"), domain: None, limit: None };
    let (lookup, _) = en2ga(&q);
    let (lookup, _) = lookup.resume(TermReply::Terms(vec![term("e1", "en", "dog")]));
    let (lookup, _) = lookup.resume(TermReply::Pairs(vec![pair("g1", "e1")]));
    let (lookup, step) = lookup.resume(TermReply::Terms(vec![]));
    assert!(matches!(query(&step), TermDbQuery::TermsByIds { ids_json } if ids_json == "[\"e1\"]"));
    let (_, step) = lookup.resume(TermReply::Terms(vec![term("e1", "en", "dog")]));
    assert!(done(step).unwrap().matches.is_empty());
}

#[test]
fn term_lookup_parameters_are_checked_in_order() {
    let (_, step) = en2ga(&TermQuery { term: s(""), domain: Some(s("")), limit: Some(0) });
    assert_eq!(done(step).err(), Some(ApiError::InvalidKey));
    let (_, step) = en2ga(&TermQuery { term: s("dog"), domain: Some(s("")), limit: Some(0) });
    assert_eq!(done(step).err(), Some(ApiError::InvalidKey));
    let (_, step) = en2ga(&TermQuery { term: s("dog"), domain: None, limit: Some(0) });
    assert_eq!(done(step).err(), Some(ApiError::InvalidLimit));
    let (lookup, _) = en2ga(&TermQuery { term: s("dog"), domain: None, limit: None });
    let (_, step) = lookup.resume(TermReply::Failed);
    assert_eq!(done(step).err(), Some(ApiError::DbError));
}

#[test]
fn a_term_batch_answers_each_term_in_order() {
    let body = BatchBody { lang: s("en"), terms: vec![s("dog"), s("cat")], domain: None, limit: None };
    let (b, step) = batch(&body);
    assert!(matches!(step, TermBatchStep::Query(TermDbQuery::SourceTerms { ref key, .. }) if key == "dog"));
    let (b, step) = b.resume(TermReply::Terms(vec![]));
    assert!(matches!(step, TermBatchStep::Query(TermDbQuery::SourceTerms { ref key, .. }) if key == "cat"));
    let (b, step) = b.resume(TermReply::Terms(vec![]));
    assert!(matches!(b, TermBatch::Finished));
    match step {
        TermBatchStep::Done(Ok(rs)) => {
            assert_eq!(rs.len(), 2);
            assert_eq!(rs[0].query.term, "dog");
            assert_eq!(rs[1].query.term, "cat");
            assert_eq!(rs[1].query.lang, "en");
        }
        _ => panic!("expected an answer"),
    }
}

#[test]
fn a_term_batch_checks_the_language_and_stops_at_an_error() {
    let (_, step) = batch(&BatchBody { lang: s("fr"), terms: vec![], domain: None, limit: None });
    assert!(matches!(step, TermBatchStep::Done(Err(ApiError::InvalidLang))));
    let (_, step) = batch(&BatchBody { lang: s("ga"), terms: vec![], domain: None, limit: Some(99) });
    assert!(matches!(step, TermBatchStep::Done(Err(ApiError::InvalidLimit))));
    let (_, step) = batch(&BatchBody { lang: s("ga"), terms: vec![], domain: Some(s("")), limit: Some(99) });
    assert!(matches!(step, TermBatchStep::Done(Err(ApiError::InvalidKey))));
    let (_, step) = batch(&BatchBody { lang: s("ga"), terms: vec![], domain: None, limit: None });
    assert!(matches!(step, TermBatchStep::Done(Ok(ref rs)) if rs.is_empty()));
    let body = BatchBody { lang: s("ga"), terms: vec![s("madra"), s("")], domain: None, limit: None };
    let (b, _) = batch(&body);
    let (_, step) = b.resume(TermReply::Terms(vec![]));
    assert!(matches!(step, TermBatchStep::Done(Err(ApiError::InvalidKey))));
}

#[test]
fn a_term_batch_checks_each_term_before_the_shared_parameters() {
    let (b, step) = batch(&BatchBody { lang: s("en"), terms: vec![s("")], domain: None, limit: Some(0) });
    assert!(matches!(b, TermBatch::Finished));
    assert!(matches!(step, TermBatchStep::Done(Err(ApiError::InvalidKey))));
    let (_, step) = batch(&BatchBody { lang: s("en"), terms: vec![s("dog")], domain: Some(s("")), limit: Some(0) });
    assert!(matches!(step, TermBatchStep::Done(Err(ApiError::InvalidKey))));
    let (_, step) = batch(&BatchBody { lang: s("en"), terms: vec![s("dog")], domain: None, limit: Some(0) });
    assert!(matches!(step, TermBatchStep::Done(Err(ApiError::InvalidLimit))));
    let (_, step) = batch(&BatchBody { lang: s("en"), terms: vec![], domain: None, limit: Some(0) });
    assert!(matches!(step, TermBatchStep::Done(Err(ApiError::InvalidLimit))));
}

fn check_query(step: &CheckStep) -> &CheckQuery {
    match step {
        CheckStep::Query(q) => q,
        CheckStep::Done(_) => panic!("expected a query"),
    }
}

fn check_done(step: CheckStep) -> Result<bool, ApiError> {
    match step {
        CheckStep::Done(r) => r.map(|v| v.valid),
        CheckStep::Query(_) => panic!("expected an answer"),
    }
}

#[test]
fn validation_follows_term_pair_and_domain() {
    let q = ValidateQuery { term: s("dog"), lang: s("en"), domain: Some(s("Zoology")) };
    let (c, step) = validate(&q);
    assert!(matches!(check_query(&step), CheckQuery::SourceTermId { lang, key } if lang == "en" && key == "dog"));
    let (c, step) = c.resume(CheckReply::MaybeId(Some(s("e1"))));
    assert!(matches!(check_query(&step), CheckQuery::PairOfSource { source_is_en: true, source_id } if source_id == "e1"));
    let (c, step) = c.resume(CheckReply::MaybePair(Some(pair("g1", "e1"))));
    assert!(matches!(check_query(&step), CheckQuery::DomainLinkExists { term_id, domain } if term_id == "g1" && domain == "Zoology"));
    let (_, step) = c.resume(CheckReply::Found(false));
    assert_eq!(check_done(step), Ok(false));

    let q = ValidateQuery { term: s("madra"), lang: s("ga"), domain: None };
    let (c, _) = validate(&q);
    let (c, step) = c.resume(CheckReply::MaybeId(Some(s("g1"))));
    assert!(matches!(check_query(&step), CheckQuery::PairOfSource { source_is_en: false, .. }));
    let (_, step) = c.resume(CheckReply::MaybePair(Some(pair("e1", "g1"))));
    assert_eq!(check_done(step), Ok(true));

    let (c, _) = validate(&q);
    let (_, step) = c.resume(CheckReply::MaybeId(None));
    assert_eq!(check_done(step), Ok(false));
    let (c, _) = validate(&q);
    let (c, _) = c.resume(CheckReply::MaybeId(Some(s("g1"))));
    let (_, step) = c.resume(CheckReply::MaybePair(None));
    assert_eq!(check_done(step), Ok(false));
}

#[test]
fn validation_checks_term_domain_then_language() {
    let (_, step) = validate(&ValidateQuery { term: s(""), lang: s("xx"), domain: None });
    assert_eq!(check_done(step), Err(ApiError::InvalidKey));
    let (_, step) = validate(&ValidateQuery { term: s("a"), lang: s("xx"), domain: Some(s("")) });
    assert_eq!(check_done(step), Err(ApiError::InvalidKey));
    let (_, step) = validate(&ValidateQuery { term: s("a"), lang: s("xx"), domain: None });
    assert_eq!(check_done(step), Err(ApiError::InvalidLang));
    let (c, _) = validate(&ValidateQuery { term: s("a"), lang: s("en"), domain: None });
    let (_, step) = c.resume(CheckReply::Failed);
    assert_eq!(check_done(step), Err(ApiError::DbError));
}

#[test]
fn from_irish_the_domain_is_that_of_the_english_target() {
    // ga2en: the targets are English terms, and the links are theirs
    let pairs = vec![pair("e1", "g1"), pair("e2", "g1")];
    let targets = vec![term("e1", "en", "dog"), term("e2", "en", "hound")];
    let sources = vec![term("g1", "ga", "madra")];
    let links = vec![pair("e1", "Zoology")];
    let out = assemble_term_pairs(&pairs, &targets, &sources, &links, &Some(s("zoology")));
    assert_eq!(out.len(), 1);
    assert_eq!(out[0].ga.term_id, "g1");
    assert_eq!(out[0].en.term_id, "e1");
    let out = assemble_term_pairs(&pairs, &targets, &sources, &links, &None);
    assert_eq!(out.len(), 2);
}

#[test]
fn ga2en_with_a_domain_finds_the_linked_pair() {
    let q = TermQuery { term: s("madra"), domain: Some(s("Zoology")), limit: None };
    let (lookup, _) = ga2en(&q);
    let (lookup, _) = lookup.resume(TermReply::Terms(vec![term("g1", "ga", "madra")]));
    let (lookup, _) = lookup.resume(TermReply::Pairs(vec![pair("e1", "g1")]));
    let (lookup, step) = lookup.resume(TermReply::Terms(vec![term("e1", "en", "dog")]));
    assert!(matches!(query(&step), TermDbQuery::DomainLinks { ids_json, .. } if ids_json == "[\"e1\"]"));
    let (lookup, _) = lookup.resume(TermReply::Pairs(vec![pair("e1", "Zoology")]));
    let (_, step) = lookup.resume(TermReply::Terms(vec![term("g1", "ga", "madra")]));
    let r = done(step).unwrap();
    assert_eq!(r.matches.len(), 1);
    assert_eq!(r.matches[0].en.term, "dog");
}

#[test]
fn a_term_batch_response_is_the_single_lookup_response() {
    let body = BatchBody { lang: s("en"), terms: vec![s("dog")], domain: None, limit: Some(3) };
    let single = TermQuery { term: s("dog"), domain: None, limit: Some(3) };
    let replies = || {
        vec![
            TermReply::Terms(vec![term("e1", "en", "dog")]),
            TermReply::Pairs(vec![pair("g1", "e1")]),
            TermReply::Terms(vec![term("g1", "ga", "madra")]),
            TermReply::Pairs(vec![pair("g1", "Zoology")]),
            TermReply::Terms(vec![term("e1", "en", "dog")]),
        ]
    };
    let (mut b, mut bstep) = batch(&body);
    for r in replies() {
        let (nb, ns) = b.resume(r);
        b = nb;
        bstep = ns;
    }
    let (mut l, mut lstep) = en2ga(&single);
    for r in replies() {
        let (nl, ns) = l.resume(r);
        l = nl;
        lstep = ns;
    }
    let rs = match bstep {
        TermBatchStep::Done(Ok(rs)) => rs,
        _ => panic!("expected an answer"),
    };
    let one = done(lstep).unwrap();
    assert_eq!(rs.len(), 1);
    assert_eq!(rs[0].query.term, one.query.term);
    assert_eq!(rs[0].matches.len(), one.matches.len());
    assert_eq!(rs[0].matches[0].ga.term_id, one.matches[0].ga.term_id);
    assert_eq!(rs[0].matches[0].ga.domains, one.matches[0].ga.domains);
}

fn lookup_of_one(domain: Option<&str>, links: Vec<(String, String)>) -> usize {
    let (l, _) = en2ga(&TermQuery { term: s("dog"), domain: domain.map(s), limit: Some(1) });
    let (l, _) = l.resume(TermReply::Terms(vec![term("e1", "en", "dog")]));
    let (l, _) = l.resume(TermReply::Pairs(vec![pair("g1", "e1")]));
    let (l, _) = l.resume(TermReply::Terms(vec![term("g1", "ga", "madra")]));
    let (l, _) = l.resume(TermReply::Pairs(links));
    let (_, step) = l.resume(TermReply::Terms(vec![term("e1", "en", "dog")]));
    done(step).unwrap().matches.len()
}

fn validation_of(domain: Option<&str>, found: bool) -> bool {
    let (c, _) = validate(&ValidateQuery { term: s("dog"), lang: s("en"), domain: domain.map(s) });
    let (c, _) = c.resume(CheckReply::MaybeId(Some(s("e1"))));
    let (c, step) = c.resume(CheckReply::MaybePair(Some(pair("g1", "e1"))));
    if domain.is_none() {
        return check_done(step).unwrap();
    }
    let (_, step) = c.resume(CheckReply::Found(found));
    check_done(step).unwrap()
}

#[test]
fn validation_agrees_with_a_lookup_of_one_on_the_same_rows() {
    let links = vec![pair("g1", "Zoology")];
    assert_eq!(lookup_of_one(None, links.clone()), 1);
    assert!(validation_of(None, false));
    assert_eq!(lookup_of_one(Some(" zoology"), links.clone()), 1);
    assert!(validation_of(Some(" zoology"), true));
    assert_eq!(lookup_of_one(Some("Law"), links), 0);
    assert!(!validation_of(Some("Law"), false));
}
