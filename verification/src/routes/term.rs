use vstd::prelude::*;
use crate::error::ApiError;
use crate::models::term::{
    QueryEcho, QueryEchoView, TermPairPayload, opt_view, TermPairView, TermQueryResponse, TermQueryResponseView, TermRow,
    TermSide, TermSideView, pair_views,
};
use crate::rows::{
    Keyed, contains_string, last_row_with_key, last_with_key, seconds, seconds_with_key, with_key,
};
use crate::routes::params::{key_is_valid, limit_is_valid, requested_limit, sanitize_limit, validate_key};
use crate::text::{copy_opt_string, json_list, json_string_array, label_answers, label_matches, string_views};

verus! {

/// `GET /term/en2ga` and `GET /term/ga2en`: equivalents of a term in the other language, optionally
/// within a domain.
#[derive(Clone, Debug)]
pub struct TermQuery {
    pub term: String,
    pub domain: Option<String>,
    pub limit: Option<i64>,
}

/// The domain labels of a term that are still to be handed out: those of
/// `links` grouped under the term, unless the term has had them already.
pub open spec fn labels_left(
    links: Seq<(String, String)>,
    handed_out: Seq<Seq<char>>,
    term_id: Seq<char>,
) -> Seq<String> {
    if handed_out.contains(term_id) {
        Seq::empty()
    } else {
        seconds(with_key(links, term_id))
    }
}

/// Whether one of the labels answers the requested domain.
pub open spec fn some_label_answers(labels: Seq<String>, domain: Seq<char>) -> bool {
    exists|k: int| 0 <= k < labels.len() && label_answers((#[trigger] labels[k])@, domain)
}

/// One side of a pair, made of a term row and its domain labels.
pub open spec fn side_of(row: TermRow, domains: Seq<String>) -> TermSideView {
    TermSideView {
        term_id: row.id,
        term: row.term,
        pos: row.pos,
        domains,
        source_id: row.source_id,
    }
}

/// The term pairs, in the order of `pairs` (each a target id and a
/// source id). A pair whose target or source row is missing is left out; of
/// the two rows, the one in Irish is the Irish side. The Irish side gets its
/// term's domain labels, once: a later pair with the same Irish term gets
/// none. With a domain asked for, a pair is left out unless one of the target
/// term's labels still to be handed out answers the domain (the links are
/// those of the target terms).
pub open spec fn term_pairs_from(
    pairs: Seq<(String, String)>,
    targets: Seq<TermRow>,
    sources: Seq<TermRow>,
    links: Seq<(String, String)>,
    domain: Option<Seq<char>>,
    handed_out: Seq<Seq<char>>,
) -> Seq<TermPairView>
    decreases pairs.len(),
{
    if pairs.len() == 0 {
        Seq::empty()
    } else {
        let rest = pairs.skip(1);
        match (last_with_key(targets, pairs[0].0@), last_with_key(sources, pairs[0].1@)) {
            (Some(t), Some(s)) => {
                let ga = if t.lang@ == "ga"@ {
                    t
                } else {
                    s
                };
                let en = if t.lang@ == "ga"@ {
                    s
                } else {
                    t
                };
                let labels = labels_left(links, handed_out, ga.id@);
                if domain matches Some(d) && !some_label_answers(
                    labels_left(links, handed_out, t.id@),
                    d,
                ) {
                    term_pairs_from(rest, targets, sources, links, domain, handed_out)
                } else {
                    seq![TermPairView { ga: side_of(ga, labels), en: side_of(en, Seq::empty()) }]
                        + term_pairs_from(
                        rest,
                        targets,
                        sources,
                        links,
                        domain,
                        handed_out.push(ga.id@),
                    )
                }
            },
            _ => term_pairs_from(rest, targets, sources, links, domain, handed_out),
        }
    }
}

fn any_label_matches(labels: &Vec<String>, domain: &String) -> (b: bool)
    ensures
        b == some_label_answers(labels@, domain@),
{
    let mut k: usize = 0;
    while k < labels.len()
        invariant
            k <= labels.len(),
            forall|m: int| 0 <= m < k ==> !label_answers((#[trigger] labels@[m])@, domain@),
        decreases labels.len() - k,
    {
        if label_matches(&labels[k], domain) {
            return true;
        }
        k = k + 1;
    }
    false
}

fn make_side(row: &TermRow, domains: Vec<String>) -> (side: TermSide)
    ensures
        side@ == side_of(*row, domains@),
{
    let copy = row.duplicate();
    TermSide {
        term_id: copy.id,
        term: copy.term,
        pos: copy.pos,
        domains,
        source_id: copy.source_id,
    }
}

/// Builds the term pairs from the rows that the queries gave.
pub fn assemble_term_pairs(
    pairs: &Vec<(String, String)>,
    targets: &Vec<TermRow>,
    sources: &Vec<TermRow>,
    links: &Vec<(String, String)>,
    domain: &Option<String>,
) -> (r: Vec<TermPairPayload>)
    ensures
        pair_views(r@) == term_pairs_from(
            pairs@,
            targets@,
            sources@,
            links@,
            opt_view(*domain),
            Seq::empty(),
        ),
{
    let ghost all = term_pairs_from(pairs@, targets@, sources@, links@, opt_view(*domain), Seq::empty());
    let mut out: Vec<TermPairPayload> = Vec::new();
    let mut handed_out: Vec<String> = Vec::new();
    let mut i: usize = 0;
    assert(pairs@.skip(0) =~= pairs@);
    assert(pair_views(out@) =~= Seq::<TermPairView>::empty());
    assert(string_views(handed_out@) =~= Seq::<Seq<char>>::empty());
    assert(pair_views(out@) + all =~= all);
    while i < pairs.len()
        invariant
            i <= pairs.len(),
            all == term_pairs_from(pairs@, targets@, sources@, links@, opt_view(*domain), Seq::empty()),
            pair_views(out@) + term_pairs_from(
                pairs@.skip(i as int),
                targets@,
                sources@,
                links@,
                opt_view(*domain),
                string_views(handed_out@),
            ) == all,
        decreases pairs.len() - i,
    {
        let ghost rest = pairs@.skip(i as int);
        let ghost before = string_views(handed_out@);
        assert(rest.skip(1) =~= pairs@.skip(i + 1));
        assert(rest[0] == pairs@[i as int]);
        let target = last_row_with_key(targets, &pairs[i].0);
        let source = last_row_with_key(sources, &pairs[i].1);
        if let (Some(t), Some(s)) = (target, source) {
            let target_labels = if contains_string(&handed_out, &t.id) {
                Vec::new()
            } else {
                seconds_with_key(links, &t.id)
            };
            assert(target_labels@ =~= labels_left(links@, before, t.id@));
            let ga_is_target = t.lang == String::from_str("ga");
            let (ga, en) = if ga_is_target {
                (t, s)
            } else {
                (s, t)
            };
            let labels = if contains_string(&handed_out, &ga.id) {
                Vec::new()
            } else {
                seconds_with_key(links, &ga.id)
            };
            assert(labels@ =~= labels_left(links@, before, ga.id@));
            let keep = match domain {
                Some(d) => any_label_matches(&target_labels, d),
                None => true,
            };
            if keep {
                let ga_side = make_side(&ga, labels);
                let en_side = make_side(&en, Vec::new());
                assert(en_side@.domains =~= Seq::<String>::empty());
                let payload = TermPairPayload { ga: ga_side, en: en_side };
                let ghost old_out = out@;
                out.push(payload);
                handed_out.push(ga.id.clone());
                assert(string_views(handed_out@) =~= before.push(ga.id@));
                assert(pair_views(out@) =~= pair_views(old_out).push(payload@));
            }
        }
        i = i + 1;
    }
    assert(pairs@.skip(pairs.len() as int) =~= Seq::<(String, String)>::empty());
    assert(pair_views(out@) =~= all);
    out
}


/// The ids of term rows, in order.
pub open spec fn term_ids(rows: Seq<TermRow>) -> Seq<Seq<char>> {
    rows.map_values(|r: TermRow| r.id@)
}

/// The first ids of id pairs, in order.
pub open spec fn first_ids(pairs: Seq<(String, String)>) -> Seq<Seq<char>> {
    pairs.map_values(|p: (String, String)| p.0@)
}

/// The second ids of id pairs, in order.
pub open spec fn second_ids(pairs: Seq<(String, String)>) -> Seq<Seq<char>> {
    pairs.map_values(|p: (String, String)| p.1@)
}

fn term_ids_json(rows: &Vec<TermRow>) -> (text: String)
    ensures
        text@ == json_string_array(term_ids(rows@)),
{
    let mut ids: Vec<String> = Vec::new();
    let mut i: usize = 0;
    while i < rows.len()
        invariant
            i <= rows.len(),
            ids.len() == i,
            forall|k: int| 0 <= k < i ==> (#[trigger] ids@[k])@ == rows@[k].id@,
        decreases rows.len() - i,
    {
        ids.push(rows[i].id.clone());
        i = i + 1;
    }
    assert(string_views(ids@) =~= term_ids(rows@));
    json_list(&ids)
}

fn pair_ids_json(pairs: &Vec<(String, String)>, first: bool) -> (text: String)
    ensures
        text@ == json_string_array(if first { first_ids(pairs@) } else { second_ids(pairs@) }),
{
    let mut ids: Vec<String> = Vec::new();
    let mut i: usize = 0;
    while i < pairs.len()
        invariant
            i <= pairs.len(),
            ids.len() == i,
            forall|k: int|
                0 <= k < i ==> (#[trigger] ids@[k])@ == (if first {
                    pairs@[k].0@
                } else {
                    pairs@[k].1@
                }),
        decreases pairs.len() - i,
    {
        if first {
            ids.push(pairs[i].0.clone());
        } else {
            ids.push(pairs[i].1.clone());
        }
        i = i + 1;
    }
    if first {
        assert(string_views(ids@) =~= first_ids(pairs@));
    } else {
        assert(string_views(ids@) =~= second_ids(pairs@));
    }
    json_list(&ids)
}

/// A query of the terminology database.
pub enum TermDbQuery {
    /// The terms in `lang` whose `lookup_key` is `key`, at most `limit`.
    SourceTerms { lang: String, key: String, limit: i64 },
    /// The pairs whose English side (or, when `source_is_en` is false, whose
    /// Irish side) is among the listed ids, each as (other side, listed side).
    PairsBySourceIds { source_is_en: bool, ids_json: String },
    /// The terms whose id is listed.
    TermsByIds { ids_json: String },
    /// The (term id, domain label) links of the listed terms; with a domain,
    /// only the labels that the database matches to it.
    DomainLinks { ids_json: String, domain: Option<String> },
}

pub enum TermDbQueryView {
    SourceTerms { lang: Seq<char>, key: Seq<char>, limit: i64 },
    PairsBySourceIds { source_is_en: bool, ids_json: Seq<char> },
    TermsByIds { ids_json: Seq<char> },
    DomainLinks { ids_json: Seq<char>, domain: Option<Seq<char>> },
}

impl View for TermDbQuery {
    type V = TermDbQueryView;

    open spec fn view(&self) -> TermDbQueryView {
        match self {
            TermDbQuery::SourceTerms { lang, key, limit } => TermDbQueryView::SourceTerms {
                lang: lang@,
                key: key@,
                limit: *limit,
            },
            TermDbQuery::PairsBySourceIds { source_is_en, ids_json } =>
                TermDbQueryView::PairsBySourceIds { source_is_en: *source_is_en, ids_json: ids_json@ },
            TermDbQuery::TermsByIds { ids_json } => TermDbQueryView::TermsByIds {
                ids_json: ids_json@,
            },
            TermDbQuery::DomainLinks { ids_json, domain } => TermDbQueryView::DomainLinks {
                ids_json: ids_json@,
                domain: opt_view(*domain),
            },
        }
    }
}

/// What the database answered to the last query.
pub enum TermReply {
    Failed,
    Terms(Vec<TermRow>),
    Pairs(Vec<(String, String)>),
}

pub enum TermReplyView {
    Failed,
    Terms(Seq<TermRow>),
    Pairs(Seq<(String, String)>),
}

impl View for TermReply {
    type V = TermReplyView;

    open spec fn view(&self) -> TermReplyView {
        match self {
            TermReply::Failed => TermReplyView::Failed,
            TermReply::Terms(v) => TermReplyView::Terms(v@),
            TermReply::Pairs(v) => TermReplyView::Pairs(v@),
        }
    }
}

/// What to do next: run a query, or answer.
pub enum TermStep {
    Query(TermDbQuery),
    Done(Result<TermQueryResponse, ApiError>),
}

pub enum TermStepView {
    Query(TermDbQueryView),
    Done(Result<TermQueryResponseView, ApiError>),
}

impl View for TermStep {
    type V = TermStepView;

    open spec fn view(&self) -> TermStepView {
        match self {
            TermStep::Query(q) => TermStepView::Query(q@),
            TermStep::Done(Ok(r)) => TermStepView::Done(Ok(r@)),
            TermStep::Done(Err(e)) => TermStepView::Done(Err(*e)),
        }
    }
}

/// A term lookup between its queries. `echo` is the query as asked;
/// `target_ids` and `source_ids` are the JSON lists of the pairs' ids.
pub enum TermLookup {
    AwaitingSourceTerms { echo: QueryEcho },
    AwaitingPairs { echo: QueryEcho },
    AwaitingTargetTerms {
        echo: QueryEcho,
        pairs: Vec<(String, String)>,
        target_ids: String,
        source_ids: String,
    },
    AwaitingDomainLinks {
        echo: QueryEcho,
        pairs: Vec<(String, String)>,
        targets: Vec<TermRow>,
        source_ids: String,
    },
    AwaitingSourceRows {
        echo: QueryEcho,
        pairs: Vec<(String, String)>,
        targets: Vec<TermRow>,
        links: Vec<(String, String)>,
    },
    Finished,
}

pub enum TermLookupView {
    AwaitingSourceTerms { echo: QueryEchoView },
    AwaitingPairs { echo: QueryEchoView },
    AwaitingTargetTerms {
        echo: QueryEchoView,
        pairs: Seq<(String, String)>,
        target_ids: Seq<char>,
        source_ids: Seq<char>,
    },
    AwaitingDomainLinks {
        echo: QueryEchoView,
        pairs: Seq<(String, String)>,
        targets: Seq<TermRow>,
        source_ids: Seq<char>,
    },
    AwaitingSourceRows {
        echo: QueryEchoView,
        pairs: Seq<(String, String)>,
        targets: Seq<TermRow>,
        links: Seq<(String, String)>,
    },
    Finished,
}

impl View for TermLookup {
    type V = TermLookupView;

    open spec fn view(&self) -> TermLookupView {
        match self {
            TermLookup::AwaitingSourceTerms { echo } => TermLookupView::AwaitingSourceTerms {
                echo: echo@,
            },
            TermLookup::AwaitingPairs { echo } => TermLookupView::AwaitingPairs { echo: echo@ },
            TermLookup::AwaitingTargetTerms { echo, pairs, target_ids, source_ids } =>
                TermLookupView::AwaitingTargetTerms {
                    echo: echo@,
                    pairs: pairs@,
                    target_ids: target_ids@,
                    source_ids: source_ids@,
                },
            TermLookup::AwaitingDomainLinks { echo, pairs, targets, source_ids } =>
                TermLookupView::AwaitingDomainLinks {
                    echo: echo@,
                    pairs: pairs@,
                    targets: targets@,
                    source_ids: source_ids@,
                },
            TermLookup::AwaitingSourceRows { echo, pairs, targets, links } =>
                TermLookupView::AwaitingSourceRows {
                    echo: echo@,
                    pairs: pairs@,
                    targets: targets@,
                    links: links@,
                },
            TermLookup::Finished => TermLookupView::Finished,
        }
    }
}

pub open spec fn term_done(r: Result<TermQueryResponseView, ApiError>) -> (
    TermLookupView,
    TermStepView,
) {
    (TermLookupView::Finished, TermStepView::Done(r))
}

pub open spec fn term_ask(state: TermLookupView, q: TermDbQueryView) -> (TermLookupView, TermStepView) {
    (state, TermStepView::Query(q))
}

/// The answer to `echo`: the given pairs.
pub open spec fn answer(echo: QueryEchoView, matches: Seq<TermPairView>) -> Result<
    TermQueryResponseView,
    ApiError,
> {
    Ok(TermQueryResponseView { query: echo, matches })
}

/// The start of a term lookup from `echo.lang` (`en` or `ga`): the
/// term is checked, then the domain if any, then the limit; a refused
/// parameter is answered at once, before any query.
pub open spec fn term_start(echo: QueryEchoView, limit: Option<i64>) -> (TermLookupView, TermStepView) {
    if !key_is_valid(echo.term) {
        term_done(Err(ApiError::InvalidKey))
    } else if echo.domain matches Some(d) && !key_is_valid(d) {
        term_done(Err(ApiError::InvalidKey))
    } else if !limit_is_valid(requested_limit(limit)) {
        term_done(Err(ApiError::InvalidLimit))
    } else {
        term_ask(
            TermLookupView::AwaitingSourceTerms { echo },
            TermDbQueryView::SourceTerms {
                lang: echo.lang,
                key: echo.term,
                limit: requested_limit(limit),
            },
        )
    }
}

/// The next state and step of a term lookup, given the database's
/// reply. No source terms, or no pairs, answer with no matches; the domain
/// links are asked for only when some target term was found. A failed query,
/// or a reply of another kind than awaited, is answered with `DbError`.
pub open spec fn term_resume(state: TermLookupView, reply: TermReplyView) -> (
    TermLookupView,
    TermStepView,
) {
    match (state, reply) {
        (TermLookupView::AwaitingSourceTerms { echo }, TermReplyView::Terms(found)) =>
            if found.len() == 0 {
            term_done(answer(echo, Seq::empty()))
        } else {
            term_ask(
                TermLookupView::AwaitingPairs { echo },
                TermDbQueryView::PairsBySourceIds {
                    source_is_en: echo.lang == "en"@,
                    ids_json: json_string_array(term_ids(found)),
                },
            )
        },
        (TermLookupView::AwaitingPairs { echo }, TermReplyView::Pairs(pairs)) => if pairs.len()
            == 0 {
            term_done(answer(echo, Seq::empty()))
        } else {
            let target_ids = json_string_array(first_ids(pairs));
            term_ask(
                TermLookupView::AwaitingTargetTerms {
                    echo,
                    pairs,
                    target_ids,
                    source_ids: json_string_array(second_ids(pairs)),
                },
                TermDbQueryView::TermsByIds { ids_json: target_ids },
            )
        },
        (
            TermLookupView::AwaitingTargetTerms { echo, pairs, target_ids, source_ids },
            TermReplyView::Terms(targets),
        ) => if targets.len() == 0 {
            term_ask(
                TermLookupView::AwaitingSourceRows { echo, pairs, targets, links: Seq::empty() },
                TermDbQueryView::TermsByIds { ids_json: source_ids },
            )
        } else {
            term_ask(
                TermLookupView::AwaitingDomainLinks { echo, pairs, targets, source_ids },
                TermDbQueryView::DomainLinks { ids_json: target_ids, domain: echo.domain },
            )
        },
        (
            TermLookupView::AwaitingDomainLinks { echo, pairs, targets, source_ids },
            TermReplyView::Pairs(links),
        ) => term_ask(
            TermLookupView::AwaitingSourceRows { echo, pairs, targets, links },
            TermDbQueryView::TermsByIds { ids_json: source_ids },
        ),
        (
            TermLookupView::AwaitingSourceRows { echo, pairs, targets, links },
            TermReplyView::Terms(sources),
        ) => term_done(
            answer(
                echo,
                term_pairs_from(pairs, targets, sources, links, echo.domain, Seq::empty()),
            ),
        ),
        _ => term_done(Err(ApiError::DbError)),
    }
}

fn no_matches(echo: QueryEcho) -> (r: TermQueryResponse)
    ensures
        r@ == (TermQueryResponseView { query: echo@, matches: Seq::empty() }),
{
    let matches: Vec<TermPairPayload> = Vec::new();
    assert(pair_views(matches@) =~= Seq::<TermPairView>::empty());
    TermQueryResponse { query: echo, matches }
}

impl TermLookup {
    /// Starts a term lookup of `term` from `lang`.
    pub fn start(lang: &String, term: &String, domain: &Option<String>, limit: Option<i64>) -> (r: (
        TermLookup,
        TermStep,
    ))
        ensures
            (r.0@, r.1@) == term_start((QueryEchoView { term: term@, lang: lang@, domain: opt_view(*domain) }), limit),
    {
        if let Err(e) = validate_key(term.as_str()) {
            return (TermLookup::Finished, TermStep::Done(Err(e)));
        }
        if let Some(d) = domain {
            if let Err(e) = validate_key(d.as_str()) {
                return (TermLookup::Finished, TermStep::Done(Err(e)));
            }
        }
        let n = match sanitize_limit(limit) {
            Ok(n) => n,
            Err(e) => {
                return (TermLookup::Finished, TermStep::Done(Err(e)));
            },
        };
        let echo = QueryEcho { term: term.clone(), lang: lang.clone(), domain: copy_opt_string(domain) };
        let q = TermDbQuery::SourceTerms { lang: lang.clone(), key: term.clone(), limit: n };
        (TermLookup::AwaitingSourceTerms { echo }, TermStep::Query(q))
    }

    /// Takes the database's reply to the last query and says what comes next.
    pub fn resume(self, reply: TermReply) -> (r: (TermLookup, TermStep))
        ensures
            (r.0@, r.1@) == term_resume(self@, reply@),
    {
        match (self, reply) {
            (TermLookup::AwaitingSourceTerms { echo }, TermReply::Terms(found)) => {
                if found.len() == 0 {
                    return (TermLookup::Finished, TermStep::Done(Ok(no_matches(echo))));
                }
                let source_is_en = echo.lang == String::from_str("en");
                let q = TermDbQuery::PairsBySourceIds { source_is_en, ids_json: term_ids_json(&found) };
                (TermLookup::AwaitingPairs { echo }, TermStep::Query(q))
            },
            (TermLookup::AwaitingPairs { echo }, TermReply::Pairs(pairs)) => {
                if pairs.len() == 0 {
                    return (TermLookup::Finished, TermStep::Done(Ok(no_matches(echo))));
                }
                let target_ids = pair_ids_json(&pairs, true);
                let source_ids = pair_ids_json(&pairs, false);
                let q = TermDbQuery::TermsByIds { ids_json: target_ids.clone() };
                (
                    TermLookup::AwaitingTargetTerms { echo, pairs, target_ids, source_ids },
                    TermStep::Query(q),
                )
            },
            (
                TermLookup::AwaitingTargetTerms { echo, pairs, target_ids, source_ids },
                TermReply::Terms(targets),
            ) => {
                if targets.len() == 0 {
                    let q = TermDbQuery::TermsByIds { ids_json: source_ids };
                    (
                        TermLookup::AwaitingSourceRows { echo, pairs, targets, links: Vec::new() },
                        TermStep::Query(q),
                    )
                } else {
                    let q = TermDbQuery::DomainLinks {
                        ids_json: target_ids,
                        domain: copy_opt_string(&echo.domain),
                    };
                    (
                        TermLookup::AwaitingDomainLinks { echo, pairs, targets, source_ids },
                        TermStep::Query(q),
                    )
                }
            },
            (
                TermLookup::AwaitingDomainLinks { echo, pairs, targets, source_ids },
                TermReply::Pairs(links),
            ) => {
                let q = TermDbQuery::TermsByIds { ids_json: source_ids };
                (TermLookup::AwaitingSourceRows { echo, pairs, targets, links }, TermStep::Query(q))
            },
            (
                TermLookup::AwaitingSourceRows { echo, pairs, targets, links },
                TermReply::Terms(sources),
            ) => {
                let matches = assemble_term_pairs(&pairs, &targets, &sources, &links, &echo.domain);
                (TermLookup::Finished, TermStep::Done(Ok(TermQueryResponse { query: echo, matches })))
            },
            _ => (TermLookup::Finished, TermStep::Done(Err(ApiError::DbError))),
        }
    }
}


/// `GET /term/en2ga`: starts the lookup of an English term's Irish
/// equivalents.
pub fn en2ga(q: &TermQuery) -> (r: (TermLookup, TermStep))
    ensures
        (r.0@, r.1@) == term_start((QueryEchoView { term: q.term@, lang: "en"@, domain: opt_view(q.domain) }), q.limit),
{
    TermLookup::start(&String::from_str("en"), &q.term, &q.domain, q.limit)
}

/// `GET /term/ga2en`: starts the lookup of an Irish term's English
/// equivalents.
pub fn ga2en(q: &TermQuery) -> (r: (TermLookup, TermStep))
    ensures
        (r.0@, r.1@) == term_start((QueryEchoView { term: q.term@, lang: "ga"@, domain: opt_view(q.domain) }), q.limit),
{
    TermLookup::start(&String::from_str("ga"), &q.term, &q.domain, q.limit)
}


/// Whether one of the pair's two terms is linked to a label that answers
/// the domain.
pub open spec fn pair_linked_to(links: Seq<(String, String)>, p: TermPairView, domain: Seq<char>) -> bool {
    exists|j: int|
        0 <= j < links.len() && ((#[trigger] links[j]).0@ == p.ga.term_id@ || links[j].0@ == p.en.term_id@)
            && label_answers(links[j].1@, domain)
}

/// No more term pairs than id pairs; no English side has domains; with
/// a domain asked for, one of every pair's terms is linked to a label that
/// answers it.
pub proof fn lemma_term_pairs_shape(
    pairs: Seq<(String, String)>,
    targets: Seq<TermRow>,
    sources: Seq<TermRow>,
    links: Seq<(String, String)>,
    domain: Option<Seq<char>>,
    handed_out: Seq<Seq<char>>,
)
    ensures
        ({
            let r = term_pairs_from(pairs, targets, sources, links, domain, handed_out);
            &&& r.len() <= pairs.len()
            &&& forall|k: int| 0 <= k < r.len() ==> (#[trigger] r[k]).en.domains.len() == 0
            &&& domain matches Some(d) ==> forall|k: int| 0 <= k < r.len() ==> pair_linked_to(links, #[trigger] r[k], d)
        }),
    decreases pairs.len(),
{
    if pairs.len() > 0 {
        let rest = pairs.skip(1);
        lemma_term_pairs_shape(rest, targets, sources, links, domain, handed_out);
        match (last_with_key(targets, pairs[0].0@), last_with_key(sources, pairs[0].1@)) {
            (Some(t), Some(s)) => {
                let ga = if t.lang@ == "ga"@ { t } else { s };
                let en = if t.lang@ == "ga"@ { s } else { t };
                lemma_term_pairs_shape(rest, targets, sources, links, domain, handed_out.push(ga.id@));
                if let Some(d) = domain {
                    let tl = labels_left(links, handed_out, t.id@);
                    if some_label_answers(tl, d) {
                        let m = choose|m: int| 0 <= m < tl.len() && label_answers((#[trigger] tl[m])@, d);
                        let group = with_key(links, t.id@);
                        crate::rows::lemma_with_key_members(links, t.id@);
                        assert(tl == seconds(group));
                        assert(group[m].key() == t.id@);
                        assert(links.contains(group[m]));
                        let j = choose|j: int| 0 <= j < links.len() && links[j] == group[m];
                        let p = TermPairView { ga: side_of(ga, labels_left(links, handed_out, ga.id@)), en: side_of(en, Seq::empty()) };
                        assert(pair_linked_to(links, p, d)) by {
                            assert(links[j].0@ == t.id@);
                            assert(links[j].1 == tl[m]);
                        }
                        let r = term_pairs_from(pairs, targets, sources, links, domain, handed_out);
                        let r2 = term_pairs_from(rest, targets, sources, links, domain, handed_out.push(ga.id@));
                        assert(r == seq![p] + r2);
                        assert forall|k: int| 0 <= k < r.len() implies pair_linked_to(links, #[trigger] r[k], d) by {
                            if k == 0 {
                                assert(r[0] == p);
                            } else {
                                assert(r[k] == r2[k - 1]);
                            }
                        }
                    }
                }
            },
            _ => {},
        }
    }
}


/// The (Irish, English) term ids of term pairs, in order.
pub open spec fn pair_ids(r: Seq<TermPairView>) -> Seq<(Seq<char>, Seq<char>)> {
    r.map_values(|p: TermPairView| (p.ga.term_id@, p.en.term_id@))
}

/// Accepts every target row.
pub open spec fn any_target() -> spec_fn(TermRow) -> bool {
    |t: TermRow| true
}

/// Accepts a target row when one of its domain labels among `links` answers
/// `domain`.
pub open spec fn target_answers(links: Seq<(String, String)>, domain: Seq<char>) -> spec_fn(TermRow) -> bool {
    |t: TermRow| some_label_answers(seconds(with_key(links, t.id@)), domain)
}

/// The (Irish, English) ids of the pairs of ids, in order, whose two rows
/// were found and whose target row `keep` accepts.
pub open spec fn kept_pair_ids(
    pairs: Seq<(String, String)>,
    targets: Seq<TermRow>,
    sources: Seq<TermRow>,
    keep: spec_fn(TermRow) -> bool,
) -> Seq<(Seq<char>, Seq<char>)>
    decreases pairs.len(),
{
    if pairs.len() == 0 {
        Seq::empty()
    } else {
        let rest = kept_pair_ids(pairs.skip(1), targets, sources, keep);
        match (last_with_key(targets, pairs[0].0@), last_with_key(sources, pairs[0].1@)) {
            (Some(t), Some(s)) => if keep(t) {
                if t.lang@ == "ga"@ {
                    seq![(t.id@, s.id@)] + rest
                } else {
                    seq![(s.id@, t.id@)] + rest
                }
            } else {
                rest
            },
            _ => rest,
        }
    }
}

/// The Irish id of a pair of ids whose two rows were found and whose target
/// row `keep` accepts; none for another pair.
pub open spec fn kept_irish_id(
    pair: (String, String),
    targets: Seq<TermRow>,
    sources: Seq<TermRow>,
    keep: spec_fn(TermRow) -> bool,
) -> Option<Seq<char>> {
    match (last_with_key(targets, pair.0@), last_with_key(sources, pair.1@)) {
        (Some(t), Some(s)) => if keep(t) {
            Some(
                if t.lang@ == "ga"@ {
                    t.id@
                } else {
                    s.id@
                },
            )
        } else {
            None
        },
        _ => None,
    }
}

/// No pair that `keep` accepts has as its target the Irish term of an
/// earlier pair that `keep` accepts.
pub open spec fn no_kept_target_is_earlier_irish(
    pairs: Seq<(String, String)>,
    targets: Seq<TermRow>,
    sources: Seq<TermRow>,
    keep: spec_fn(TermRow) -> bool,
) -> bool {
    forall|i: int, j: int|
        0 <= i < j < pairs.len() && (#[trigger] kept_irish_id(pairs[i], targets, sources, keep)) is Some
            && (#[trigger] kept_irish_id(pairs[j], targets, sources, keep)) is Some
            ==> kept_irish_id(pairs[i], targets, sources, keep) != Some(pairs[j].0@)
}

/// Without a domain, every pair whose two rows were found is kept, whatever
/// Irish terms had their labels already.
pub proof fn lemma_plain_pair_ids(
    pairs: Seq<(String, String)>,
    targets: Seq<TermRow>,
    sources: Seq<TermRow>,
    links: Seq<(String, String)>,
    handed_out: Seq<Seq<char>>,
)
    ensures
        pair_ids(term_pairs_from(pairs, targets, sources, links, None, handed_out))
            == kept_pair_ids(pairs, targets, sources, any_target()),
    decreases pairs.len(),
{
    if pairs.len() > 0 {
        let rest = pairs.skip(1);
        lemma_plain_pair_ids(rest, targets, sources, links, handed_out);
        match (last_with_key(targets, pairs[0].0@), last_with_key(sources, pairs[0].1@)) {
            (Some(t), Some(s)) => {
                let ga = if t.lang@ == "ga"@ { t } else { s };
                let en = if t.lang@ == "ga"@ { s } else { t };
                lemma_plain_pair_ids(rest, targets, sources, links, handed_out.push(ga.id@));
                let p = TermPairView { ga: side_of(ga, labels_left(links, handed_out, ga.id@)), en: side_of(en, Seq::empty()) };
                let r2 = term_pairs_from(rest, targets, sources, links, None, handed_out.push(ga.id@));
                assert(term_pairs_from(pairs, targets, sources, links, None, handed_out) == seq![p] + r2);
                assert(pair_ids(seq![p] + r2) =~= seq![(ga.id@, en.id@)] + pair_ids(r2));
            },
            _ => {},
        }
    }
}

/// With a domain, the pairs kept are those whose target row answers it, as
/// long as no such target is the Irish term of an earlier such pair and none
/// is among the Irish terms that had their labels already.
pub proof fn lemma_domain_pair_ids(
    pairs: Seq<(String, String)>,
    targets: Seq<TermRow>,
    sources: Seq<TermRow>,
    links: Seq<(String, String)>,
    domain: Seq<char>,
    handed_out: Seq<Seq<char>>,
)
    requires
        no_kept_target_is_earlier_irish(pairs, targets, sources, target_answers(links, domain)),
        forall|j: int|
            0 <= j < pairs.len() && (#[trigger] kept_irish_id(pairs[j], targets, sources, target_answers(links, domain))) is Some
                ==> !handed_out.contains(pairs[j].0@),
    ensures
        pair_ids(term_pairs_from(pairs, targets, sources, links, Some(domain), handed_out))
            == kept_pair_ids(pairs, targets, sources, target_answers(links, domain)),
    decreases pairs.len(),
{
    if pairs.len() > 0 {
        let keep = target_answers(links, domain);
        let rest = pairs.skip(1);
        assert forall|i: int, j: int|
            0 <= i < j < rest.len() && (#[trigger] kept_irish_id(rest[i], targets, sources, keep)) is Some
                && (#[trigger] kept_irish_id(rest[j], targets, sources, keep)) is Some
            implies kept_irish_id(rest[i], targets, sources, keep) != Some(rest[j].0@) by {
            assert(rest[i] == pairs[i + 1] && rest[j] == pairs[j + 1]);
            assert(kept_irish_id(pairs[i + 1], targets, sources, keep) is Some);
            assert(kept_irish_id(pairs[j + 1], targets, sources, keep) is Some);
        }
        match (last_with_key(targets, pairs[0].0@), last_with_key(sources, pairs[0].1@)) {
            (Some(t), Some(s)) => {
                let ga = if t.lang@ == "ga"@ { t } else { s };
                let en = if t.lang@ == "ga"@ { s } else { t };
                crate::rows::lemma_last_with_key_member(targets, pairs[0].0@);
                assert(t.id@ == pairs[0].0@);
                if keep(t) {
                    assert(kept_irish_id(pairs[0], targets, sources, keep) == Some(ga.id@));
                    assert(!handed_out.contains(t.id@));
                    assert(labels_left(links, handed_out, t.id@) == seconds(with_key(links, t.id@)));
                    let h2 = handed_out.push(ga.id@);
                    assert forall|j: int|
                        0 <= j < rest.len() && (#[trigger] kept_irish_id(rest[j], targets, sources, keep)) is Some
                        implies !h2.contains(rest[j].0@) by {
                        assert(rest[j] == pairs[j + 1]);
                        assert(kept_irish_id(pairs[j + 1], targets, sources, keep) is Some);
                        assert(kept_irish_id(pairs[0], targets, sources, keep) != Some(pairs[j + 1].0@));
                        assert(!handed_out.contains(pairs[j + 1].0@));
                        if h2.contains(rest[j].0@) {
                            let m = choose|m: int| 0 <= m < h2.len() && h2[m] == rest[j].0@;
                            if m < handed_out.len() {
                                assert(handed_out[m] == h2[m]);
                            }
                        }
                    }
                    lemma_domain_pair_ids(rest, targets, sources, links, domain, h2);
                    let p = TermPairView { ga: side_of(ga, labels_left(links, handed_out, ga.id@)), en: side_of(en, Seq::empty()) };
                    let r2 = term_pairs_from(rest, targets, sources, links, Some(domain), h2);
                    assert(term_pairs_from(pairs, targets, sources, links, Some(domain), handed_out) == seq![p] + r2);
                    assert(pair_ids(seq![p] + r2) =~= seq![(ga.id@, en.id@)] + pair_ids(r2));
                } else {
                    assert(!some_label_answers(labels_left(links, handed_out, t.id@), domain));
                    assert forall|j: int|
                        0 <= j < rest.len() && (#[trigger] kept_irish_id(rest[j], targets, sources, keep)) is Some
                        implies !handed_out.contains(rest[j].0@) by {
                        assert(rest[j] == pairs[j + 1]);
                        assert(kept_irish_id(pairs[j + 1], targets, sources, keep) is Some);
                    }
                    lemma_domain_pair_ids(rest, targets, sources, links, domain, handed_out);
                }
            },
            _ => {
                assert forall|j: int|
                    0 <= j < rest.len() && (#[trigger] kept_irish_id(rest[j], targets, sources, keep)) is Some
                    implies !handed_out.contains(rest[j].0@) by {
                    assert(rest[j] == pairs[j + 1]);
                    assert(kept_irish_id(pairs[j + 1], targets, sources, keep) is Some);
                }
                lemma_domain_pair_ids(rest, targets, sources, links, domain, handed_out);
            },
        }
    }
}


/// Whether a side of a term pair holds the fields of a term row: its id,
/// its stored term, its part of speech and its source.
pub open spec fn side_copies_row(side: TermSideView, row: TermRow) -> bool {
    &&& side.term_id == row.id
    &&& side.term == row.term
    &&& side.pos == row.pos
    &&& side.source_id == row.source_id
}

/// Whether a term pair is made of the rows found for the pair of ids `ids`:
/// the target row, found among `targets` by the first id, and the source row,
/// found among `sources` by the second; the one in Irish is the Irish side,
/// the other the English side, and the English side has no domains.
pub open spec fn pair_made_of_rows(
    p: TermPairView,
    ids: (String, String),
    targets: Seq<TermRow>,
    sources: Seq<TermRow>,
) -> bool {
    &&& last_with_key(targets, ids.0@) is Some
    &&& last_with_key(sources, ids.1@) is Some
    &&& {
        let target = last_with_key(targets, ids.0@)->Some_0;
        let source = last_with_key(sources, ids.1@)->Some_0;
        &&& targets.contains(target) && target.id@ == ids.0@
        &&& sources.contains(source) && source.id@ == ids.1@
        &&& if target.lang@ == "ga"@ {
            side_copies_row(p.ga, target) && side_copies_row(p.en, source)
        } else {
            side_copies_row(p.ga, source) && side_copies_row(p.en, target)
        }
        &&& p.en.domains.len() == 0
    }
}

/// The domain labels of a term among the links: the label of each link
/// whose term id is `id`, in the order of the links.
pub open spec fn labels_of(links: Seq<(String, String)>, id: Seq<char>) -> Seq<String> {
    links.filter(link_of(id)).map_values(|l: (String, String)| l.1)
}

/// Whether a (term id, label) link is one of the term `id`.
pub open spec fn link_of(id: Seq<char>) -> spec_fn((String, String)) -> bool {
    |l: (String, String)| l.0@ == id
}

/// Whether an earlier term pair of `r` than pair `k` has the same Irish term.
pub open spec fn irish_term_seen_before(r: Seq<TermPairView>, k: int) -> bool {
    exists|m: int| 0 <= m < k && (#[trigger] r[m]).ga.term_id@ == r[k].ga.term_id@
}

/// The labels still to be handed out of a term are all its labels among the
/// links, or none once handed out.
pub proof fn lemma_labels_left_are_labels_of(links: Seq<(String, String)>, handed_out: Seq<Seq<char>>, id: Seq<char>)
    ensures
        labels_left(links, handed_out, id) == if handed_out.contains(id) {
            Seq::<String>::empty()
        } else {
            labels_of(links, id)
        },
{
    crate::rows::lemma_with_key_is_filter(links, id, link_of(id));
    assert(seconds(links.filter(link_of(id))) =~= labels_of(links, id));
}

/// The Irish side of a term pair gets its term's labels unless its term had
/// them already: from `handed_out`, or in an earlier pair.
pub proof fn lemma_irish_domains(
    pairs: Seq<(String, String)>,
    targets: Seq<TermRow>,
    sources: Seq<TermRow>,
    links: Seq<(String, String)>,
    domain: Option<Seq<char>>,
    handed_out: Seq<Seq<char>>,
    k: int,
)
    requires
        0 <= k < term_pairs_from(pairs, targets, sources, links, domain, handed_out).len(),
    ensures
        ({
            let r = term_pairs_from(pairs, targets, sources, links, domain, handed_out);
            r[k].ga.domains == if handed_out.contains(r[k].ga.term_id@) || irish_term_seen_before(r, k) {
                Seq::<String>::empty()
            } else {
                labels_of(links, r[k].ga.term_id@)
            }
        }),
    decreases pairs.len(),
{
    let rest = pairs.skip(1);
    let r = term_pairs_from(pairs, targets, sources, links, domain, handed_out);
    match (last_with_key(targets, pairs[0].0@), last_with_key(sources, pairs[0].1@)) {
        (Some(t), Some(s)) => {
            let ga = if t.lang@ == "ga"@ { t } else { s };
            let en = if t.lang@ == "ga"@ { s } else { t };
            if domain matches Some(d) && !some_label_answers(labels_left(links, handed_out, t.id@), d) {
                lemma_irish_domains(rest, targets, sources, links, domain, handed_out, k);
                assert(r == term_pairs_from(rest, targets, sources, links, domain, handed_out));
            } else {
                let h2 = handed_out.push(ga.id@);
                let p = TermPairView { ga: side_of(ga, labels_left(links, handed_out, ga.id@)), en: side_of(en, Seq::empty()) };
                let r2 = term_pairs_from(rest, targets, sources, links, domain, h2);
                assert(r == seq![p] + r2);
                if k == 0 {
                    assert(r[0] == p);
                    lemma_labels_left_are_labels_of(links, handed_out, ga.id@);
                    assert(!irish_term_seen_before(r, 0));
                } else {
                    lemma_irish_domains(rest, targets, sources, links, domain, h2, k - 1);
                    assert(r[k] == r2[k - 1]);
                    let id = r[k].ga.term_id@;
                    assert(r[0] == p);
                    if irish_term_seen_before(r2, k - 1) {
                        let m = choose|m: int| 0 <= m < k - 1 && (#[trigger] r2[m]).ga.term_id@ == r2[k - 1].ga.term_id@;
                        assert(r[m + 1] == r2[m]);
                        assert(irish_term_seen_before(r, k));
                    }
                    if h2.contains(id) {
                        let m = choose|m: int| 0 <= m < h2.len() && h2[m] == id;
                        if m == handed_out.len() {
                            assert(r[0].ga.term_id@ == id);
                            assert(irish_term_seen_before(r, k));
                        } else {
                            assert(handed_out[m] == id);
                        }
                    }
                    if handed_out.contains(id) {
                        let m = choose|m: int| 0 <= m < handed_out.len() && handed_out[m] == id;
                        assert(h2[m] == id);
                    }
                    if irish_term_seen_before(r, k) {
                        let m = choose|m: int| 0 <= m < k && (#[trigger] r[m]).ga.term_id@ == r[k].ga.term_id@;
                        if m == 0 {
                            assert(h2[handed_out.len() as int] == id);
                        } else {
                            assert(r2[m - 1] == r[m]);
                            assert(irish_term_seen_before(r2, k - 1));
                        }
                    }
                }
            }
        },
        _ => {
            lemma_irish_domains(rest, targets, sources, links, domain, handed_out, k);
            assert(r == term_pairs_from(rest, targets, sources, links, domain, handed_out));
        },
    }
}

/// The position of the pair of ids that term pair `k` is made of.
pub proof fn lemma_pair_made_of_rows_at(
    pairs: Seq<(String, String)>,
    targets: Seq<TermRow>,
    sources: Seq<TermRow>,
    links: Seq<(String, String)>,
    domain: Option<Seq<char>>,
    handed_out: Seq<Seq<char>>,
    k: int,
) -> (j: int)
    requires
        0 <= k < term_pairs_from(pairs, targets, sources, links, domain, handed_out).len(),
    ensures
        0 <= j < pairs.len(),
        pair_made_of_rows(term_pairs_from(pairs, targets, sources, links, domain, handed_out)[k], pairs[j], targets, sources),
    decreases pairs.len(),
{
    let rest = pairs.skip(1);
    let r = term_pairs_from(pairs, targets, sources, links, domain, handed_out);
    match (last_with_key(targets, pairs[0].0@), last_with_key(sources, pairs[0].1@)) {
        (Some(t), Some(s)) => {
            let ga = if t.lang@ == "ga"@ { t } else { s };
            let en = if t.lang@ == "ga"@ { s } else { t };
            if domain matches Some(d) && !some_label_answers(labels_left(links, handed_out, t.id@), d) {
                let j = lemma_pair_made_of_rows_at(rest, targets, sources, links, domain, handed_out, k);
                assert(rest[j] == pairs[j + 1]);
                j + 1
            } else {
                let h2 = handed_out.push(ga.id@);
                let p = TermPairView { ga: side_of(ga, labels_left(links, handed_out, ga.id@)), en: side_of(en, Seq::empty()) };
                let r2 = term_pairs_from(rest, targets, sources, links, domain, h2);
                assert(r == seq![p] + r2);
                if k == 0 {
                    crate::rows::lemma_last_with_key_member(targets, pairs[0].0@);
                    crate::rows::lemma_last_with_key_member(sources, pairs[0].1@);
                    assert(r[0] == p);
                    0
                } else {
                    assert(r[k] == r2[k - 1]);
                    let j = lemma_pair_made_of_rows_at(rest, targets, sources, links, domain, h2, k - 1);
                    assert(rest[j] == pairs[j + 1]);
                    j + 1
                }
            }
        },
        _ => {
            let j = lemma_pair_made_of_rows_at(rest, targets, sources, links, domain, handed_out, k);
            assert(rest[j] == pairs[j + 1]);
            j + 1
        },
    }
}

/// The state and step of a term lookup that started at `start` and was given
/// `replies` in turn; replies that come after its answer are not read.
pub open spec fn term_feed(start: (TermLookupView, TermStepView), replies: Seq<TermReplyView>) -> (
    TermLookupView,
    TermStepView,
)
    decreases replies.len(),
{
    if replies.len() == 0 {
        start
    } else {
        let prev = term_feed(start, replies.drop_last());
        if prev.1 is Query {
            term_resume(prev.0, replies.last())
        } else {
            prev
        }
    }
}

/// Giving one more reply to a lookup that waits for one resumes it.
pub proof fn lemma_term_feed_push(
    start: (TermLookupView, TermStepView),
    replies: Seq<TermReplyView>,
    reply: TermReplyView,
)
    requires
        term_feed(start, replies).1 is Query,
    ensures
        term_feed(start, replies.push(reply)) == term_resume(term_feed(start, replies).0, reply),
{
    assert(replies.push(reply).drop_last() =~= replies);
}

/// Whether the lookup of `echo` with `limit`, given some replies, comes to
/// wait in `state`.
pub open spec fn single_lookup_reaches(echo: QueryEchoView, limit: Option<i64>, state: TermLookupView) -> bool {
    exists|replies: Seq<TermReplyView>|
        (#[trigger] term_feed(term_start(echo, limit), replies)).0 == state && term_feed(
            term_start(echo, limit),
            replies,
        ).1 is Query
}

/// Whether the lookup of `echo` with `limit`, given some replies, answers
/// with `response`.
pub open spec fn single_lookup_answers(echo: QueryEchoView, limit: Option<i64>, response: TermQueryResponseView) -> bool {
    exists|replies: Seq<TermReplyView>|
        (#[trigger] term_feed(term_start(echo, limit), replies)).1 == TermStepView::Done(Ok(response))
}

} // verus!
