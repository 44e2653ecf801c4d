use vstd::prelude::*;
use crate::error::ApiError;
use crate::models::term::{QueryEchoView, TermQueryResponse, TermQueryResponseView, opt_view, response_views};
use crate::routes::params::{key_is_valid, lang_is_known, limit_is_valid, requested_limit, sanitize_limit, validate_key, validate_lang};
use crate::routes::term::{
    TermDbQuery, TermDbQueryView, TermLookup, TermLookupView, TermReply, TermReplyView, TermStep,
    TermStepView, lemma_term_feed_push, single_lookup_answers, single_lookup_reaches, term_feed,
    term_resume, term_start,
};
use crate::text::{copy_opt_string, copy_strings, string_views};

verus! {

/// `POST /term/batch`: term lookups of several terms from one language.
#[derive(Clone, Debug)]
pub struct BatchBody {
    pub lang: String,
    pub terms: Vec<String>,
    pub domain: Option<String>,
    pub limit: Option<i64>,
}

/// A batch of term lookups between its queries; `next` is the position
/// of the term after the one that `current` looks up.
pub struct TermBatchRun {
    pub lang: String,
    pub terms: Vec<String>,
    pub domain: Option<String>,
    pub limit: Option<i64>,
    pub next: usize,
    pub current: TermLookup,
    pub results: Vec<TermQueryResponse>,
}

pub struct TermBatchRunView {
    pub lang: Seq<char>,
    pub terms: Seq<Seq<char>>,
    pub domain: Option<Seq<char>>,
    pub limit: Option<i64>,
    pub next: int,
    pub current: TermLookupView,
    pub results: Seq<TermQueryResponseView>,
}

impl View for TermBatchRun {
    type V = TermBatchRunView;

    open spec fn view(&self) -> TermBatchRunView {
        TermBatchRunView {
            lang: self.lang@,
            terms: string_views(self.terms@),
            domain: opt_view(self.domain),
            limit: self.limit,
            next: self.next as int,
            current: self.current@,
            results: response_views(self.results@),
        }
    }
}

pub enum TermBatch {
    Running(TermBatchRun),
    Finished,
}

pub enum TermBatchView {
    Running(TermBatchRunView),
    Finished,
}

impl View for TermBatch {
    type V = TermBatchView;

    open spec fn view(&self) -> TermBatchView {
        match self {
            TermBatch::Running(run) => TermBatchView::Running(run@),
            TermBatch::Finished => TermBatchView::Finished,
        }
    }
}

/// What a batch does next: run a query, or answer.
pub enum TermBatchStep {
    Query(TermDbQuery),
    Done(Result<Vec<TermQueryResponse>, ApiError>),
}

pub enum TermBatchStepView {
    Query(TermDbQueryView),
    Done(Result<Seq<TermQueryResponseView>, ApiError>),
}

impl View for TermBatchStep {
    type V = TermBatchStepView;

    open spec fn view(&self) -> TermBatchStepView {
        match self {
            TermBatchStep::Query(q) => TermBatchStepView::Query(q@),
            TermBatchStep::Done(Ok(rs)) => TermBatchStepView::Done(Ok(response_views(rs@))),
            TermBatchStep::Done(Err(e)) => TermBatchStepView::Done(Err(*e)),
        }
    }
}

pub open spec fn term_batch_done(r: Result<Seq<TermQueryResponseView>, ApiError>) -> (
    TermBatchView,
    TermBatchStepView,
) {
    (TermBatchView::Finished, TermBatchStepView::Done(r))
}

/// Goes on with the next term, or answers with all responses once the terms
/// are done. A term whose lookup is refused at its start ends the batch with
/// that error.
pub open spec fn term_batch_continue(run: TermBatchRunView) -> (TermBatchView, TermBatchStepView) {
    if run.next >= run.terms.len() {
        term_batch_done(Ok(run.results))
    } else {
        let echo = QueryEchoView { term: run.terms[run.next], lang: run.lang, domain: run.domain };
        let (lookup, step) = term_start(echo, run.limit);
        match step {
            TermStepView::Query(q) => (
                TermBatchView::Running(
                    TermBatchRunView { next: run.next + 1, current: lookup, ..run },
                ),
                TermBatchStepView::Query(q),
            ),
            TermStepView::Done(r) => term_batch_done(Err(r->Err_0)),
        }
    }
}

/// The start of a batch: the language is checked first. Each term's lookup
/// then checks the term, the domain and the limit in that order, as a single
/// lookup does, and the batch stops at the first that is refused. A batch
/// without terms still has its domain and its limit checked.
pub open spec fn term_batch_start(body: BatchBody) -> (TermBatchView, TermBatchStepView) {
    if !lang_is_known(body.lang@) {
        term_batch_done(Err(ApiError::InvalidLang))
    } else if body.terms@.len() == 0 {
        if body.domain matches Some(d) && !key_is_valid(d@) {
            term_batch_done(Err(ApiError::InvalidKey))
        } else if !limit_is_valid(requested_limit(body.limit)) {
            term_batch_done(Err(ApiError::InvalidLimit))
        } else {
            term_batch_done(Ok(Seq::empty()))
        }
    } else {
        term_batch_continue(
            TermBatchRunView {
                lang: body.lang@,
                terms: string_views(body.terms@),
                domain: opt_view(body.domain),
                limit: body.limit,
                next: 0,
                current: TermLookupView::Finished,
                results: Seq::empty(),
            },
        )
    }
}

/// The next state and step of a batch, given the database's reply: the reply
/// goes to the current lookup; its error ends the batch, its response is
/// added to the others.
pub open spec fn term_batch_resume(batch: TermBatchView, reply: TermReplyView) -> (
    TermBatchView,
    TermBatchStepView,
) {
    match batch {
        TermBatchView::Finished => term_batch_done(Err(ApiError::DbError)),
        TermBatchView::Running(run) => {
            let (lookup, step) = term_resume(run.current, reply);
            match step {
                TermStepView::Query(q) => (
                    TermBatchView::Running(TermBatchRunView { current: lookup, ..run }),
                    TermBatchStepView::Query(q),
                ),
                TermStepView::Done(Err(e)) => term_batch_done(Err(e)),
                TermStepView::Done(Ok(response)) => term_batch_continue(
                    TermBatchRunView { results: run.results.push(response), current: lookup, ..run },
                ),
            }
        },
    }
}

impl TermBatch {
    fn continue_with(run: TermBatchRun) -> (r: (TermBatch, TermBatchStep))
        ensures
            (r.0@, r.1@) == term_batch_continue(run@),
    {
        if run.next >= run.terms.len() {
            return (TermBatch::Finished, TermBatchStep::Done(Ok(run.results)));
        }
        let (lookup, step) = TermLookup::start(&run.lang, &run.terms[run.next], &run.domain, run.limit);
        match step {
            TermStep::Query(q) => {
                let next = run.next + 1;
                (TermBatch::Running(TermBatchRun { next, current: lookup, ..run }), TermBatchStep::Query(q))
            },
            TermStep::Done(Err(e)) => (TermBatch::Finished, TermBatchStep::Done(Err(e))),
            TermStep::Done(Ok(_)) => {
                proof {
                    assert(false);
                }
                (TermBatch::Finished, TermBatchStep::Done(Err(ApiError::DbError)))
            },
        }
    }

    /// Takes the database's reply to the last query and says what comes next.
    pub fn resume(self, reply: TermReply) -> (r: (TermBatch, TermBatchStep))
        ensures
            (r.0@, r.1@) == term_batch_resume(self@, reply@),
    {
        match self {
            TermBatch::Finished => (TermBatch::Finished, TermBatchStep::Done(Err(ApiError::DbError))),
            TermBatch::Running(run) => {
                let TermBatchRun { lang, terms, domain, limit, next, current, results } = run;
                let (lookup, step) = current.resume(reply);
                match step {
                    TermStep::Query(q) => {
                        let run = TermBatchRun { lang, terms, domain, limit, next, current: lookup, results };
                        (TermBatch::Running(run), TermBatchStep::Query(q))
                    },
                    TermStep::Done(Err(e)) => (TermBatch::Finished, TermBatchStep::Done(Err(e))),
                    TermStep::Done(Ok(response)) => {
                        let mut results = results;
                        let ghost before = results@;
                        results.push(response);
                        assert(response_views(results@) =~= response_views(before).push(response@));
                        let run = TermBatchRun { lang, terms, domain, limit, next, current: lookup, results };
                        TermBatch::continue_with(run)
                    },
                }
            },
        }
    }
}

/// `POST /term/batch`: starts a batch.
pub fn batch(body: &BatchBody) -> (r: (TermBatch, TermBatchStep))
    ensures
        (r.0@, r.1@) == term_batch_start(*body),
{
    if let Err(e) = validate_lang(&body.lang) {
        return (TermBatch::Finished, TermBatchStep::Done(Err(e)));
    }
    if body.terms.len() == 0 {
        if let Some(d) = &body.domain {
            if let Err(e) = validate_key(d.as_str()) {
                return (TermBatch::Finished, TermBatchStep::Done(Err(e)));
            }
        }
        if let Err(e) = sanitize_limit(body.limit) {
            return (TermBatch::Finished, TermBatchStep::Done(Err(e)));
        }
        let none: Vec<TermQueryResponse> = Vec::new();
        assert(response_views(none@) =~= Seq::<TermQueryResponseView>::empty());
        return (TermBatch::Finished, TermBatchStep::Done(Ok(none)));
    }
    let results: Vec<TermQueryResponse> = Vec::new();
    assert(response_views(results@) =~= Seq::<TermQueryResponseView>::empty());
    let run = TermBatchRun {
        lang: body.lang.clone(),
        terms: copy_strings(&body.terms),
        domain: copy_opt_string(&body.domain),
        limit: body.limit,
        next: 0,
        current: TermLookup::Finished,
        results,
    };
    TermBatch::continue_with(run)
}


/// The echo of the query that a lookup answers, while it runs.
pub open spec fn lookup_echo(l: TermLookupView) -> Option<QueryEchoView> {
    match l {
        TermLookupView::AwaitingSourceTerms { echo } => Some(echo),
        TermLookupView::AwaitingPairs { echo } => Some(echo),
        TermLookupView::AwaitingTargetTerms { echo, .. } => Some(echo),
        TermLookupView::AwaitingDomainLinks { echo, .. } => Some(echo),
        TermLookupView::AwaitingSourceRows { echo, .. } => Some(echo),
        TermLookupView::Finished => None,
    }
}

/// The echo of the `k`th term of a batch.
pub open spec fn echo_at(run: TermBatchRunView, k: int) -> QueryEchoView {
    QueryEchoView { term: run.terms[k], lang: run.lang, domain: run.domain }
}

/// The responses so far answer the first terms, in order, each as the single
/// lookup of its term answers on the replies it was given; the current lookup
/// is the single lookup of the term after them, part way.
pub open spec fn term_batch_on_track(b: TermBatchView) -> bool {
    match b {
        TermBatchView::Finished => true,
        TermBatchView::Running(run) => {
            &&& 1 <= run.next <= run.terms.len()
            &&& run.results.len() == run.next - 1
            &&& forall|k: int| 0 <= k < run.results.len() ==> (#[trigger] run.results[k]).query == echo_at(run, k)
            &&& forall|k: int| 0 <= k < run.results.len() ==> single_lookup_answers(echo_at(run, k), run.limit, #[trigger] run.results[k])
            &&& lookup_echo(run.current) == Some(echo_at(run, run.next - 1))
            &&& single_lookup_reaches(echo_at(run, run.next - 1), run.limit, run.current)
        },
    }
}

/// A batch's answer holds one response per term, in order, each echoing its
/// term and each what the single lookup of that term (as `en2ga` or `ga2en`
/// starts it, with the batch's domain and limit) answers on the replies that
/// the batch handed to it.
pub open spec fn answers_every_term(run: TermBatchRunView, step: TermBatchStepView) -> bool {
    step matches TermBatchStepView::Done(Ok(rs)) ==> {
        &&& rs.len() == run.terms.len()
        &&& forall|k: int| 0 <= k < rs.len() ==> (#[trigger] rs[k]).query == echo_at(run, k)
        &&& forall|k: int| 0 <= k < rs.len() ==> single_lookup_answers(echo_at(run, k), run.limit, #[trigger] rs[k])
    }
}

proof fn lemma_term_start_echo(echo: QueryEchoView, limit: Option<i64>)
    ensures
        term_start(echo, limit).1 is Query ==> lookup_echo(term_start(echo, limit).0) == Some(echo),
        term_start(echo, limit).1 matches TermStepView::Done(r) ==> r is Err,
{
}

proof fn lemma_term_resume_echo(state: TermLookupView, reply: TermReplyView, echo: QueryEchoView)
    requires
        lookup_echo(state) == Some(echo),
    ensures
        term_resume(state, reply).1 is Query ==> lookup_echo(term_resume(state, reply).0) == Some(echo),
        term_resume(state, reply).1 matches TermStepView::Done(Ok(resp)) ==> resp.query == echo,
{
}

proof fn lemma_continue_on_track(run: TermBatchRunView)
    requires
        run.next <= run.terms.len(),
        run.results.len() == run.next,
        forall|k: int| 0 <= k < run.results.len() ==> (#[trigger] run.results[k]).query == echo_at(run, k),
        forall|k: int| 0 <= k < run.results.len() ==> single_lookup_answers(echo_at(run, k), run.limit, #[trigger] run.results[k]),
    ensures
        term_batch_on_track(term_batch_continue(run).0),
        answers_every_term(run, term_batch_continue(run).1),
{
    if run.next < run.terms.len() {
        let echo = QueryEchoView { term: run.terms[run.next], lang: run.lang, domain: run.domain };
        lemma_term_start_echo(echo, run.limit);
        let (lookup, step) = term_start(echo, run.limit);
        if step is Query {
            let next_run = TermBatchRunView { next: run.next + 1, current: lookup, ..run };
            assert forall|k: int| 0 <= k < next_run.results.len() implies (#[trigger] next_run.results[k]).query == echo_at(next_run, k) by {
                assert(run.results[k].query == echo_at(run, k));
            }
            assert forall|k: int| 0 <= k < next_run.results.len() implies single_lookup_answers(echo_at(next_run, k), next_run.limit, #[trigger] next_run.results[k]) by {
                assert(single_lookup_answers(echo_at(run, k), run.limit, run.results[k]));
                assert(echo_at(next_run, k) == echo_at(run, k));
            }
            assert(echo_at(next_run, next_run.next - 1) == echo);
            let none = Seq::<TermReplyView>::empty();
            assert(term_feed(term_start(echo, run.limit), none) == term_start(echo, run.limit));
            assert(single_lookup_reaches(echo, run.limit, lookup));
        }
    }
}

/// A batch that is on track stays on track whatever the database replies,
/// and when it answers, it answers every term in order, each as its single
/// lookup would.
pub proof fn term_batch_stays_on_track(run: TermBatchRunView, reply: TermReplyView)
    requires
        term_batch_on_track(TermBatchView::Running(run)),
    ensures
        term_batch_on_track(term_batch_resume(TermBatchView::Running(run), reply).0),
        answers_every_term(run, term_batch_resume(TermBatchView::Running(run), reply).1),
        term_batch_resume(TermBatchView::Running(run), reply).0 matches TermBatchView::Running(next) ==> next.lang
            == run.lang && next.terms == run.terms && next.domain == run.domain && next.limit == run.limit,
{
    let echo = echo_at(run, run.next - 1);
    lemma_term_resume_echo(run.current, reply, echo);
    let (lookup, step) = term_resume(run.current, reply);
    let start = term_start(echo, run.limit);
    let replies = choose|replies: Seq<TermReplyView>|
        (#[trigger] term_feed(start, replies)).0 == run.current && term_feed(start, replies).1 is Query;
    lemma_term_feed_push(start, replies, reply);
    assert(term_feed(start, replies.push(reply)) == (lookup, step));
    match step {
        TermStepView::Query(q) => {
            let next_run = TermBatchRunView { current: lookup, ..run };
            assert(single_lookup_reaches(echo, run.limit, lookup));
            assert(echo_at(next_run, next_run.next - 1) == echo);
        },
        TermStepView::Done(Err(e)) => {},
        TermStepView::Done(Ok(response)) => {
            let next_run = TermBatchRunView { results: run.results.push(response), current: lookup, ..run };
            assert forall|k: int| 0 <= k < next_run.results.len() implies (#[trigger] next_run.results[k]).query == echo_at(next_run, k) by {
                if k < run.results.len() {
                    assert(run.results[k].query == echo_at(run, k));
                }
            }
            assert(single_lookup_answers(echo, run.limit, response));
            assert forall|k: int| 0 <= k < next_run.results.len() implies single_lookup_answers(echo_at(next_run, k), next_run.limit, #[trigger] next_run.results[k]) by {
                assert(echo_at(next_run, k) == echo_at(run, k));
                if k < run.results.len() {
                    assert(single_lookup_answers(echo_at(run, k), run.limit, run.results[k]));
                    assert(next_run.results[k] == run.results[k]);
                } else {
                    assert(next_run.results[k] == response);
                }
            }
            lemma_continue_on_track(next_run);
        },
    }
}

/// A batch starts on track, and when it answers at once, it answers every
/// term.
pub proof fn term_batch_starts_on_track(body: BatchBody)
    ensures
        term_batch_on_track(term_batch_start(body).0),
        term_batch_start(body).0 matches TermBatchView::Running(run) ==> run.lang == body.lang@
            && run.terms == string_views(body.terms@) && run.domain == opt_view(body.domain)
            && run.limit == body.limit,
        term_batch_start(body).1 matches TermBatchStepView::Done(Ok(rs)) ==> rs.len() == body.terms@.len()
            && body.terms@.len() == 0,
{
    if lang_is_known(body.lang@) && body.terms@.len() > 0 {
        let run = TermBatchRunView {
            lang: body.lang@,
            terms: string_views(body.terms@),
            domain: opt_view(body.domain),
            limit: body.limit,
            next: 0,
            current: TermLookupView::Finished,
            results: Seq::empty(),
        };
        lemma_continue_on_track(run);
        let echo = QueryEchoView { term: run.terms[0], lang: run.lang, domain: run.domain };
        lemma_term_start_echo(echo, run.limit);
    }
}

} // verus!
