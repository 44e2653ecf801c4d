use vstd::prelude::*;
use crate::error::ApiError;
use crate::models::lex::{LexEntryPayload, LexEntryPayloadView, payload_views};
use crate::routes::lex::{
    LexLookup, LexLookupView, LexQuery, LexQueryView, LexReply, LexReplyView, LexStep,
    LexStepView, lemma_lex_feed_push, lex_by_form, lex_by_key, lex_feed, lex_resume,
    lex_single_answers, lex_single_reaches,
};
use crate::routes::params::{key_is_valid, limit_is_valid, requested_limit, sanitize_limit, validate_key};
use crate::text::{copy_strings, string_views};

verus! {

/// `POST /lex/batch`: several lookups by key and by variant form at once.
#[derive(Clone, Debug)]
pub struct LexBatchBody {
    pub lemmas: Option<Vec<String>>,
    pub variants: Option<Vec<String>>,
    pub limit: Option<i64>,
}

/// The payloads found for each key, as pairs of a key and its payloads; no
/// key occurs twice (`keys_distinct`).
pub type KeyedPayloads = Vec<(String, Vec<LexEntryPayload>)>;

/// No key occurs twice among the pairs.
pub open spec fn keys_distinct(pairs: Seq<(String, Vec<LexEntryPayload>)>) -> bool {
    forall|i: int, j: int| 0 <= i < j < pairs.len() ==> (#[trigger] pairs[i]).0@ != (#[trigger] pairs[j]).0@
}

/// The answer to a batch: the payloads of each lemma and of each variant form.
#[derive(Clone, Debug)]
pub struct LexBatchResponse {
    pub lemmas: KeyedPayloads,
    pub variants: KeyedPayloads,
}

/// Pairs of keys and payloads read as a map; a later pair of a key replaces
/// an earlier one.
pub open spec fn payload_map(pairs: Seq<(String, Vec<LexEntryPayload>)>) -> Map<
    Seq<char>,
    Seq<LexEntryPayloadView>,
>
    decreases pairs.len(),
{
    if pairs.len() == 0 {
        Map::empty()
    } else {
        payload_map(pairs.drop_last()).insert(
            pairs.last().0@,
            payload_views(pairs.last().1@),
        )
    }
}

pub struct LexBatchResponseView {
    pub lemmas: Map<Seq<char>, Seq<LexEntryPayloadView>>,
    pub variants: Map<Seq<char>, Seq<LexEntryPayloadView>>,
}

impl LexBatchResponse {
    /// No lemma occurs twice among the lemmas answered, nor a variant form
    /// among the variant forms.
    pub open spec fn has_distinct_keys(&self) -> bool {
        keys_distinct(self.lemmas@) && keys_distinct(self.variants@)
    }
}

impl View for LexBatchResponse {
    type V = LexBatchResponseView;

    open spec fn view(&self) -> LexBatchResponseView {
        LexBatchResponseView { lemmas: payload_map(self.lemmas@), variants: payload_map(self.variants@) }
    }
}

proof fn lemma_payload_map_update(
    pairs: Seq<(String, Vec<LexEntryPayload>)>,
    j: int,
    pair: (String, Vec<LexEntryPayload>),
)
    requires
        0 <= j < pairs.len(),
        pairs[j].0@ == pair.0@,
        forall|m: int| j < m < pairs.len() ==> (#[trigger] pairs[m]).0@ != pair.0@,
    ensures
        payload_map(pairs.update(j, pair)) == payload_map(pairs).insert(pair.0@, payload_views(pair.1@)),
    decreases pairs.len(),
{
    let updated = pairs.update(j, pair);
    if j == pairs.len() - 1 {
        assert(updated.drop_last() =~= pairs.drop_last());
        assert(payload_map(updated) =~= payload_map(pairs).insert(pair.0@, payload_views(pair.1@)));
    } else {
        lemma_payload_map_update(pairs.drop_last(), j, pair);
        assert(updated.drop_last() =~= pairs.drop_last().update(j, pair));
        assert(pairs[pairs.len() - 1].0@ != pair.0@);
        assert(payload_map(updated) =~= payload_map(pairs).insert(pair.0@, payload_views(pair.1@)));
    }
}

/// Records `payloads` under `key`, replacing what the key had; no key comes
/// to occur twice.
fn record(pairs: &mut KeyedPayloads, key: String, payloads: Vec<LexEntryPayload>)
    ensures
        payload_map(final(pairs)@) == payload_map(old(pairs)@).insert(key@, payload_views(payloads@)),
        keys_distinct(old(pairs)@) ==> keys_distinct(final(pairs)@),
{
    let mut j: usize = pairs.len();
    while j > 0
        invariant
            j <= pairs.len(),
            pairs@ == old(pairs)@,
            forall|m: int| j <= m < pairs.len() ==> (#[trigger] pairs@[m]).0@ != key@,
        decreases j,
    {
        if pairs[j - 1].0 == key {
            proof {
                lemma_payload_map_update(pairs@, j - 1, (key, payloads));
            }
            let ghost before = pairs@;
            pairs.set(j - 1, (key, payloads));
            assert forall|m: int| 0 <= m < pairs@.len() implies (#[trigger] pairs@[m]).0@ == before[m].0@ by {}
            return;
        }
        j = j - 1;
    }
    pairs.push((key, payloads));
    assert(pairs@.drop_last() =~= old(pairs)@);
    assert forall|a: int, b: int| 0 <= a < b < pairs@.len() && keys_distinct(old(pairs)@) implies (#[trigger] pairs@[a]).0@ != (#[trigger] pairs@[b]).0@ by {
        if b < pairs@.len() - 1 {
            assert(old(pairs)@[a] == pairs@[a] && old(pairs)@[b] == pairs@[b]);
        } else {
            assert(pairs@[a] == old(pairs)@[a]);
        }
    }
}

/// A batch between its queries. The lemmas are looked up first, then the
/// variant forms; `next` is the position, in the list being worked through,
/// of the item after `current_key`, whose lookup `current` is.
pub struct LexBatchRun {
    pub limit: i64,
    pub lemmas: Vec<String>,
    pub variants: Vec<String>,
    pub in_variants: bool,
    pub next: usize,
    pub current_key: String,
    pub current: LexLookup,
    pub lemma_results: KeyedPayloads,
    pub variant_results: KeyedPayloads,
}

pub struct LexBatchRunView {
    pub limit: i64,
    pub lemmas: Seq<Seq<char>>,
    pub variants: Seq<Seq<char>>,
    pub in_variants: bool,
    pub next: int,
    pub current_key: Seq<char>,
    pub current: LexLookupView,
    pub lemma_results: Map<Seq<char>, Seq<LexEntryPayloadView>>,
    pub variant_results: Map<Seq<char>, Seq<LexEntryPayloadView>>,
}

impl View for LexBatchRun {
    type V = LexBatchRunView;

    open spec fn view(&self) -> LexBatchRunView {
        LexBatchRunView {
            limit: self.limit,
            lemmas: string_views(self.lemmas@),
            variants: string_views(self.variants@),
            in_variants: self.in_variants,
            next: self.next as int,
            current_key: self.current_key@,
            current: self.current@,
            lemma_results: payload_map(self.lemma_results@),
            variant_results: payload_map(self.variant_results@),
        }
    }
}

/// A batch: working through its items, or finished.
pub enum LexBatch {
    Running(LexBatchRun),
    Finished,
}

pub enum LexBatchView {
    Running(LexBatchRunView),
    Finished,
}

impl LexBatch {
    /// A running batch has recorded no key twice.
    pub open spec fn keys_kept_distinct(&self) -> bool {
        match self {
            LexBatch::Running(run) => keys_distinct(run.lemma_results@) && keys_distinct(run.variant_results@),
            LexBatch::Finished => true,
        }
    }
}

impl View for LexBatch {
    type V = LexBatchView;

    open spec fn view(&self) -> LexBatchView {
        match self {
            LexBatch::Running(run) => LexBatchView::Running(run@),
            LexBatch::Finished => LexBatchView::Finished,
        }
    }
}

/// What a batch does next: run a query, or answer.
pub enum LexBatchStep {
    Query(LexQuery),
    Done(Result<LexBatchResponse, ApiError>),
}

pub enum LexBatchStepView {
    Query(LexQueryView),
    Done(Result<LexBatchResponseView, ApiError>),
}

impl LexBatchStep {
    /// An answer names no key twice.
    pub open spec fn answer_keys_distinct(&self) -> bool {
        match self {
            LexBatchStep::Done(Ok(r)) => r.has_distinct_keys(),
            _ => true,
        }
    }
}

impl View for LexBatchStep {
    type V = LexBatchStepView;

    open spec fn view(&self) -> LexBatchStepView {
        match self {
            LexBatchStep::Query(q) => LexBatchStepView::Query(q@),
            LexBatchStep::Done(Ok(r)) => LexBatchStepView::Done(Ok(r@)),
            LexBatchStep::Done(Err(e)) => LexBatchStepView::Done(Err(*e)),
        }
    }
}

pub open spec fn batch_done(r: Result<LexBatchResponseView, ApiError>) -> (
    LexBatchView,
    LexBatchStepView,
) {
    (LexBatchView::Finished, LexBatchStepView::Done(r))
}

/// Goes on with the next item: the next lemma, or once the lemmas are done the
/// next variant form, or once those are done the answer. A key that is
/// refused ends the batch with `InvalidKey`.
pub open spec fn batch_continue(run: LexBatchRunView) -> (LexBatchView, LexBatchStepView) {
    let to_variants = run.in_variants || run.next >= run.lemmas.len();
    let idx = if !run.in_variants && run.next >= run.lemmas.len() {
        0
    } else {
        run.next
    };
    let items = if to_variants {
        run.variants
    } else {
        run.lemmas
    };
    if idx >= items.len() {
        batch_done(
            Ok(LexBatchResponseView { lemmas: run.lemma_results, variants: run.variant_results }),
        )
    } else if !key_is_valid(items[idx]) {
        batch_done(Err(ApiError::InvalidKey))
    } else if to_variants {
        (
            LexBatchView::Running(
                LexBatchRunView {
                    in_variants: true,
                    next: idx + 1,
                    current_key: items[idx],
                    current: LexLookupView::AwaitingEntryIds,
                    ..run
                },
            ),
            LexBatchStepView::Query(
                LexQueryView::EntryIdsByVariantForm { form: items[idx], limit: run.limit },
            ),
        )
    } else {
        (
            LexBatchView::Running(
                LexBatchRunView {
                    in_variants: false,
                    next: idx + 1,
                    current_key: items[idx],
                    current: LexLookupView::AwaitingEntries,
                    ..run
                },
            ),
            LexBatchStepView::Query(
                LexQueryView::EntriesByLookupKey { key: items[idx], limit: run.limit },
            ),
        )
    }
}

/// The lists that an optional list stands for: none is an empty list.
pub open spec fn listed(items: Option<Vec<String>>) -> Seq<Seq<char>> {
    match items {
        Some(v) => string_views(v@),
        None => Seq::empty(),
    }
}

/// The start of a batch: the limit is checked once, then the items are worked
/// through in order.
pub open spec fn batch_start(body: LexBatchBody) -> (LexBatchView, LexBatchStepView) {
    let limit = requested_limit(body.limit);
    if !limit_is_valid(limit) {
        batch_done(Err(ApiError::InvalidLimit))
    } else {
        batch_continue(
            LexBatchRunView {
                limit,
                lemmas: listed(body.lemmas),
                variants: listed(body.variants),
                in_variants: false,
                next: 0,
                current_key: Seq::empty(),
                current: LexLookupView::Finished,
                lemma_results: Map::empty(),
                variant_results: Map::empty(),
            },
        )
    }
}

/// The next state and step of a batch, given the database's reply: the reply
/// goes to the current lookup; its error ends the batch, its payloads are
/// recorded under the current key.
pub open spec fn batch_resume(batch: LexBatchView, reply: LexReplyView) -> (
    LexBatchView,
    LexBatchStepView,
) {
    match batch {
        LexBatchView::Finished => batch_done(Err(ApiError::DbError)),
        LexBatchView::Running(run) => {
            let (lookup, step) = lex_resume(run.current, reply);
            match step {
                LexStepView::Query(q) => (
                    LexBatchView::Running(LexBatchRunView { current: lookup, ..run }),
                    LexBatchStepView::Query(q),
                ),
                LexStepView::Done(Err(e)) => batch_done(Err(e)),
                LexStepView::Done(Ok(payloads)) => if run.in_variants {
                    batch_continue(
                        LexBatchRunView {
                            variant_results: run.variant_results.insert(run.current_key, payloads),
                            ..run
                        },
                    )
                } else {
                    batch_continue(
                        LexBatchRunView {
                            lemma_results: run.lemma_results.insert(run.current_key, payloads),
                            ..run
                        },
                    )
                },
            }
        },
    }
}

fn no_results() -> (r: KeyedPayloads)
    ensures
        payload_map(r@) == Map::<Seq<char>, Seq<LexEntryPayloadView>>::empty(),
        keys_distinct(r@),
{
    Vec::new()
}

fn copy_list(items: &Option<Vec<String>>) -> (r: Vec<String>)
    ensures
        string_views(r@) == listed(*items),
{
    match items {
        Some(v) => copy_strings(v),
        None => {
            let r: Vec<String> = Vec::new();
            assert(string_views(r@) =~= Seq::<Seq<char>>::empty());
            r
        },
    }
}

impl LexBatch {
    fn continue_with(run: LexBatchRun) -> (r: (LexBatch, LexBatchStep))
        ensures
            (r.0@, r.1@) == batch_continue(run@),
            keys_distinct(run.lemma_results@) && keys_distinct(run.variant_results@) ==> r.0.keys_kept_distinct()
                && r.1.answer_keys_distinct(),
    {
        let to_variants = run.in_variants || run.next >= run.lemmas.len();
        let idx = if !run.in_variants && run.next >= run.lemmas.len() {
            0
        } else {
            run.next
        };
        let len = if to_variants {
            run.variants.len()
        } else {
            run.lemmas.len()
        };
        if idx >= len {
            let response = LexBatchResponse {
                lemmas: run.lemma_results,
                variants: run.variant_results,
            };
            return (LexBatch::Finished, LexBatchStep::Done(Ok(response)));
        }
        let key = if to_variants {
            run.variants[idx].clone()
        } else {
            run.lemmas[idx].clone()
        };
        if validate_key(key.as_str()).is_err() {
            return (LexBatch::Finished, LexBatchStep::Done(Err(ApiError::InvalidKey)));
        }
        let limit = run.limit;
        if to_variants {
            let q = LexQuery::EntryIdsByVariantForm { form: key.clone(), limit };
            let next_run = LexBatchRun {
                in_variants: true,
                next: idx + 1,
                current_key: key,
                current: LexLookup::AwaitingEntryIds,
                ..run
            };
            (LexBatch::Running(next_run), LexBatchStep::Query(q))
        } else {
            let q = LexQuery::EntriesByLookupKey { key: key.clone(), limit };
            let next_run = LexBatchRun {
                in_variants: false,
                next: idx + 1,
                current_key: key,
                current: LexLookup::AwaitingEntries,
                ..run
            };
            (LexBatch::Running(next_run), LexBatchStep::Query(q))
        }
    }

    /// Takes the database's reply to the last query and says what comes next.
    pub fn resume(self, reply: LexReply) -> (r: (LexBatch, LexBatchStep))
        ensures
            (r.0@, r.1@) == batch_resume(self@, reply@),
            self.keys_kept_distinct() ==> r.0.keys_kept_distinct() && r.1.answer_keys_distinct(),
    {
        match self {
            LexBatch::Finished => (LexBatch::Finished, LexBatchStep::Done(Err(ApiError::DbError))),
            LexBatch::Running(run) => {
                let LexBatchRun {
                    limit,
                    lemmas,
                    variants,
                    in_variants,
                    next,
                    current_key,
                    current,
                    lemma_results,
                    variant_results,
                } = run;
                let (lookup, step) = current.resume(reply);
                match step {
                    LexStep::Query(q) => {
                        let run = LexBatchRun {
                            limit,
                            lemmas,
                            variants,
                            in_variants,
                            next,
                            current_key,
                            current: lookup,
                            lemma_results,
                            variant_results,
                        };
                        (LexBatch::Running(run), LexBatchStep::Query(q))
                    },
                    LexStep::Done(Err(e)) => (LexBatch::Finished, LexBatchStep::Done(Err(e))),
                    LexStep::Done(Ok(payloads)) => {
                        let mut lemma_results = lemma_results;
                        let mut variant_results = variant_results;
                        if in_variants {
                            record(&mut variant_results, current_key.clone(), payloads);
                        } else {
                            record(&mut lemma_results, current_key.clone(), payloads);
                        }
                        let run = LexBatchRun {
                            limit,
                            lemmas,
                            variants,
                            in_variants,
                            next,
                            current_key,
                            current: lookup,
                            lemma_results,
                            variant_results,
                        };
                        LexBatch::continue_with(run)
                    },
                }
            },
        }
    }
}

/// `POST /lex/batch`: starts a batch.
pub fn post_batch(body: &LexBatchBody) -> (r: (LexBatch, LexBatchStep))
    ensures
        (r.0@, r.1@) == batch_start(*body),
        r.0.keys_kept_distinct(),
        r.1.answer_keys_distinct(),
{
    let limit = match sanitize_limit(body.limit) {
        Ok(n) => n,
        Err(e) => {
            return (LexBatch::Finished, LexBatchStep::Done(Err(e)));
        },
    };
    let run = LexBatchRun {
        limit,
        lemmas: copy_list(&body.lemmas),
        variants: copy_list(&body.variants),
        in_variants: false,
        next: 0,
        current_key: String::new(),
        current: LexLookup::Finished,
        lemma_results: no_results(),
        variant_results: no_results(),
    };
    LexBatch::continue_with(run)
}


/// The items of `items.take(n + 1)` are those of `items.take(n)` and
/// `items[n]`.
proof fn lemma_take_one_more(items: Seq<Seq<char>>, n: int)
    requires
        0 <= n < items.len(),
    ensures
        items.take(n + 1).to_set() == items.take(n).to_set().insert(items[n]),
{
    let a = items.take(n + 1);
    let b = items.take(n);
    assert forall|x: Seq<char>| a.to_set().contains(x) <==> #[trigger] b.to_set().insert(items[n]).contains(x) by {
        if a.contains(x) {
            let k = choose|k: int| 0 <= k < a.len() && a[k] == x;
            if k < n {
                assert(b[k] == x);
            }
        }
        if b.contains(x) {
            let k = choose|k: int| 0 <= k < b.len() && b[k] == x;
            assert(a[k] == x);
        }
        if x == items[n] {
            assert(a[n] == x);
        }
    }
    assert(a.to_set() =~= b.to_set().insert(items[n]));
}

/// The keys answered so far: the items worked through before position `done`
/// of the current list, and all lemmas once the variant forms are reached.
pub open spec fn answered_up_to(run: LexBatchRunView, done: int) -> bool {
    if run.in_variants {
        &&& done <= run.variants.len()
        &&& run.lemma_results.dom() == run.lemmas.to_set()
        &&& run.variant_results.dom() == run.variants.take(done).to_set()
    } else {
        &&& done <= run.lemmas.len()
        &&& run.lemma_results.dom() == run.lemmas.take(done).to_set()
        &&& run.variant_results.dom() == Set::<Seq<char>>::empty()
    }
}

/// The start of the single lookup of an item: by lookup key for a lemma, by
/// variant form for a variant form.
pub open spec fn item_start(in_variants: bool, key: Seq<char>, limit: i64) -> (LexLookupView, LexStepView) {
    if in_variants {
        lex_by_form(key, Some(limit))
    } else {
        lex_by_key(key, Some(limit))
    }
}

/// Every key's payloads are what the single lookup of that key, with the
/// batch's limit, answers on the replies that the batch handed to it.
pub open spec fn results_agree(run: LexBatchRunView) -> bool {
    &&& forall|k: Seq<char>|
        #[trigger] run.lemma_results.dom().contains(k) ==> lex_single_answers(
            lex_by_key(k, Some(run.limit)),
            run.lemma_results[k],
        )
    &&& forall|k: Seq<char>|
        #[trigger] run.variant_results.dom().contains(k) ==> lex_single_answers(
            lex_by_form(k, Some(run.limit)),
            run.variant_results[k],
        )
}

/// A running batch has answered every item before the current one, each as
/// its single lookup would, and the current lookup is the single lookup of
/// the current item, part way.
pub open spec fn lex_batch_on_track(b: LexBatchView) -> bool {
    match b {
        LexBatchView::Finished => true,
        LexBatchView::Running(run) => {
            &&& 1 <= run.next
            &&& limit_is_valid(run.limit)
            &&& answered_up_to(run, run.next - 1)
            &&& results_agree(run)
            &&& run.in_variants ==> run.next <= run.variants.len() && run.current_key == run.variants[run.next - 1]
            &&& !run.in_variants ==> run.next <= run.lemmas.len() && run.current_key == run.lemmas[run.next - 1]
            &&& lex_single_reaches(item_start(run.in_variants, run.current_key, run.limit), run.current)
        },
    }
}

/// A batch's answer holds exactly the lemmas and the variant forms asked for,
/// each with the payloads that its single lookup (`get_by_lemma` or
/// `get_by_variant` with limit `limit`) answers on the replies that the batch
/// handed to it.
pub open spec fn answers_every_key(
    lemmas: Seq<Seq<char>>,
    variants: Seq<Seq<char>>,
    limit: i64,
    step: LexBatchStepView,
) -> bool {
    step matches LexBatchStepView::Done(Ok(r)) ==> {
        &&& r.lemmas.dom() == lemmas.to_set()
        &&& r.variants.dom() == variants.to_set()
        &&& forall|k: Seq<char>|
            #[trigger] r.lemmas.dom().contains(k) ==> lex_single_answers(lex_by_key(k, Some(limit)), r.lemmas[k])
        &&& forall|k: Seq<char>|
            #[trigger] r.variants.dom().contains(k) ==> lex_single_answers(lex_by_form(k, Some(limit)), r.variants[k])
    }
}

proof fn lemma_batch_continue_on_track(run: LexBatchRunView)
    requires
        0 <= run.next,
        limit_is_valid(run.limit),
        answered_up_to(run, run.next),
        results_agree(run),
    ensures
        lex_batch_on_track(batch_continue(run).0),
        answers_every_key(run.lemmas, run.variants, run.limit, batch_continue(run).1),
{
    let to_variants = run.in_variants || run.next >= run.lemmas.len();
    let idx = if !run.in_variants && run.next >= run.lemmas.len() {
        0
    } else {
        run.next
    };
    let items = if to_variants {
        run.variants
    } else {
        run.lemmas
    };
    if idx < items.len() && key_is_valid(items[idx]) {
        let start = item_start(to_variants, items[idx], run.limit);
        assert(lex_feed(start, Seq::<LexReplyView>::empty()) == start);
        assert(lex_single_reaches(start, batch_continue(run).0->Running_0.current));
    }
    if !run.in_variants && run.next >= run.lemmas.len() {
        assert(run.lemmas.take(run.next) =~= run.lemmas);
        assert(run.variants.take(0).to_set() =~= Set::<Seq<char>>::empty());
    }
    if run.in_variants && run.next >= run.variants.len() {
        assert(run.variants.take(run.next) =~= run.variants);
    }
    if !run.in_variants && run.next >= run.lemmas.len() && run.variants.len() == 0 {
        assert(run.variants.to_set() =~= Set::<Seq<char>>::empty());
    }
}

/// A batch starts on track, and when it answers at once, it answers every
/// key asked for.
pub proof fn lex_batch_starts_on_track(body: LexBatchBody)
    ensures
        lex_batch_on_track(batch_start(body).0),
        answers_every_key(listed(body.lemmas), listed(body.variants), requested_limit(body.limit), batch_start(body).1),
        batch_start(body).0 matches LexBatchView::Running(run) ==> run.limit == requested_limit(body.limit)
            && run.lemmas == listed(body.lemmas) && run.variants == listed(body.variants),
{
    let limit = requested_limit(body.limit);
    if limit_is_valid(limit) {
        let run = LexBatchRunView {
            limit,
            lemmas: listed(body.lemmas),
            variants: listed(body.variants),
            in_variants: false,
            next: 0,
            current_key: Seq::empty(),
            current: LexLookupView::Finished,
            lemma_results: Map::empty(),
            variant_results: Map::empty(),
        };
        assert(run.lemmas.take(0).to_set() =~= Set::<Seq<char>>::empty());
        assert(run.lemma_results.dom() =~= Set::<Seq<char>>::empty());
        assert(run.variant_results.dom() =~= Set::<Seq<char>>::empty());
        lemma_batch_continue_on_track(run);
    }
}

/// A batch that is on track stays on track whatever the database replies, and
/// when it answers, it answers exactly the lemmas and variant forms asked for,
/// each as its single lookup would.
pub proof fn lex_batch_stays_on_track(run: LexBatchRunView, reply: LexReplyView)
    requires
        lex_batch_on_track(LexBatchView::Running(run)),
    ensures
        lex_batch_on_track(batch_resume(LexBatchView::Running(run), reply).0),
        answers_every_key(run.lemmas, run.variants, run.limit, batch_resume(LexBatchView::Running(run), reply).1),
        batch_resume(LexBatchView::Running(run), reply).0 matches LexBatchView::Running(next) ==> next.lemmas
            == run.lemmas && next.variants == run.variants && next.limit == run.limit,
{
    let start = item_start(run.in_variants, run.current_key, run.limit);
    let replies = choose|replies: Seq<LexReplyView>|
        (#[trigger] lex_feed(start, replies)).0 == run.current && lex_feed(start, replies).1 is Query;
    lemma_lex_feed_push(start, replies, reply);
    let (lookup, step) = lex_resume(run.current, reply);
    assert(lex_feed(start, replies.push(reply)) == (lookup, step));
    match step {
        LexStepView::Query(q) => {
            assert(lex_single_reaches(start, lookup));
        },
        LexStepView::Done(Err(e)) => {},
        LexStepView::Done(Ok(payloads)) => {
            assert(lex_single_answers(start, payloads));
            if run.in_variants {
                let next_run = LexBatchRunView {
                    variant_results: run.variant_results.insert(run.current_key, payloads),
                    ..run
                };
                lemma_take_one_more(run.variants, run.next - 1);
                assert(next_run.variant_results.dom() =~= run.variants.take(run.next).to_set());
                assert forall|k: Seq<char>| #[trigger] next_run.variant_results.dom().contains(k) implies lex_single_answers(lex_by_form(k, Some(next_run.limit)), next_run.variant_results[k]) by {
                    if k != run.current_key {
                        assert(run.variant_results.dom().contains(k));
                    }
                }
                lemma_batch_continue_on_track(next_run);
            } else {
                let next_run = LexBatchRunView {
                    lemma_results: run.lemma_results.insert(run.current_key, payloads),
                    ..run
                };
                lemma_take_one_more(run.lemmas, run.next - 1);
                assert(next_run.lemma_results.dom() =~= run.lemmas.take(run.next).to_set());
                assert forall|k: Seq<char>| #[trigger] next_run.lemma_results.dom().contains(k) implies lex_single_answers(lex_by_key(k, Some(next_run.limit)), next_run.lemma_results[k]) by {
                    if k != run.current_key {
                        assert(run.lemma_results.dom().contains(k));
                    }
                }
                lemma_batch_continue_on_track(next_run);
            }
        },
    }
}

} // verus!
