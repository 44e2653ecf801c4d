use vstd::prelude::*;
use crate::error::ApiError;
use crate::models::lex::{
    EntryRow, EtyRow, ExampleRow, FreqRow, LexEntryPayload, LexEntryPayloadView, SenseRow,
    VariantRow, payload_views,
};
use crate::routes::params::{key_is_valid, limit_is_valid, requested_limit, sanitize_limit, validate_key};
use crate::text::{json_list, json_string_array, string_views};
use crate::rows::{
    Keyed, first_with_its_key, is_first_with_its_key, last_row_with_key, last_with_key,
    rows_with_key, with_key,
};

verus! {

/// The examples of the given senses: those of the first sense, then those of
/// the second, and so on, each in the order the rows came.
pub open spec fn examples_of_senses(examples: Seq<ExampleRow>, senses: Seq<SenseRow>) -> Seq<
    ExampleRow,
>
    decreases senses.len(),
{
    if senses.len() == 0 {
        Seq::empty()
    } else {
        examples_of_senses(examples, senses.drop_last()) + with_key(examples, senses.last().id@)
    }
}

/// The payload of entry `i`. An entry gets the rows that refer to it, the
/// examples of its senses and the last frequency row of it; an entry whose id
/// an earlier entry already had gets none of these, since they went to that
/// earlier entry.
pub open spec fn lex_payload(
    entries: Seq<EntryRow>,
    senses: Seq<SenseRow>,
    examples: Seq<ExampleRow>,
    etymology: Seq<EtyRow>,
    variants: Seq<VariantRow>,
    freq: Seq<FreqRow>,
    i: int,
) -> LexEntryPayloadView {
    let entry = entries[i];
    if first_with_its_key(entries, i) {
        let group = with_key(senses, entry.id@);
        LexEntryPayloadView {
            entry,
            senses: group,
            examples: examples_of_senses(examples, group),
            etymology: with_key(etymology, entry.id@),
            variants: with_key(variants, entry.id@),
            freq: last_with_key(freq, entry.id@),
        }
    } else {
        LexEntryPayloadView {
            entry,
            senses: Seq::empty(),
            examples: Seq::empty(),
            etymology: Seq::empty(),
            variants: Seq::empty(),
            freq: None,
        }
    }
}

/// The payloads of all entries, in the entries' order.
pub open spec fn lex_payloads(
    entries: Seq<EntryRow>,
    senses: Seq<SenseRow>,
    examples: Seq<ExampleRow>,
    etymology: Seq<EtyRow>,
    variants: Seq<VariantRow>,
    freq: Seq<FreqRow>,
) -> Seq<LexEntryPayloadView> {
    Seq::new(
        entries.len(),
        |i: int| lex_payload(entries, senses, examples, etymology, variants, freq, i),
    )
}

fn examples_for_senses(examples: &Vec<ExampleRow>, senses: &Vec<SenseRow>) -> (r: Vec<ExampleRow>)
    ensures
        r@ == examples_of_senses(examples@, senses@),
{
    let mut r: Vec<ExampleRow> = Vec::new();
    let mut k: usize = 0;
    while k < senses.len()
        invariant
            k <= senses.len(),
            r@ == examples_of_senses(examples@, senses@.take(k as int)),
        decreases senses.len() - k,
    {
        assert(senses@.take(k + 1).drop_last() =~= senses@.take(k as int));
        assert(senses@.take(k + 1).last() == senses@[k as int]);
        let mut found = rows_with_key(examples, &senses[k].id);
        r.append(&mut found);
        k = k + 1;
    }
    assert(senses@.take(senses.len() as int) =~= senses@);
    r
}

/// Gathers, for each entry in order, the rows that refer to it.
pub fn assemble_lex_payloads(
    entries: &Vec<EntryRow>,
    senses: &Vec<SenseRow>,
    examples: &Vec<ExampleRow>,
    etymology: &Vec<EtyRow>,
    variants: &Vec<VariantRow>,
    freq: &Vec<FreqRow>,
) -> (r: Vec<LexEntryPayload>)
    ensures
        payload_views(r@) == lex_payloads(
            entries@,
            senses@,
            examples@,
            etymology@,
            variants@,
            freq@,
        ),
{
    let ghost spec_all = lex_payloads(entries@, senses@, examples@, etymology@, variants@, freq@);
    let mut r: Vec<LexEntryPayload> = Vec::new();
    let mut i: usize = 0;
    while i < entries.len()
        invariant
            i <= entries.len(),
            spec_all == lex_payloads(entries@, senses@, examples@, etymology@, variants@, freq@),
            r.len() == i,
            forall|k: int| 0 <= k < i ==> (#[trigger] r@[k])@ == spec_all[k],
        decreases entries.len() - i,
    {
        let entry = &entries[i];
        let payload = if is_first_with_its_key(entries, i) {
            let group = rows_with_key(senses, &entry.id);
            let xs = examples_for_senses(examples, &group);
            LexEntryPayload {
                entry: entry.duplicate(),
                senses: group,
                examples: xs,
                etymology: rows_with_key(etymology, &entry.id),
                variants: rows_with_key(variants, &entry.id),
                freq: last_row_with_key(freq, &entry.id),
            }
        } else {
            LexEntryPayload {
                entry: entry.duplicate(),
                senses: Vec::new(),
                examples: Vec::new(),
                etymology: Vec::new(),
                variants: Vec::new(),
                freq: None,
            }
        };
        assert(payload@ == spec_all[i as int]);
        r.push(payload);
        i = i + 1;
    }
    assert(payload_views(r@) =~= spec_all);
    r
}


/// The ids of entries, in order.
pub open spec fn entry_ids(entries: Seq<EntryRow>) -> Seq<Seq<char>> {
    entries.map_values(|e: EntryRow| e.id@)
}

/// The ids of senses, in order.
pub open spec fn sense_ids(senses: Seq<SenseRow>) -> Seq<Seq<char>> {
    senses.map_values(|s: SenseRow| s.id@)
}

fn no_payloads() -> (r: Vec<LexEntryPayload>)
    ensures
        r@.len() == 0,
        payload_views(r@) == Seq::<LexEntryPayloadView>::empty(),
{
    let r: Vec<LexEntryPayload> = Vec::new();
    assert(payload_views(r@) =~= Seq::<LexEntryPayloadView>::empty());
    r
}

fn entry_ids_json(entries: &Vec<EntryRow>) -> (text: String)
    ensures
        text@ == json_string_array(entry_ids(entries@)),
{
    let mut ids: Vec<String> = Vec::new();
    let mut i: usize = 0;
    while i < entries.len()
        invariant
            i <= entries.len(),
            ids.len() == i,
            forall|k: int| 0 <= k < i ==> (#[trigger] ids@[k])@ == entries@[k].id@,
        decreases entries.len() - i,
    {
        ids.push(entries[i].id.clone());
        i = i + 1;
    }
    assert(string_views(ids@) =~= entry_ids(entries@));
    json_list(&ids)
}

fn sense_ids_json(senses: &Vec<SenseRow>) -> (text: String)
    ensures
        text@ == json_string_array(sense_ids(senses@)),
{
    let mut ids: Vec<String> = Vec::new();
    let mut i: usize = 0;
    while i < senses.len()
        invariant
            i <= senses.len(),
            ids.len() == i,
            forall|k: int| 0 <= k < i ==> (#[trigger] ids@[k])@ == senses@[k].id@,
        decreases senses.len() - i,
    {
        ids.push(senses[i].id.clone());
        i = i + 1;
    }
    assert(string_views(ids@) =~= sense_ids(senses@));
    json_list(&ids)
}

/// A query of the lexicon database. A list of ids is passed as a JSON array,
/// which the query reads with `json_each`.
pub enum LexQuery {
    /// The entries whose `lookup_key` is `key`, at most `limit` of them.
    EntriesByLookupKey { key: String, limit: i64 },
    /// The `entry_id` of the variants whose form is `form`, at most `limit`.
    EntryIdsByVariantForm { form: String, limit: i64 },
    /// The entries whose id is in the list.
    EntriesByIds { ids_json: String },
    /// The senses of the listed entries.
    SensesByEntryIds { ids_json: String },
    /// The examples of the listed senses.
    ExamplesBySenseIds { ids_json: String },
    /// The etymology rows of the listed entries.
    EtymologyByEntryIds { ids_json: String },
    /// The variants of the listed entries.
    VariantsByEntryIds { ids_json: String },
    /// The frequency rows of the listed entries.
    FrequenciesByEntryIds { ids_json: String },
}

pub enum LexQueryView {
    EntriesByLookupKey { key: Seq<char>, limit: i64 },
    EntryIdsByVariantForm { form: Seq<char>, limit: i64 },
    EntriesByIds { ids_json: Seq<char> },
    SensesByEntryIds { ids_json: Seq<char> },
    ExamplesBySenseIds { ids_json: Seq<char> },
    EtymologyByEntryIds { ids_json: Seq<char> },
    VariantsByEntryIds { ids_json: Seq<char> },
    FrequenciesByEntryIds { ids_json: Seq<char> },
}

impl View for LexQuery {
    type V = LexQueryView;

    open spec fn view(&self) -> LexQueryView {
        match self {
            LexQuery::EntriesByLookupKey { key, limit } => LexQueryView::EntriesByLookupKey {
                key: key@,
                limit: *limit,
            },
            LexQuery::EntryIdsByVariantForm { form, limit } => LexQueryView::EntryIdsByVariantForm {
                form: form@,
                limit: *limit,
            },
            LexQuery::EntriesByIds { ids_json } => LexQueryView::EntriesByIds { ids_json: ids_json@ },
            LexQuery::SensesByEntryIds { ids_json } => LexQueryView::SensesByEntryIds {
                ids_json: ids_json@,
            },
            LexQuery::ExamplesBySenseIds { ids_json } => LexQueryView::ExamplesBySenseIds {
                ids_json: ids_json@,
            },
            LexQuery::EtymologyByEntryIds { ids_json } => LexQueryView::EtymologyByEntryIds {
                ids_json: ids_json@,
            },
            LexQuery::VariantsByEntryIds { ids_json } => LexQueryView::VariantsByEntryIds {
                ids_json: ids_json@,
            },
            LexQuery::FrequenciesByEntryIds { ids_json } => LexQueryView::FrequenciesByEntryIds {
                ids_json: ids_json@,
            },
        }
    }
}

/// What the database answered to the last query: the rows, or a failure.
pub enum LexReply {
    Failed,
    Entries(Vec<EntryRow>),
    EntryIds(Vec<String>),
    Senses(Vec<SenseRow>),
    Examples(Vec<ExampleRow>),
    Etymology(Vec<EtyRow>),
    Variants(Vec<VariantRow>),
    Frequencies(Vec<FreqRow>),
}

pub enum LexReplyView {
    Failed,
    Entries(Seq<EntryRow>),
    EntryIds(Seq<Seq<char>>),
    Senses(Seq<SenseRow>),
    Examples(Seq<ExampleRow>),
    Etymology(Seq<EtyRow>),
    Variants(Seq<VariantRow>),
    Frequencies(Seq<FreqRow>),
}

impl View for LexReply {
    type V = LexReplyView;

    open spec fn view(&self) -> LexReplyView {
        match self {
            LexReply::Failed => LexReplyView::Failed,
            LexReply::Entries(v) => LexReplyView::Entries(v@),
            LexReply::EntryIds(v) => LexReplyView::EntryIds(string_views(v@)),
            LexReply::Senses(v) => LexReplyView::Senses(v@),
            LexReply::Examples(v) => LexReplyView::Examples(v@),
            LexReply::Etymology(v) => LexReplyView::Etymology(v@),
            LexReply::Variants(v) => LexReplyView::Variants(v@),
            LexReply::Frequencies(v) => LexReplyView::Frequencies(v@),
        }
    }
}

/// What to do next: run a query, or answer.
pub enum LexStep {
    Query(LexQuery),
    Done(Result<Vec<LexEntryPayload>, ApiError>),
}

pub enum LexStepView {
    Query(LexQueryView),
    Done(Result<Seq<LexEntryPayloadView>, ApiError>),
}

impl View for LexStep {
    type V = LexStepView;

    open spec fn view(&self) -> LexStepView {
        match self {
            LexStep::Query(q) => LexStepView::Query(q@),
            LexStep::Done(Ok(ps)) => LexStepView::Done(Ok(payload_views(ps@))),
            LexStep::Done(Err(e)) => LexStepView::Done(Err(*e)),
        }
    }
}

/// A lexicon lookup between its queries: what it waits for and what it has
/// gathered. `entry_ids` is the JSON list of the entries' ids.
pub enum LexLookup {
    AwaitingEntries,
    AwaitingEntryIds,
    AwaitingSenses { entries: Vec<EntryRow>, entry_ids: String },
    AwaitingExamples { entries: Vec<EntryRow>, entry_ids: String, senses: Vec<SenseRow> },
    AwaitingEtymology {
        entries: Vec<EntryRow>,
        entry_ids: String,
        senses: Vec<SenseRow>,
        examples: Vec<ExampleRow>,
    },
    AwaitingVariants {
        entries: Vec<EntryRow>,
        entry_ids: String,
        senses: Vec<SenseRow>,
        examples: Vec<ExampleRow>,
        etymology: Vec<EtyRow>,
    },
    AwaitingFrequencies {
        entries: Vec<EntryRow>,
        entry_ids: String,
        senses: Vec<SenseRow>,
        examples: Vec<ExampleRow>,
        etymology: Vec<EtyRow>,
        variants: Vec<VariantRow>,
    },
    Finished,
}

pub enum LexLookupView {
    AwaitingEntries,
    AwaitingEntryIds,
    AwaitingSenses { entries: Seq<EntryRow>, entry_ids: Seq<char> },
    AwaitingExamples { entries: Seq<EntryRow>, entry_ids: Seq<char>, senses: Seq<SenseRow> },
    AwaitingEtymology {
        entries: Seq<EntryRow>,
        entry_ids: Seq<char>,
        senses: Seq<SenseRow>,
        examples: Seq<ExampleRow>,
    },
    AwaitingVariants {
        entries: Seq<EntryRow>,
        entry_ids: Seq<char>,
        senses: Seq<SenseRow>,
        examples: Seq<ExampleRow>,
        etymology: Seq<EtyRow>,
    },
    AwaitingFrequencies {
        entries: Seq<EntryRow>,
        entry_ids: Seq<char>,
        senses: Seq<SenseRow>,
        examples: Seq<ExampleRow>,
        etymology: Seq<EtyRow>,
        variants: Seq<VariantRow>,
    },
    Finished,
}

impl View for LexLookup {
    type V = LexLookupView;

    open spec fn view(&self) -> LexLookupView {
        match self {
            LexLookup::AwaitingEntries => LexLookupView::AwaitingEntries,
            LexLookup::AwaitingEntryIds => LexLookupView::AwaitingEntryIds,
            LexLookup::AwaitingSenses { entries, entry_ids } => LexLookupView::AwaitingSenses {
                entries: entries@,
                entry_ids: entry_ids@,
            },
            LexLookup::AwaitingExamples { entries, entry_ids, senses } =>
                LexLookupView::AwaitingExamples {
                    entries: entries@,
                    entry_ids: entry_ids@,
                    senses: senses@,
                },
            LexLookup::AwaitingEtymology { entries, entry_ids, senses, examples } =>
                LexLookupView::AwaitingEtymology {
                    entries: entries@,
                    entry_ids: entry_ids@,
                    senses: senses@,
                    examples: examples@,
                },
            LexLookup::AwaitingVariants { entries, entry_ids, senses, examples, etymology } =>
                LexLookupView::AwaitingVariants {
                    entries: entries@,
                    entry_ids: entry_ids@,
                    senses: senses@,
                    examples: examples@,
                    etymology: etymology@,
                },
            LexLookup::AwaitingFrequencies {
                entries,
                entry_ids,
                senses,
                examples,
                etymology,
                variants,
            } => LexLookupView::AwaitingFrequencies {
                entries: entries@,
                entry_ids: entry_ids@,
                senses: senses@,
                examples: examples@,
                etymology: etymology@,
                variants: variants@,
            },
            LexLookup::Finished => LexLookupView::Finished,
        }
    }
}

/// A lookup that has answered.
pub open spec fn lex_done(r: Result<Seq<LexEntryPayloadView>, ApiError>) -> (
    LexLookupView,
    LexStepView,
) {
    (LexLookupView::Finished, LexStepView::Done(r))
}

/// A lookup that asks `q` next, waiting in `state`.
pub open spec fn lex_ask(state: LexLookupView, q: LexQueryView) -> (LexLookupView, LexStepView) {
    (state, LexStepView::Query(q))
}

/// The lookup of entries by their `lookup_key`: the key is checked, then the
/// limit; a refused parameter is answered at once, before any query.
pub open spec fn lex_by_key(key: Seq<char>, limit: Option<i64>) -> (LexLookupView, LexStepView) {
    if !key_is_valid(key) {
        lex_done(Err(ApiError::InvalidKey))
    } else if !limit_is_valid(requested_limit(limit)) {
        lex_done(Err(ApiError::InvalidLimit))
    } else {
        lex_ask(
            LexLookupView::AwaitingEntries,
            LexQueryView::EntriesByLookupKey { key, limit: requested_limit(limit) },
        )
    }
}

/// The lookup of entries by one of their variant forms, checked as
/// `lex_by_key` checks.
pub open spec fn lex_by_form(form: Seq<char>, limit: Option<i64>) -> (LexLookupView, LexStepView) {
    if !key_is_valid(form) {
        lex_done(Err(ApiError::InvalidKey))
    } else if !limit_is_valid(requested_limit(limit)) {
        lex_done(Err(ApiError::InvalidLimit))
    } else {
        lex_ask(
            LexLookupView::AwaitingEntryIds,
            LexQueryView::EntryIdsByVariantForm { form, limit: requested_limit(limit) },
        )
    }
}

/// Once the entries are known: no entries need no further query; otherwise
/// their senses are asked for.
pub open spec fn lex_with_entries(entries: Seq<EntryRow>) -> (LexLookupView, LexStepView) {
    if entries.len() == 0 {
        lex_done(Ok(Seq::empty()))
    } else {
        let ids = json_string_array(entry_ids(entries));
        lex_ask(
            LexLookupView::AwaitingSenses { entries, entry_ids: ids },
            LexQueryView::SensesByEntryIds { ids_json: ids },
        )
    }
}

/// The next state and step of a lookup, given the database's reply. A failed
/// query is answered with `DbError`; so is a reply of another kind than the
/// one the lookup waits for.
pub open spec fn lex_resume(state: LexLookupView, reply: LexReplyView) -> (
    LexLookupView,
    LexStepView,
) {
    match (state, reply) {
        (LexLookupView::AwaitingEntries, LexReplyView::Entries(es)) => lex_with_entries(es),
        (LexLookupView::AwaitingEntryIds, LexReplyView::EntryIds(ids)) => if ids.len() == 0 {
            lex_done(Ok(Seq::empty()))
        } else {
            lex_ask(
                LexLookupView::AwaitingEntries,
                LexQueryView::EntriesByIds { ids_json: json_string_array(ids) },
            )
        },
        (LexLookupView::AwaitingSenses { entries, entry_ids }, LexReplyView::Senses(senses)) =>
            if senses.len() == 0 {
            lex_ask(
                LexLookupView::AwaitingEtymology {
                    entries,
                    entry_ids,
                    senses,
                    examples: Seq::empty(),
                },
                LexQueryView::EtymologyByEntryIds { ids_json: entry_ids },
            )
        } else {
            lex_ask(
                LexLookupView::AwaitingExamples { entries, entry_ids, senses },
                LexQueryView::ExamplesBySenseIds { ids_json: json_string_array(sense_ids(senses)) },
            )
        },
        (
            LexLookupView::AwaitingExamples { entries, entry_ids, senses },
            LexReplyView::Examples(examples),
        ) => lex_ask(
            LexLookupView::AwaitingEtymology { entries, entry_ids, senses, examples },
            LexQueryView::EtymologyByEntryIds { ids_json: entry_ids },
        ),
        (
            LexLookupView::AwaitingEtymology { entries, entry_ids, senses, examples },
            LexReplyView::Etymology(etymology),
        ) => lex_ask(
            LexLookupView::AwaitingVariants { entries, entry_ids, senses, examples, etymology },
            LexQueryView::VariantsByEntryIds { ids_json: entry_ids },
        ),
        (
            LexLookupView::AwaitingVariants { entries, entry_ids, senses, examples, etymology },
            LexReplyView::Variants(variants),
        ) => lex_ask(
            LexLookupView::AwaitingFrequencies {
                entries,
                entry_ids,
                senses,
                examples,
                etymology,
                variants,
            },
            LexQueryView::FrequenciesByEntryIds { ids_json: entry_ids },
        ),
        (
            LexLookupView::AwaitingFrequencies {
                entries,
                entry_ids,
                senses,
                examples,
                etymology,
                variants,
            },
            LexReplyView::Frequencies(freq),
        ) => lex_done(Ok(lex_payloads(entries, senses, examples, etymology, variants, freq))),
        _ => lex_done(Err(ApiError::DbError)),
    }
}

impl LexLookup {
    /// Starts a lookup of entries by their `lookup_key`.
    pub fn by_lookup_key(key: &String, limit: Option<i64>) -> (r: (LexLookup, LexStep))
        ensures
            (r.0@, r.1@) == lex_by_key(key@, limit),
    {
        if let Err(e) = validate_key(key.as_str()) {
            return (LexLookup::Finished, LexStep::Done(Err(e)));
        }
        match sanitize_limit(limit) {
            Err(e) => (LexLookup::Finished, LexStep::Done(Err(e))),
            Ok(n) => (
                LexLookup::AwaitingEntries,
                LexStep::Query(LexQuery::EntriesByLookupKey { key: key.clone(), limit: n }),
            ),
        }
    }

    /// Starts a lookup of entries by one of their variant forms.
    pub fn by_variant_form(form: &String, limit: Option<i64>) -> (r: (LexLookup, LexStep))
        ensures
            (r.0@, r.1@) == lex_by_form(form@, limit),
    {
        if let Err(e) = validate_key(form.as_str()) {
            return (LexLookup::Finished, LexStep::Done(Err(e)));
        }
        match sanitize_limit(limit) {
            Err(e) => (LexLookup::Finished, LexStep::Done(Err(e))),
            Ok(n) => (
                LexLookup::AwaitingEntryIds,
                LexStep::Query(LexQuery::EntryIdsByVariantForm { form: form.clone(), limit: n }),
            ),
        }
    }

    fn with_entries(entries: Vec<EntryRow>) -> (r: (LexLookup, LexStep))
        ensures
            (r.0@, r.1@) == lex_with_entries(entries@),
    {
        if entries.len() == 0 {
            return (LexLookup::Finished, LexStep::Done(Ok(no_payloads())));
        }
        let ids = entry_ids_json(&entries);
        let query = LexQuery::SensesByEntryIds { ids_json: ids.clone() };
        (LexLookup::AwaitingSenses { entries, entry_ids: ids }, LexStep::Query(query))
    }

    /// Takes the database's reply to the last query and says what comes next.
    pub fn resume(self, reply: LexReply) -> (r: (LexLookup, LexStep))
        ensures
            (r.0@, r.1@) == lex_resume(self@, reply@),
    {
        match (self, reply) {
            (LexLookup::AwaitingEntries, LexReply::Entries(es)) => LexLookup::with_entries(es),
            (LexLookup::AwaitingEntryIds, LexReply::EntryIds(ids)) => {
                if ids.len() == 0 {
                    (LexLookup::Finished, LexStep::Done(Ok(no_payloads())))
                } else {
                    let q = LexQuery::EntriesByIds { ids_json: json_list(&ids) };
                    (LexLookup::AwaitingEntries, LexStep::Query(q))
                }
            },
            (LexLookup::AwaitingSenses { entries, entry_ids }, LexReply::Senses(senses)) => {
                if senses.len() == 0 {
                    let q = LexQuery::EtymologyByEntryIds { ids_json: entry_ids.clone() };
                    (
                        LexLookup::AwaitingEtymology {
                            entries,
                            entry_ids,
                            senses,
                            examples: Vec::new(),
                        },
                        LexStep::Query(q),
                    )
                } else {
                    let q = LexQuery::ExamplesBySenseIds { ids_json: sense_ids_json(&senses) };
                    (LexLookup::AwaitingExamples { entries, entry_ids, senses }, LexStep::Query(q))
                }
            },
            (
                LexLookup::AwaitingExamples { entries, entry_ids, senses },
                LexReply::Examples(examples),
            ) => {
                let q = LexQuery::EtymologyByEntryIds { ids_json: entry_ids.clone() };
                (
                    LexLookup::AwaitingEtymology { entries, entry_ids, senses, examples },
                    LexStep::Query(q),
                )
            },
            (
                LexLookup::AwaitingEtymology { entries, entry_ids, senses, examples },
                LexReply::Etymology(etymology),
            ) => {
                let q = LexQuery::VariantsByEntryIds { ids_json: entry_ids.clone() };
                (
                    LexLookup::AwaitingVariants { entries, entry_ids, senses, examples, etymology },
                    LexStep::Query(q),
                )
            },
            (
                LexLookup::AwaitingVariants { entries, entry_ids, senses, examples, etymology },
                LexReply::Variants(variants),
            ) => {
                let q = LexQuery::FrequenciesByEntryIds { ids_json: entry_ids.clone() };
                (
                    LexLookup::AwaitingFrequencies {
                        entries,
                        entry_ids,
                        senses,
                        examples,
                        etymology,
                        variants,
                    },
                    LexStep::Query(q),
                )
            },
            (
                LexLookup::AwaitingFrequencies {
                    entries,
                    entry_ids,
                    senses,
                    examples,
                    etymology,
                    variants,
                },
                LexReply::Frequencies(freq),
            ) => {
                let payloads = assemble_lex_payloads(
                    &entries,
                    &senses,
                    &examples,
                    &etymology,
                    &variants,
                    &freq,
                );
                (LexLookup::Finished, LexStep::Done(Ok(payloads)))
            },
            _ => (LexLookup::Finished, LexStep::Done(Err(ApiError::DbError))),
        }
    }
}


/// `GET /lex/entry`: entries by their lookup key.
#[derive(Clone, Debug)]
pub struct LemmaQuery {
    pub lemma: String,
    pub limit: Option<i64>,
}

/// `GET /lex/by-variant`: entries by one of their variant forms.
#[derive(Clone, Debug)]
pub struct VariantQuery {
    pub form: String,
    pub limit: Option<i64>,
}

/// `POST /api/lex/1.0/lookup`: the older form of the lookup by key.
#[derive(Clone, Debug)]
pub struct LegacyLookupBody {
    pub q: String,
    pub limit: Option<i64>,
}

/// `GET /lex/entry`: starts the lookup of `q.lemma` among the lookup keys.
pub fn get_by_lemma(q: &LemmaQuery) -> (r: (LexLookup, LexStep))
    ensures
        (r.0@, r.1@) == lex_by_key(q.lemma@, q.limit),
{
    LexLookup::by_lookup_key(&q.lemma, q.limit)
}

/// `GET /lex/by-variant`: starts the lookup of `q.form` among the variant
/// forms.
pub fn get_by_variant(q: &VariantQuery) -> (r: (LexLookup, LexStep))
    ensures
        (r.0@, r.1@) == lex_by_form(q.form@, q.limit),
{
    LexLookup::by_variant_form(&q.form, q.limit)
}

/// `POST /api/lex/1.0/lookup`: starts the lookup of `body.q` among the lookup
/// keys.
pub fn lookup_legacy(body: &LegacyLookupBody) -> (r: (LexLookup, LexStep))
    ensures
        (r.0@, r.1@) == lex_by_key(body.q@, body.limit),
{
    LexLookup::by_lookup_key(&body.q, body.limit)
}


/// The examples of some senses are, sense by sense, the examples whose
/// sense is that sense, in the order the rows came.
pub proof fn lemma_examples_of_senses_flatten(examples: Seq<ExampleRow>, senses: Seq<SenseRow>)
    ensures
        examples_of_senses(examples, senses) == senses.map_values(
            |s: SenseRow| examples.filter(|x: ExampleRow| x.sense_id@ == s.id@),
        ).flatten(),
    decreases senses.len(),
{
    let f = |s: SenseRow| examples.filter(|x: ExampleRow| x.sense_id@ == s.id@);
    if senses.len() == 0 {
        assert(senses.map_values(f) =~= Seq::<Seq<ExampleRow>>::empty());
    } else {
        let last = senses.last();
        lemma_examples_of_senses_flatten(examples, senses.drop_last());
        let by_sense = |x: ExampleRow| x.sense_id@ == last.id@;
        crate::rows::lemma_with_key_is_filter(examples, last.id@, by_sense);
        assert(f(last) == examples.filter(by_sense));
        assert(senses.map_values(f) =~= senses.drop_last().map_values(f).push(f(last)));
        senses.drop_last().map_values(f).lemma_flatten_push(f(last));
        assert(senses.map_values(f).flatten() == senses.drop_last().map_values(f).flatten() + f(last));
        assert(examples_of_senses(examples, senses) == examples_of_senses(examples, senses.drop_last()) + with_key(examples, last.id@));
    }
}

/// Every example of some senses is one of `examples` and belongs to one of
/// the senses.
pub proof fn lemma_examples_of_senses_members(examples: Seq<ExampleRow>, senses: Seq<SenseRow>)
    ensures
        forall|k: int|
            0 <= k < examples_of_senses(examples, senses).len() ==> examples.contains(
                #[trigger] examples_of_senses(examples, senses)[k],
            ) && exists|m: int|
                0 <= m < senses.len() && senses[m].id@ == examples_of_senses(examples, senses)[k].sense_id@,
    decreases senses.len(),
{
    if senses.len() > 0 {
        let prev = examples_of_senses(examples, senses.drop_last());
        let last = senses.last();
        let group = with_key(examples, last.id@);
        lemma_examples_of_senses_members(examples, senses.drop_last());
        crate::rows::lemma_with_key_members(examples, last.id@);
        let all = examples_of_senses(examples, senses);
        assert(all == prev + group);
        assert forall|k: int| 0 <= k < all.len() implies examples.contains(#[trigger] all[k])
            && exists|m: int| 0 <= m < senses.len() && senses[m].id@ == all[k].sense_id@ by {
            if k < prev.len() {
                assert(all[k] == prev[k]);
                let m = choose|m: int| 0 <= m < senses.drop_last().len() && senses.drop_last()[m].id@ == prev[k].sense_id@;
                assert(senses[m] == senses.drop_last()[m]);
            } else {
                assert(all[k] == group[k - prev.len()]);
                assert(group[k - prev.len()].key() == last.id@);
                assert(senses[senses.len() - 1] == last);
            }
        }
    }
}


/// The state and step of a lexicon lookup that started at `start` and was
/// given `replies` in turn; replies that come after its answer are not read.
pub open spec fn lex_feed(start: (LexLookupView, LexStepView), replies: Seq<LexReplyView>) -> (
    LexLookupView,
    LexStepView,
)
    decreases replies.len(),
{
    if replies.len() == 0 {
        start
    } else {
        let prev = lex_feed(start, replies.drop_last());
        if prev.1 is Query {
            lex_resume(prev.0, replies.last())
        } else {
            prev
        }
    }
}

/// Giving one more reply to a lookup that waits for one resumes it.
pub proof fn lemma_lex_feed_push(
    start: (LexLookupView, LexStepView),
    replies: Seq<LexReplyView>,
    reply: LexReplyView,
)
    requires
        lex_feed(start, replies).1 is Query,
    ensures
        lex_feed(start, replies.push(reply)) == lex_resume(lex_feed(start, replies).0, reply),
{
    assert(replies.push(reply).drop_last() =~= replies);
}

/// Whether the lookup that starts at `start`, given some replies, comes to
/// wait in `state`.
pub open spec fn lex_single_reaches(start: (LexLookupView, LexStepView), state: LexLookupView) -> bool {
    exists|replies: Seq<LexReplyView>|
        (#[trigger] lex_feed(start, replies)).0 == state && lex_feed(start, replies).1 is Query
}

/// Whether the lookup that starts at `start`, given some replies, answers
/// with `payloads`.
pub open spec fn lex_single_answers(start: (LexLookupView, LexStepView), payloads: Seq<LexEntryPayloadView>) -> bool {
    exists|replies: Seq<LexReplyView>|
        (#[trigger] lex_feed(start, replies)).1 == LexStepView::Done(Ok(payloads))
}

} // verus!
