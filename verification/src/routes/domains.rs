use vstd::prelude::*;
use crate::error::ApiError;
use crate::routes::params::{key_is_valid, lang_is_known, validate_key, validate_lang};
use crate::text::{copy_opt_string, decode_amp, decode_amp_entities};

verus! {

/// A domain label and the number of terms filed under it.
#[derive(Clone, Debug)]
pub struct DomainCountRow {
    pub label: String,
    pub count: i64,
}

/// `GET /term/domains`: every domain label with its number of terms.
#[derive(Clone, Debug)]
pub struct DomainsResponse {
    pub domains: Vec<DomainCountRow>,
}

/// `GET /term/domains`: the answer made of the rows, in the order the database
/// gave them (by label).
pub fn domains(rows: Vec<DomainCountRow>) -> (r: DomainsResponse)
    ensures
        r.domains@ == rows@,
{
    DomainsResponse { domains: rows }
}

/// `GET /term/domains/search`: the domains whose label contains a text.
#[derive(Clone, Debug)]
pub struct DomainSearchQuery {
    pub q: String,
    pub limit: Option<i64>,
}

/// A domain found by a search, with its number of terms.
#[derive(Clone, Debug)]
pub struct DomainSearchRow {
    pub label: String,
    pub count: i64,
}

#[derive(Clone, Debug)]
pub struct DomainSearchResponse {
    pub domains: Vec<DomainSearchRow>,
}

/// The parameters of the search query: the `LIKE` pattern and the limit.
#[derive(Clone, Debug)]
pub struct DomainSearchPlan {
    pub pattern: String,
    pub limit: i64,
}

/// The number of domains that a search returns when it names no limit.
pub const DEFAULT_SEARCH_LIMIT: i64 = 20;

/// The most domains that a search returns.
pub const MAX_SEARCH_LIMIT: i64 = 100;

/// The limit of a search: the one named, or the default, and no more than the
/// maximum.
pub open spec fn search_limit(limit: Option<i64>) -> i64 {
    let n = match limit {
        Some(n) => n,
        None => DEFAULT_SEARCH_LIMIT,
    };
    if n < MAX_SEARCH_LIMIT {
        n
    } else {
        MAX_SEARCH_LIMIT
    }
}

/// The pattern that matches labels containing `text`, with `&amp;` read as
/// `&`.
pub open spec fn contains_pattern(text: Seq<char>) -> Seq<char> {
    "%"@ + decode_amp_entities(text) + "%"@
}

/// `GET /term/domains/search`: checks the text and makes the query's
/// parameters.
pub fn domains_search(q: &DomainSearchQuery) -> (r: Result<DomainSearchPlan, ApiError>)
    ensures
        r is Ok <==> key_is_valid(q.q@),
        r is Err ==> r == Err::<DomainSearchPlan, ApiError>(ApiError::InvalidKey),
        r matches Ok(plan) ==> plan.pattern@ == contains_pattern(q.q@) && plan.limit == search_limit(
            q.limit,
        ),
{
    validate_key(q.q.as_str())?;
    let n = match q.limit {
        Some(n) => n,
        None => DEFAULT_SEARCH_LIMIT,
    };
    let limit = if n < MAX_SEARCH_LIMIT {
        n
    } else {
        MAX_SEARCH_LIMIT
    };
    let text = decode_amp(q.q.as_str());
    let pattern = String::from_str("%").concat(text.as_str()).concat("%");
    Ok(DomainSearchPlan { pattern, limit })
}

/// `GET /term/domains/search`: the answer made of the rows found.
pub fn domain_search_response(rows: Vec<DomainSearchRow>) -> (r: DomainSearchResponse)
    ensures
        r.domains@ == rows@,
{
    DomainSearchResponse { domains: rows }
}

/// `GET /term/vocab`: the term pairs filed under a domain.
#[derive(Clone, Debug)]
pub struct VocabQuery {
    pub domain: String,
    pub lang: Option<String>,
    pub limit: Option<i64>,
}

/// A term pair of a domain.
#[derive(Clone, Debug)]
pub struct VocabEntry {
    pub ga: String,
    pub en: String,
    pub pos: Option<String>,
}

#[derive(Clone, Debug)]
pub struct VocabResponse {
    pub domain: String,
    pub lang: String,
    pub count: usize,
    pub terms: Vec<VocabEntry>,
}

/// The parameters of the vocabulary query, and the language to report.
#[derive(Clone, Debug)]
pub struct VocabPlan {
    pub domain: String,
    pub lang: String,
    pub limit: i64,
}

/// The number of pairs that a vocabulary returns when it names no limit.
pub const DEFAULT_VOCAB_LIMIT: i64 = 200;

/// The most pairs that a vocabulary returns.
pub const MAX_VOCAB_LIMIT: i64 = 500;

/// The limit of a vocabulary: the one named, or the default, and no more than
/// the maximum.
pub open spec fn vocab_limit(limit: Option<i64>) -> i64 {
    let n = match limit {
        Some(n) => n,
        None => DEFAULT_VOCAB_LIMIT,
    };
    if n < MAX_VOCAB_LIMIT {
        n
    } else {
        MAX_VOCAB_LIMIT
    }
}

/// The language of a vocabulary: the one named, or Irish.
pub open spec fn vocab_lang(lang: Option<String>) -> Seq<char> {
    match lang {
        Some(l) => l@,
        None => "ga"@,
    }
}

/// `GET /term/vocab`: checks the domain, then the language, and makes the
/// query's parameters; the domain is matched with `&amp;` read as `&`.
pub fn vocab(q: &VocabQuery) -> (r: Result<VocabPlan, ApiError>)
    ensures
        !key_is_valid(q.domain@) ==> r == Err::<VocabPlan, ApiError>(ApiError::InvalidKey),
        key_is_valid(q.domain@) && !lang_is_known(vocab_lang(q.lang)) ==> r == Err::<
            VocabPlan,
            ApiError,
        >(ApiError::InvalidLang),
        key_is_valid(q.domain@) && lang_is_known(vocab_lang(q.lang)) ==> r is Ok,
        r matches Ok(plan) ==> plan.domain@ == decode_amp_entities(q.domain@) && plan.lang@
            == vocab_lang(q.lang) && plan.limit == vocab_limit(q.limit),
{
    validate_key(q.domain.as_str())?;
    let n = match q.limit {
        Some(n) => n,
        None => DEFAULT_VOCAB_LIMIT,
    };
    let limit = if n < MAX_VOCAB_LIMIT {
        n
    } else {
        MAX_VOCAB_LIMIT
    };
    let lang = match &q.lang {
        Some(l) => l.clone(),
        None => String::from_str("ga"),
    };
    validate_lang(&lang)?;
    let domain = decode_amp(q.domain.as_str());
    Ok(VocabPlan { domain, lang, limit })
}

/// A vocabulary pair made of a row (Irish term, English term, part of speech).
pub open spec fn entry_of(row: (String, String, Option<String>)) -> VocabEntry {
    VocabEntry { ga: row.0, en: row.1, pos: row.2 }
}

/// `GET /term/vocab`: the answer made of the rows found, with the domain as it
/// was asked for and their number.
pub fn vocab_response(domain: &String, plan: &VocabPlan, rows: Vec<(String, String, Option<String>)>) -> (r: VocabResponse)
    ensures
        r.domain == *domain,
        r.lang == plan.lang,
        r.count == rows@.len(),
        r.terms@ == rows@.map_values(|row: (String, String, Option<String>)| entry_of(row)),
{
    let mut terms: Vec<VocabEntry> = Vec::new();
    let mut i: usize = 0;
    let ghost all = rows@;
    while i < rows.len()
        invariant
            rows@ == all,
            i <= rows.len(),
            terms@ == all.take(i as int).map_values(|row: (String, String, Option<String>)| entry_of(row)),
        decreases rows.len() - i,
    {
        let row = &rows[i];
        terms.push(VocabEntry { ga: row.0.clone(), en: row.1.clone(), pos: copy_opt_string(&row.2) });
        i = i + 1;
        assert(terms@ =~= all.take(i as int).map_values(|row: (String, String, Option<String>)| entry_of(row)));
    }
    assert(all.take(all.len() as int) =~= all);
    let count = terms.len();
    VocabResponse { domain: domain.clone(), lang: plan.lang.clone(), count, terms }
}

} // verus!
