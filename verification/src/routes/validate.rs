use vstd::prelude::*;
use crate::error::ApiError;
use crate::models::term::opt_view;
use crate::routes::params::{key_is_valid, lang_is_known, validate_key, validate_lang};
use crate::text::copy_opt_string;

verus! {

/// `GET /term/validate`: whether a term is paired with one in the other language, optionally within
/// a domain.
#[derive(Clone, Debug)]
pub struct ValidateQuery {
    pub term: String,
    pub lang: String,
    pub domain: Option<String>,
}

/// The answer to a validation.
#[derive(Clone, Copy, Debug)]
pub struct ValidateResponse {
    pub valid: bool,
}

/// A query of the terminology database made by a validation.
pub enum CheckQuery {
    /// The id of one term in `lang` whose `lookup_key` is `key`.
    SourceTermId { lang: String, key: String },
    /// One pair whose English side (or, when `source_is_en` is false, whose
    /// Irish side) is `source_id`, as (other side, `source_id`).
    PairOfSource { source_is_en: bool, source_id: String },
    /// Whether the term has a domain label that the database matches to
    /// `domain`.
    DomainLinkExists { term_id: String, domain: String },
}

pub enum CheckQueryView {
    SourceTermId { lang: Seq<char>, key: Seq<char> },
    PairOfSource { source_is_en: bool, source_id: Seq<char> },
    DomainLinkExists { term_id: Seq<char>, domain: Seq<char> },
}

impl View for CheckQuery {
    type V = CheckQueryView;

    open spec fn view(&self) -> CheckQueryView {
        match self {
            CheckQuery::SourceTermId { lang, key } => CheckQueryView::SourceTermId {
                lang: lang@,
                key: key@,
            },
            CheckQuery::PairOfSource { source_is_en, source_id } => CheckQueryView::PairOfSource {
                source_is_en: *source_is_en,
                source_id: source_id@,
            },
            CheckQuery::DomainLinkExists { term_id, domain } => CheckQueryView::DomainLinkExists {
                term_id: term_id@,
                domain: domain@,
            },
        }
    }
}

/// What the database answered to the last query of a validation.
pub enum CheckReply {
    Failed,
    MaybeId(Option<String>),
    MaybePair(Option<(String, String)>),
    Found(bool),
}

pub enum CheckReplyView {
    Failed,
    MaybeId(Option<Seq<char>>),
    MaybePair(Option<(Seq<char>, Seq<char>)>),
    Found(bool),
}

impl View for CheckReply {
    type V = CheckReplyView;

    open spec fn view(&self) -> CheckReplyView {
        match self {
            CheckReply::Failed => CheckReplyView::Failed,
            CheckReply::MaybeId(id) => CheckReplyView::MaybeId(opt_view(*id)),
            CheckReply::MaybePair(Some(p)) => CheckReplyView::MaybePair(Some((p.0@, p.1@))),
            CheckReply::MaybePair(None) => CheckReplyView::MaybePair(None),
            CheckReply::Found(b) => CheckReplyView::Found(*b),
        }
    }
}

/// What a validation does next: run a query, or answer.
pub enum CheckStep {
    Query(CheckQuery),
    Done(Result<ValidateResponse, ApiError>),
}

pub enum CheckStepView {
    Query(CheckQueryView),
    Done(Result<bool, ApiError>),
}

impl View for CheckStep {
    type V = CheckStepView;

    open spec fn view(&self) -> CheckStepView {
        match self {
            CheckStep::Query(q) => CheckStepView::Query(q@),
            CheckStep::Done(Ok(r)) => CheckStepView::Done(Ok(r.valid)),
            CheckStep::Done(Err(e)) => CheckStepView::Done(Err(*e)),
        }
    }
}

/// A validation between its queries.
pub enum TermCheck {
    AwaitingSourceId { source_is_en: bool, domain: Option<String> },
    AwaitingPair { domain: Option<String> },
    AwaitingDomainLink,
    Finished,
}

pub enum TermCheckView {
    AwaitingSourceId { source_is_en: bool, domain: Option<Seq<char>> },
    AwaitingPair { domain: Option<Seq<char>> },
    AwaitingDomainLink,
    Finished,
}

impl View for TermCheck {
    type V = TermCheckView;

    open spec fn view(&self) -> TermCheckView {
        match self {
            TermCheck::AwaitingSourceId { source_is_en, domain } => TermCheckView::AwaitingSourceId {
                source_is_en: *source_is_en,
                domain: opt_view(*domain),
            },
            TermCheck::AwaitingPair { domain } => TermCheckView::AwaitingPair {
                domain: opt_view(*domain),
            },
            TermCheck::AwaitingDomainLink => TermCheckView::AwaitingDomainLink,
            TermCheck::Finished => TermCheckView::Finished,
        }
    }
}

pub open spec fn check_done(r: Result<bool, ApiError>) -> (TermCheckView, CheckStepView) {
    (TermCheckView::Finished, CheckStepView::Done(r))
}

/// The start of a validation: the term is checked, then the domain if any,
/// then the language; a refused parameter is answered at once, before any
/// query.
pub open spec fn check_start(term: Seq<char>, lang: Seq<char>, domain: Option<Seq<char>>) -> (
    TermCheckView,
    CheckStepView,
) {
    if !key_is_valid(term) {
        check_done(Err(ApiError::InvalidKey))
    } else if domain matches Some(d) && !key_is_valid(d) {
        check_done(Err(ApiError::InvalidKey))
    } else if !lang_is_known(lang) {
        check_done(Err(ApiError::InvalidLang))
    } else {
        (
            TermCheckView::AwaitingSourceId { source_is_en: lang == "en"@, domain },
            CheckStepView::Query(CheckQueryView::SourceTermId { lang, key: term }),
        )
    }
}

/// The next state and step of a validation, given the database's reply. A
/// term that is not found, or that has no pair, is not valid; without a
/// domain a pair suffices; with one, the pair's other side must have a label
/// that the database matches to the domain. A failed query, or a reply of
/// another kind than awaited, is answered with `DbError`.
pub open spec fn check_resume(state: TermCheckView, reply: CheckReplyView) -> (
    TermCheckView,
    CheckStepView,
) {
    match (state, reply) {
        (
            TermCheckView::AwaitingSourceId { source_is_en, domain },
            CheckReplyView::MaybeId(found),
        ) => match found {
            None => check_done(Ok(false)),
            Some(id) => (
                TermCheckView::AwaitingPair { domain },
                CheckStepView::Query(CheckQueryView::PairOfSource { source_is_en, source_id: id }),
            ),
        },
        (TermCheckView::AwaitingPair { domain }, CheckReplyView::MaybePair(found)) => match found {
            None => check_done(Ok(false)),
            Some(pair) => match domain {
                None => check_done(Ok(true)),
                Some(d) => (
                    TermCheckView::AwaitingDomainLink,
                    CheckStepView::Query(CheckQueryView::DomainLinkExists { term_id: pair.0, domain: d }),
                ),
            },
        },
        (TermCheckView::AwaitingDomainLink, CheckReplyView::Found(exists)) => check_done(Ok(exists)),
        _ => check_done(Err(ApiError::DbError)),
    }
}

/// The state and step of a validation that started at `start` and was given
/// `replies` in turn; replies that come after its answer are not read.
pub open spec fn check_feed(start: (TermCheckView, CheckStepView), replies: Seq<CheckReplyView>) -> (
    TermCheckView,
    CheckStepView,
)
    decreases replies.len(),
{
    if replies.len() == 0 {
        start
    } else {
        let prev = check_feed(start, replies.drop_last());
        if prev.1 is Query {
            check_resume(prev.0, replies.last())
        } else {
            prev
        }
    }
}

impl TermCheck {
    /// Takes the database's reply to the last query and says what comes next.
    pub fn resume(self, reply: CheckReply) -> (r: (TermCheck, CheckStep))
        ensures
            (r.0@, r.1@) == check_resume(self@, reply@),
    {
        match (self, reply) {
            (TermCheck::AwaitingSourceId { source_is_en, domain }, CheckReply::MaybeId(found)) => {
                match found {
                    None => (TermCheck::Finished, CheckStep::Done(Ok(ValidateResponse { valid: false }))),
                    Some(id) => (
                        TermCheck::AwaitingPair { domain },
                        CheckStep::Query(CheckQuery::PairOfSource { source_is_en, source_id: id }),
                    ),
                }
            },
            (TermCheck::AwaitingPair { domain }, CheckReply::MaybePair(found)) => match found {
                None => (TermCheck::Finished, CheckStep::Done(Ok(ValidateResponse { valid: false }))),
                Some(pair) => match domain {
                    None => (TermCheck::Finished, CheckStep::Done(Ok(ValidateResponse { valid: true }))),
                    Some(d) => (
                        TermCheck::AwaitingDomainLink,
                        CheckStep::Query(CheckQuery::DomainLinkExists { term_id: pair.0, domain: d }),
                    ),
                },
            },
            (TermCheck::AwaitingDomainLink, CheckReply::Found(exists)) => (
                TermCheck::Finished,
                CheckStep::Done(Ok(ValidateResponse { valid: exists })),
            ),
            _ => (TermCheck::Finished, CheckStep::Done(Err(ApiError::DbError))),
        }
    }
}

/// `GET /term/validate`: starts a validation.
pub fn validate(q: &ValidateQuery) -> (r: (TermCheck, CheckStep))
    ensures
        (r.0@, r.1@) == check_start(q.term@, q.lang@, opt_view(q.domain)),
{
    if let Err(e) = validate_key(q.term.as_str()) {
        return (TermCheck::Finished, CheckStep::Done(Err(e)));
    }
    if let Some(d) = &q.domain {
        if let Err(e) = validate_key(d.as_str()) {
            return (TermCheck::Finished, CheckStep::Done(Err(e)));
        }
    }
    if let Err(e) = validate_lang(&q.lang) {
        return (TermCheck::Finished, CheckStep::Done(Err(e)));
    }
    let source_is_en = q.lang == String::from_str("en");
    let query = CheckQuery::SourceTermId { lang: q.lang.clone(), key: q.term.clone() };
    (TermCheck::AwaitingSourceId { source_is_en, domain: copy_opt_string(&q.domain) }, CheckStep::Query(query))
}

} // verus!
