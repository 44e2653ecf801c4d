use vstd::prelude::*;
use crate::error::ApiError;
use crate::models::meta::{MetaDbInfo, MetaResponse, SourceRow};

verus! {

/// A query that a database's self-description is made of.
#[derive(Clone, Copy, Debug, PartialEq, Eq, Structural)]
pub enum MetaQuery {
    /// The value of the `schema_version` key of the `meta` table, if any.
    SchemaVersion,
    /// The value of the `build_time` key of the `meta` table, if any.
    BuildTime,
    /// All rows of the `sources` table.
    Sources,
}

/// What the database answered to the last query.
pub enum MetaReply {
    Failed,
    Text(Option<String>),
    Sources(Vec<SourceRow>),
}

pub enum MetaReplyView {
    Failed,
    Text(Option<String>),
    Sources(Seq<SourceRow>),
}

impl View for MetaReply {
    type V = MetaReplyView;

    open spec fn view(&self) -> MetaReplyView {
        match self {
            MetaReply::Failed => MetaReplyView::Failed,
            MetaReply::Text(t) => MetaReplyView::Text(*t),
            MetaReply::Sources(v) => MetaReplyView::Sources(v@),
        }
    }
}

pub struct MetaDbInfoView {
    pub schema_version: Option<String>,
    pub build_time: Option<String>,
    pub sources: Seq<SourceRow>,
}

impl View for MetaDbInfo {
    type V = MetaDbInfoView;

    open spec fn view(&self) -> MetaDbInfoView {
        MetaDbInfoView {
            schema_version: self.schema_version,
            build_time: self.build_time,
            sources: self.sources@,
        }
    }
}

pub struct MetaResponseView {
    pub lex: MetaDbInfoView,
    pub term: MetaDbInfoView,
}

impl View for MetaResponse {
    type V = MetaResponseView;

    open spec fn view(&self) -> MetaResponseView {
        MetaResponseView { lex: self.lex@, term: self.term@ }
    }
}

/// What to do next: run a query, or answer.
pub enum MetaStep {
    Query(MetaQuery),
    Done(Result<MetaDbInfo, ApiError>),
}

pub enum MetaStepView {
    Query(MetaQuery),
    Done(Result<MetaDbInfoView, ApiError>),
}

impl View for MetaStep {
    type V = MetaStepView;

    open spec fn view(&self) -> MetaStepView {
        match self {
            MetaStep::Query(q) => MetaStepView::Query(*q),
            MetaStep::Done(Ok(info)) => MetaStepView::Done(Ok(info@)),
            MetaStep::Done(Err(e)) => MetaStepView::Done(Err(*e)),
        }
    }
}

/// Reading a database's self-description between its queries.
pub enum MetaFetch {
    AwaitingSchemaVersion,
    AwaitingBuildTime { schema_version: Option<String> },
    AwaitingSources { schema_version: Option<String>, build_time: Option<String> },
    Finished,
}

pub open spec fn meta_done(r: Result<MetaDbInfoView, ApiError>) -> (MetaFetch, MetaStepView) {
    (MetaFetch::Finished, MetaStepView::Done(r))
}

/// The next state and step, given the database's reply. A failure to read the
/// schema version or the build time fails the whole; a failure to read the
/// sources leaves them empty. A reply of another kind than awaited counts as
/// a failure.
pub open spec fn meta_resume(state: MetaFetch, reply: MetaReplyView) -> (MetaFetch, MetaStepView) {
    match (state, reply) {
        (MetaFetch::AwaitingSchemaVersion, MetaReplyView::Text(schema_version)) => (
            MetaFetch::AwaitingBuildTime { schema_version },
            MetaStepView::Query(MetaQuery::BuildTime),
        ),
        (MetaFetch::AwaitingBuildTime { schema_version }, MetaReplyView::Text(build_time)) => (
            MetaFetch::AwaitingSources { schema_version, build_time },
            MetaStepView::Query(MetaQuery::Sources),
        ),
        (MetaFetch::AwaitingSources { schema_version, build_time }, MetaReplyView::Sources(sources)) =>
            meta_done(Ok(MetaDbInfoView { schema_version, build_time, sources })),
        (MetaFetch::AwaitingSources { schema_version, build_time }, _) => meta_done(
            Ok(MetaDbInfoView { schema_version, build_time, sources: Seq::empty() }),
        ),
        _ => meta_done(Err(ApiError::DbError)),
    }
}

/// Starts reading a database's self-description.
pub fn fetch_meta_for_db() -> (r: (MetaFetch, MetaStep))
    ensures
        r.0 == MetaFetch::AwaitingSchemaVersion,
        r.1@ == MetaStepView::Query(MetaQuery::SchemaVersion),
{
    (MetaFetch::AwaitingSchemaVersion, MetaStep::Query(MetaQuery::SchemaVersion))
}

fn no_sources() -> (v: Vec<SourceRow>)
    ensures
        v@ == Seq::<SourceRow>::empty(),
{
    let v: Vec<SourceRow> = Vec::new();
    assert(v@ =~= Seq::<SourceRow>::empty());
    v
}

impl MetaFetch {
    /// Takes the database's reply to the last query and says what comes next.
    pub fn resume(self, reply: MetaReply) -> (r: (MetaFetch, MetaStep))
        ensures
            (r.0, r.1@) == meta_resume(self, reply@),
    {
        match (self, reply) {
            (MetaFetch::AwaitingSchemaVersion, MetaReply::Text(schema_version)) => (
                MetaFetch::AwaitingBuildTime { schema_version },
                MetaStep::Query(MetaQuery::BuildTime),
            ),
            (MetaFetch::AwaitingBuildTime { schema_version }, MetaReply::Text(build_time)) => (
                MetaFetch::AwaitingSources { schema_version, build_time },
                MetaStep::Query(MetaQuery::Sources),
            ),
            (MetaFetch::AwaitingSources { schema_version, build_time }, MetaReply::Sources(sources)) => {
                let info = MetaDbInfo { schema_version, build_time, sources };
                (MetaFetch::Finished, MetaStep::Done(Ok(info)))
            },
            (MetaFetch::AwaitingSources { schema_version, build_time }, _) => {
                let info = MetaDbInfo { schema_version, build_time, sources: no_sources() };
                (MetaFetch::Finished, MetaStep::Done(Ok(info)))
            },
            _ => (MetaFetch::Finished, MetaStep::Done(Err(ApiError::DbError))),
        }
    }
}

/// The self-description that stands for a database that could not be read.
pub open spec fn unknown_db() -> MetaDbInfoView {
    MetaDbInfoView { schema_version: None, build_time: None, sources: Seq::empty() }
}

/// The description, or `unknown_db` where reading failed.
pub open spec fn info_or_unknown(r: Result<MetaDbInfoView, ApiError>) -> MetaDbInfoView {
    match r {
        Ok(info) => info,
        Err(_) => unknown_db(),
    }
}

pub open spec fn result_view(r: Result<MetaDbInfo, ApiError>) -> Result<MetaDbInfoView, ApiError> {
    match r {
        Ok(info) => Ok(info@),
        Err(e) => Err(e),
    }
}

fn info_or_empty(r: Result<MetaDbInfo, ApiError>) -> (info: MetaDbInfo)
    ensures
        info@ == info_or_unknown(result_view(r)),
        r matches Ok(read) ==> info@ == read@,
        r is Err ==> info.schema_version is None && info.build_time is None && info.sources@.len() == 0,
{
    match r {
        Ok(info) => info,
        Err(_) => MetaDbInfo { schema_version: None, build_time: None, sources: no_sources() },
    }
}

/// `GET /meta`: what both databases say of themselves; one that could not be
/// read is described as unknown.
pub fn meta(lex: Result<MetaDbInfo, ApiError>, term: Result<MetaDbInfo, ApiError>) -> (r: MetaResponse)
    ensures
        r@ == (MetaResponseView {
            lex: info_or_unknown(result_view(lex)),
            term: info_or_unknown(result_view(term)),
        }),
        lex matches Ok(read) ==> r.lex@ == read@,
        term matches Ok(read) ==> r.term@ == read@,
        lex is Err ==> r.lex.schema_version is None && r.lex.build_time is None && r.lex.sources@.len() == 0,
        term is Err ==> r.term.schema_version is None && r.term.build_time is None && r.term.sources@.len() == 0,
{
    MetaResponse { lex: info_or_empty(lex), term: info_or_empty(term) }
}

} // verus!
