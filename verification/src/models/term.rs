use vstd::prelude::*;
use crate::text::copy_opt_string;
use crate::rows::Keyed;

verus! {

/// A term in one language.
#[derive(Clone, Debug)]
pub struct TermRow {
    pub id: String,
    pub lang: String,
    pub term: String,
    pub pos: Option<String>,
    pub lookup_key: String,
    pub source_id: String,
}

impl Keyed for TermRow {
    open spec fn key(&self) -> Seq<char> {
        self.id@
    }

    fn key_of(&self) -> (k: &String) {
        &self.id
    }

    fn duplicate(&self) -> (r: Self) {
        TermRow {
            id: self.id.clone(),
            lang: self.lang.clone(),
            term: self.term.clone(),
            pos: copy_opt_string(&self.pos),
            lookup_key: self.lookup_key.clone(),
            source_id: self.source_id.clone(),
        }
    }
}

/// One side of a term pair.
#[derive(Clone, Debug)]
pub struct TermSide {
    pub term_id: String,
    pub term: String,
    pub pos: Option<String>,
    pub domains: Vec<String>,
    pub source_id: String,
}

/// A term pair: its Irish side and its English side.
#[derive(Clone, Debug)]
pub struct TermPairPayload {
    pub ga: TermSide,
    pub en: TermSide,
}

/// The answer to a term query.
#[derive(Clone, Debug)]
pub struct TermQueryResponse {
    pub query: QueryEcho,
    pub matches: Vec<TermPairPayload>,
}

/// The query, as it was asked.
#[derive(Clone, Debug)]
pub struct QueryEcho {
    pub term: String,
    pub lang: String,
    pub domain: Option<String>,
}


pub struct TermSideView {
    pub term_id: String,
    pub term: String,
    pub pos: Option<String>,
    pub domains: Seq<String>,
    pub source_id: String,
}

impl View for TermSide {
    type V = TermSideView;

    open spec fn view(&self) -> TermSideView {
        TermSideView {
            term_id: self.term_id,
            term: self.term,
            pos: self.pos,
            domains: self.domains@,
            source_id: self.source_id,
        }
    }
}

pub struct TermPairView {
    pub ga: TermSideView,
    pub en: TermSideView,
}

impl View for TermPairPayload {
    type V = TermPairView;

    open spec fn view(&self) -> TermPairView {
        TermPairView { ga: self.ga@, en: self.en@ }
    }
}

/// The views of a list of pairs.
pub open spec fn pair_views(ps: Seq<TermPairPayload>) -> Seq<TermPairView> {
    ps.map_values(|p: TermPairPayload| p@)
}

/// An optional string, read as an optional sequence of characters.
pub open spec fn opt_view(o: Option<String>) -> Option<Seq<char>> {
    match o {
        Some(s) => Some(s@),
        None => None,
    }
}

pub struct QueryEchoView {
    pub term: Seq<char>,
    pub lang: Seq<char>,
    pub domain: Option<Seq<char>>,
}

impl View for QueryEcho {
    type V = QueryEchoView;

    open spec fn view(&self) -> QueryEchoView {
        QueryEchoView { term: self.term@, lang: self.lang@, domain: opt_view(self.domain) }
    }
}

pub struct TermQueryResponseView {
    pub query: QueryEchoView,
    pub matches: Seq<TermPairView>,
}

impl View for TermQueryResponse {
    type V = TermQueryResponseView;

    open spec fn view(&self) -> TermQueryResponseView {
        TermQueryResponseView { query: self.query@, matches: pair_views(self.matches@) }
    }
}

/// The views of a list of responses.
pub open spec fn response_views(rs: Seq<TermQueryResponse>) -> Seq<TermQueryResponseView> {
    rs.map_values(|r: TermQueryResponse| r@)
}

impl QueryEcho {
    /// A copy of the echo.
    pub fn duplicate(&self) -> (r: QueryEcho)
        ensures
            r == *self,
    {
        QueryEcho {
            term: self.term.clone(),
            lang: self.lang.clone(),
            domain: copy_opt_string(&self.domain),
        }
    }
}

} // verus!
