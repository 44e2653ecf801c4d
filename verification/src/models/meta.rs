use vstd::prelude::*;
use crate::text::copy_opt_string;

verus! {

/// A source that the database was built from.
#[derive(Clone, Debug)]
pub struct SourceRow {
    pub id: String,
    pub name: Option<String>,
    pub version: Option<String>,
    pub license: Option<String>,
    pub url: Option<String>,
}

impl SourceRow {
    /// A copy of the row.
    pub fn duplicate(&self) -> (r: Self)
        ensures
            r == *self,
    {
        SourceRow {
            id: self.id.clone(),
            name: copy_opt_string(&self.name),
            version: copy_opt_string(&self.version),
            license: copy_opt_string(&self.license),
            url: copy_opt_string(&self.url),
        }
    }
}

/// The answer to a health probe.
#[derive(Clone, Debug)]
pub struct HealthResponse {
    pub status: &'static str,
}

/// What a database says of itself.
#[derive(Clone, Debug)]
pub struct MetaDbInfo {
    pub schema_version: Option<String>,
    pub build_time: Option<String>,
    pub sources: Vec<SourceRow>,
}

/// What both databases say of themselves.
#[derive(Clone, Debug)]
pub struct MetaResponse {
    pub lex: MetaDbInfo,
    pub term: MetaDbInfo,
}

} // verus!
