use vstd::prelude::*;

verus! {

/// Why a request was refused: a bad parameter (answered with 400) or a
/// failed database query (answered with 500).
#[derive(Clone, Copy, Debug, PartialEq, Eq, Structural)]
pub enum ApiError {
    InvalidLimit,
    InvalidKey,
    InvalidLang,
    DbError,
}

impl ApiError {
    /// Whether the error lies with the caller's parameters.
    pub open spec fn is_bad_request(self) -> bool {
        !(self is DbError)
    }

    /// The HTTP status that answers the error.
    pub open spec fn status_code(self) -> u16 {
        if self.is_bad_request() { 400 } else { 500 }
    }

    /// The text of the answer.
    pub open spec fn reason(self) -> Seq<char> {
        match self {
            ApiError::InvalidLimit => "invalid limit"@,
            ApiError::InvalidKey => "invalid key"@,
            ApiError::InvalidLang => "invalid lang"@,
            ApiError::DbError => "db error"@,
        }
    }

    pub fn status(&self) -> (code: u16)
        ensures
            code == self.status_code(),
    {
        match self {
            ApiError::DbError => 500,
            _ => 400,
        }
    }

    pub fn message(&self) -> (text: &'static str)
        ensures
            text@ == self.reason(),
    {
        match self {
            ApiError::InvalidLimit => "invalid limit",
            ApiError::InvalidKey => "invalid key",
            ApiError::InvalidLang => "invalid lang",
            ApiError::DbError => "db error",
        }
    }
}

} // verus!
