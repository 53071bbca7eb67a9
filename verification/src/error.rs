//! Errors answered by the endpoints, with their text body and HTTP status.

use vstd::prelude::*;
use vstd::string::*;

verus! {

/// Common errors of the calendar endpoints (text body, with no internal detail).
#[derive(Clone, Copy, Debug, PartialEq, Eq, Structural)]
pub enum ApiError {
    BadRequest,
    Forbidden,
    NotFound,
    Conflict,
    DatabaseError,
}

impl ApiError {
    /// The body of the error response.
    pub open spec fn text(self) -> Seq<char> {
        match self {
            ApiError::BadRequest => "Bad request."@,
            ApiError::Forbidden => "Forbidden."@,
            ApiError::NotFound => "Unknown event."@,
            ApiError::Conflict => "Conflict."@,
            ApiError::DatabaseError => "An error occurred while accessing the database."@,
        }
    }

    /// The HTTP status of the error response.
    pub open spec fn status(self) -> u16 {
        match self {
            ApiError::BadRequest => 400,
            ApiError::Forbidden => 403,
            ApiError::NotFound => 404,
            ApiError::Conflict => 409,
            ApiError::DatabaseError => 500,
        }
    }

    /// The body of the error response.
    pub fn message(&self) -> (s: &'static str)
        ensures
            s@ == self.text(),
    {
        proof {
            reveal_strlit("Bad request.");
            reveal_strlit("Forbidden.");
            reveal_strlit("Unknown event.");
            reveal_strlit("Conflict.");
            reveal_strlit("An error occurred while accessing the database.");
        }
        match self {
            ApiError::BadRequest => "Bad request.",
            ApiError::Forbidden => "Forbidden.",
            ApiError::NotFound => "Unknown event.",
            ApiError::Conflict => "Conflict.",
            ApiError::DatabaseError => "An error occurred while accessing the database.",
        }
    }

    /// The body of the error response, as an owned text.
    pub fn to_string(&self) -> (s: String)
        ensures
            s@ == self.text(),
    {
        String::from_str(self.message())
    }

    /// The HTTP status of the error response.
    pub fn status_code(&self) -> (code: u16)
        ensures
            code == self.status(),
    {
        match self {
            ApiError::BadRequest => 400,
            ApiError::Forbidden => 403,
            ApiError::NotFound => 404,
            ApiError::Conflict => 409,
            ApiError::DatabaseError => 500,
        }
    }
}

} // verus!
