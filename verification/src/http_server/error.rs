use vstd::prelude::*;

use crate::service::error::Error as ServiceError;

verus! {

/// The status code every error of the server answers with: Internal Server Error.
pub const INTERNAL_SERVER_ERROR: u16 = 500;

/// What can go wrong in the HTTP server, each kept as its message.
#[derive(Debug)]
pub enum Error {
    /// An error of the routes the server serves.
    Unknown(String),
    /// A listen address that could not be read.
    AddrParseError(String),
}

impl Error {
    /// The message of the error, which is that of the error it stands for.
    pub open spec fn spec_message(self) -> Seq<char> {
        match self {
            Error::Unknown(m) => m@,
            Error::AddrParseError(m) => m@,
        }
    }

    /// What a request that meets the error is answered: Internal Server Error, with the
    /// message of an error of the routes, and a fixed text for any other error.
    pub open spec fn spec_response(self) -> (u16, Seq<char>) {
        match self {
            Error::Unknown(m) => (INTERNAL_SERVER_ERROR, m@),
            _ => (INTERNAL_SERVER_ERROR, "Unknown error"@),
        }
    }

    /// The status code and the body of the answer to a request that meets the error.
    pub fn into_response(self) -> (r: (u16, String))
        ensures
            r.0 == self.spec_response().0,
            r.1@ == self.spec_response().1,
    {
        match self {
            Error::Unknown(message) => (INTERNAL_SERVER_ERROR, message),
            _ => (INTERNAL_SERVER_ERROR, String::from_str("Unknown error")),
        }
    }

    /// The error as an error of the service, which keeps its message.
    pub fn into_service_error(self) -> (e: ServiceError)
        ensures
            e matches ServiceError::Unknown(m) && m@ == self.spec_message(),
    {
        match self {
            Error::Unknown(message) => ServiceError::Unknown(message),
            Error::AddrParseError(message) => ServiceError::Unknown(message),
        }
    }
}

} // verus!
