//! The uniform error taxonomy that every fallible operation of this crate
//! reports through.

use vstd::prelude::*;

verus! {

/// One of the classified failure kinds a caller can receive.
///
/// - `ApiError`: the remote service answered with a non-success status and a
///   JSON body; the payload is that body, serialized.
/// - `RequestError`: no HTTP response was obtained; the payload is the
///   transport's diagnostic text.
/// - `ParseError`: a response body that was expected to be JSON did not
///   parse; the payload is the offending body text.
/// - `ConfigError`: invalid or missing configuration (credential, endpoint
///   selector, proxy specification), reported at construction time.
#[derive(Debug, Clone, PartialEq, Eq)]
pub enum ClientError {
    ApiError(String),
    RequestError(String),
    ParseError(String),
    ConfigError(String),
}

/// The mathematical image of a `ClientError`: the same four kinds over
/// character sequences.
pub enum ClientErrorV {
    ApiError(Seq<char>),
    RequestError(Seq<char>),
    ParseError(Seq<char>),
    ConfigError(Seq<char>),
}

impl View for ClientError {
    type V = ClientErrorV;

    open spec fn view(&self) -> ClientErrorV {
        match self {
            ClientError::ApiError(m) => ClientErrorV::ApiError(m@),
            ClientError::RequestError(m) => ClientErrorV::RequestError(m@),
            ClientError::ParseError(m) => ClientErrorV::ParseError(m@),
            ClientError::ConfigError(m) => ClientErrorV::ConfigError(m@),
        }
    }
}

impl ClientError {
    /// The text carried by the error, whatever its kind.
    pub fn message(&self) -> (r: &String)
        ensures
            self@ == ClientErrorV::ApiError(r@) || self@ == ClientErrorV::RequestError(r@)
                || self@ == ClientErrorV::ParseError(r@) || self@ == ClientErrorV::ConfigError(r@),
    {
        match self {
            ClientError::ApiError(m) => m,
            ClientError::RequestError(m) => m,
            ClientError::ParseError(m) => m,
            ClientError::ConfigError(m) => m,
        }
    }
}

/// The uniform result type returned by every dispatch operation.
pub type ApiResult<T> = Result<T, ClientError>;

/// The mathematical image of an `ApiResult<String>`.
pub open spec fn outcome_view(r: ApiResult<String>) -> Result<Seq<char>, ClientErrorV> {
    match r {
        Ok(s) => Ok(s@),
        Err(e) => Err(e@),
    }
}

} // verus!
