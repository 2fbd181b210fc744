//! The three dispatch operations. Every one performs a single blocking HTTP
//! round trip and funnels its outcome through the response normalizer.

use vstd::prelude::*;

use crate::error::{outcome_view, ApiResult};
use crate::openai::OpenAI;
use crate::outcome::{normal_of, normalize, RawOutcome, RawOutcomeV};
use crate::transport::{get_text, post_bytes, post_text, response_text, split_error, CallFailure};

verus! {

/// A prepared multipart request payload: the encoded byte stream and the
/// boundary token that delimits its parts.
#[derive(Debug, Clone)]
pub struct Multipart {
    pub bytes: Vec<u8>,
    pub boundary: String,
}

impl Multipart {
    /// A payload holding exactly the given bytes and boundary token.
    pub fn new(bytes: Vec<u8>, boundary: String) -> (r: Multipart)
        ensures
            r.bytes@ == bytes@,
            r.boundary@ == boundary@,
    {
        Multipart { bytes, boundary }
    }
}

/// Whether a dispatch result is one the response normalizer can produce:
/// the normalization of some transport outcome. In particular it is never a
/// configuration error.
pub open spec fn normalized_outcome(r: ApiResult<String>) -> bool {
    exists|raw: RawOutcomeV| outcome_view(r) == #[trigger] normal_of(raw)
}

/// The dispatch operations a transport client offers. Each performs one
/// synchronous round trip, attaches the credential and content-type headers,
/// and returns the normalization of whatever the transport produced.
pub trait Requests {
    /// POST the JSON text as the request body.
    fn post(&self, body: &str) -> (r: ApiResult<String>)
        ensures
            normalized_outcome(r),
            r matches Err(e) ==> !(e@ is ConfigError),
    ;

    /// POST the prepared multipart payload as the request body.
    fn post_multipart(&self, multipart: Multipart) -> (r: ApiResult<String>)
        ensures
            normalized_outcome(r),
            r matches Err(e) ==> !(e@ is ConfigError),
    ;

    /// GET with no request body.
    fn get(&self) -> (r: ApiResult<String>)
        ensures
            normalized_outcome(r),
            r matches Err(e) ==> !(e@ is ConfigError),
    ;
}

impl Requests for OpenAI {
    fn post(&self, body: &str) -> (r: ApiResult<String>) {
        let response = post_text(
            &self.agent,
            self.api_url.as_str(),
            self.auth.api_key.as_str(),
            body,
        );
        deal_response(response)
    }

    fn post_multipart(&self, multipart: Multipart) -> (r: ApiResult<String>) {
        let response = post_bytes(
            &self.agent,
            self.api_url.as_str(),
            self.auth.api_key.as_str(),
            multipart.boundary.as_str(),
            multipart.bytes.as_slice(),
        );
        deal_response(response)
    }

    fn get(&self) -> (r: ApiResult<String>) {
        let response = get_text(&self.agent, self.api_url.as_str(), self.auth.api_key.as_str());
        deal_response(response)
    }
}

/// Normalize a raw transport result. Every dispatch path passes through here
/// before returning to the caller.
fn deal_response(response: Result<ureq::Response, ureq::Error>) -> (r: ApiResult<String>)
    ensures
        normalized_outcome(r),
        r matches Err(e) ==> !(e@ is ConfigError),
{
    normalize(collect_outcome(response))
}

/// Reduce the transport result to plain values: the body text of the
/// response that arrived (with its status where it was a non-success one),
/// or the diagnostic of the failure that kept one from arriving — a body
/// that cannot be read counts as such a failure.
fn collect_outcome(response: Result<ureq::Response, ureq::Error>) -> RawOutcome {
    match response {
        Ok(resp) => match response_text(resp) {
            Ok(body) => RawOutcome::Success { body },
            Err(diagnostic) => RawOutcome::Failure { diagnostic },
        },
        Err(err) => match split_error(err) {
            CallFailure::Status(status, resp) => match response_text(resp) {
                Ok(body) => RawOutcome::HttpError { status, body },
                Err(diagnostic) => RawOutcome::Failure { diagnostic },
            },
            CallFailure::Transport(diagnostic) => RawOutcome::Failure { diagnostic },
        },
    }
}

} // verus!
