//! The trusted boundary to the HTTP transport (ureq). Everything here either
//! declares a transport type or wraps one call into it; the rest of the
//! crate works on the plain values these wrappers hand back.

use vstd::prelude::*;

verus! {

#[verifier::external_type_specification]
#[verifier::external_body]
pub struct ExAgent(ureq::Agent);

#[verifier::external_type_specification]
#[verifier::external_body]
pub struct ExProxy(ureq::Proxy);

#[verifier::external_type_specification]
#[verifier::external_body]
pub struct ExResponse(ureq::Response);

#[verifier::external_type_specification]
#[verifier::external_body]
pub struct ExError(ureq::Error);

/// Relies on `ureq::Agent`'s derived `Clone`: cloning a client clones its
/// execution context (agents share pooled state internally).
pub assume_specification[ <ureq::Agent as Clone>::clone ](agent: &ureq::Agent) -> ureq::Agent;

/// Relies on `ureq::AgentBuilder::new` and `build`: an agent with default
/// transport settings and no proxy; building one always succeeds.
#[verifier::external_body]
pub(crate) fn agent_default() -> ureq::Agent {
    ureq::AgentBuilder::new().build()
}

/// Whether ureq's proxy parser accepts the specification string
/// (`<protocol>://<user>:<password>@<host>:port`, all parts but the host
/// optional).
pub uninterp spec fn proxy_wf(s: Seq<char>) -> bool;

/// Relies on `ureq::Proxy::new`: parses the proxy specification string;
/// acceptance is a function of the string alone.
#[verifier::external_body]
pub(crate) fn proxy_parse(proxy: &str) -> (r: Option<ureq::Proxy>)
    ensures
        r is Some <==> proxy_wf(proxy@),
{
    ureq::Proxy::new(proxy).ok()
}

/// Relies on `ureq::AgentBuilder::proxy` and `build`: an agent with default
/// settings that routes every call through the given proxy.
#[verifier::external_body]
pub(crate) fn agent_with_proxy(proxy: ureq::Proxy) -> ureq::Agent {
    ureq::AgentBuilder::new().proxy(proxy).build()
}

/// Relies on `Agent::post`, `Request::set` and `Request::send_string`: one
/// blocking POST of the body text to the URL, with `Content-Type:
/// application/json` and the secret under the `api-key` header. What comes
/// back depends on the network: nothing is promised of it.
#[verifier::external_body]
pub(crate) fn post_text(
    agent: &ureq::Agent,
    url: &str,
    api_key: &str,
    body: &str,
) -> Result<ureq::Response, ureq::Error> {
    agent
        .post(url)
        .set("Content-Type", "application/json")
        .set("api-key", api_key)
        .send_string(body)
}

/// Relies on `Agent::post`, `Request::set` and `Request::send_bytes`: one
/// blocking POST of the prepared multipart bytes, with `Content-Type:
/// multipart/form-data; boundary=<token>` and the secret under the
/// `api-key` header. What comes back depends on the network.
#[verifier::external_body]
pub(crate) fn post_bytes(
    agent: &ureq::Agent,
    url: &str,
    api_key: &str,
    boundary: &str,
    bytes: &[u8],
) -> Result<ureq::Response, ureq::Error> {
    agent
        .post(url)
        .set("Content-Type", &format!("multipart/form-data; boundary={}", boundary))
        .set("api-key", api_key)
        .send_bytes(bytes)
}

/// Relies on `Agent::get`, `Request::set` and `Request::call`: one blocking
/// GET of the URL, with `Content-Type: application/json` and the secret
/// under the `api-key` header, no body. What comes back depends on the
/// network.
#[verifier::external_body]
pub(crate) fn get_text(
    agent: &ureq::Agent,
    url: &str,
    api_key: &str,
) -> Result<ureq::Response, ureq::Error> {
    agent
        .get(url)
        .set("Content-Type", "application/json")
        .set("api-key", api_key)
        .call()
}

/// Relies on `Response::into_string`: reads the response body as text (the
/// transport caps how much it reads); the read is a network read and can
/// fail, in which case the error's description is returned.
#[verifier::external_body]
pub(crate) fn response_text(response: ureq::Response) -> Result<String, String> {
    match response.into_string() {
        Ok(body) => Ok(body),
        Err(e) => Err(e.to_string()),
    }
}

/// The two ways a transport call fails: the service answered with a
/// non-success status (the response is kept), or no response was obtained
/// (only a diagnostic is known).
pub(crate) enum CallFailure {
    Status(u16, ureq::Response),
    Transport(String),
}

/// Relies on `ureq::Error`'s two variants: `Status` keeps its code and
/// response, `Transport` is reduced to its diagnostic text.
#[verifier::external_body]
pub(crate) fn split_error(err: ureq::Error) -> CallFailure {
    match err {
        ureq::Error::Status(status, response) => CallFailure::Status(status, response),
        ureq::Error::Transport(t) => CallFailure::Transport(t.to_string()),
    }
}

} // verus!
