//! Credentials, endpoint selection, and the transport client.

use vstd::prelude::*;

use crate::error::{ApiResult, ClientError, ClientErrorV};
use crate::transport::{agent_default, agent_with_proxy, proxy_parse, proxy_wf};

verus! {

/// The secret used to authenticate every call. The secret is accepted as
/// given: the remote API is its sole validator.
#[derive(Debug, Clone)]
pub struct Auth {
    pub api_key: String,
}

impl Auth {
    /// A credential holding exactly the given secret.
    pub fn new(api_key: &str) -> (r: Auth)
        ensures
            r.api_key@ == api_key@,
    {
        Auth { api_key: api_key.to_owned() }
    }

    /// A credential from the looked-up value of the credential environment
    /// variable: the value itself when it is set, a configuration error when
    /// it is not.
    pub fn from_env_value(value: Option<String>) -> (r: ApiResult<Auth>)
        ensures
            value matches Some(k) ==> (r matches Ok(a) && a.api_key@ == k@),
            value is None ==> (r matches Err(e) && e@ == ClientErrorV::ConfigError(
                "Missing API_KEY"@,
            )),
    {
        match value {
            Some(api_key) => Ok(Auth { api_key }),
            None => Err(ClientError::ConfigError("Missing API_KEY".to_owned())),
        }
    }
}

/// Which API family a client instance targets. Metadata only: dispatch does
/// not depend on it.
#[derive(Debug, Clone, Copy, PartialEq, Eq, Structural)]
pub enum ApiType {
    Audio,
    Chat,
    Completions,
    Images,
}

/// The endpoint selector denoted by a selector token, if any: exactly the
/// four lowercase tokens are recognized, case-sensitively.
pub open spec fn api_type_of(s: Seq<char>) -> Option<ApiType> {
    if s == "audio"@ {
        Some(ApiType::Audio)
    } else if s == "chat"@ {
        Some(ApiType::Chat)
    } else if s == "completions"@ {
        Some(ApiType::Completions)
    } else if s == "images"@ {
        Some(ApiType::Images)
    } else {
        None
    }
}

/// The endpoint selector denoted by the looked-up value of the selector
/// environment variable, if the variable was set to a recognized token.
pub open spec fn api_type_lookup(value: Option<String>) -> Option<ApiType> {
    match value {
        Some(s) => api_type_of(s@),
        None => None,
    }
}

impl ApiType {
    /// The endpoint selector from the looked-up value of the selector
    /// environment variable. Fails closed: an absent variable or an
    /// unrecognized token is a configuration error, never a silent default.
    pub fn from_env_value(value: Option<String>) -> (r: ApiResult<ApiType>)
        ensures
            api_type_lookup(value) matches Some(t) ==> r == Ok::<ApiType, ClientError>(t),
            api_type_lookup(value) is None ==> (r matches Err(e) && e@ == ClientErrorV::ConfigError(
                "Invalid or missing API_TYPE"@,
            )),
    {
        match value {
            Some(s) => {
                if s == "audio".to_owned() {
                    Ok(ApiType::Audio)
                } else if s == "chat".to_owned() {
                    Ok(ApiType::Chat)
                } else if s == "completions".to_owned() {
                    Ok(ApiType::Completions)
                } else if s == "images".to_owned() {
                    Ok(ApiType::Images)
                } else {
                    Err(ClientError::ConfigError("Invalid or missing API_TYPE".to_owned()))
                }
            },
            None => Err(ClientError::ConfigError("Invalid or missing API_TYPE".to_owned())),
        }
    }
}

/// The transport client: one credential, one base URL, one endpoint
/// selector, and the transport execution context (which owns the optional
/// proxy configuration). Reconfiguring the proxy consumes the client and
/// yields a new value; a client in someone else's hands is never mutated.
#[derive(Debug, Clone)]
pub struct OpenAI {
    pub auth: Auth,
    pub api_url: String,
    pub api_type: ApiType,
    pub agent: ureq::Agent,
}

impl OpenAI {
    /// A client with default transport settings and no proxy. Construction
    /// never fails.
    pub fn new(auth: Auth, api_url: &str, api_type: ApiType) -> (r: OpenAI)
        ensures
            r.auth == auth,
            r.api_url@ == api_url@,
            r.api_type == api_type,
    {
        OpenAI { auth, api_url: api_url.to_owned(), api_type, agent: agent_default() }
    }

    /// The client rebuilt to route through the given proxy. A proxy
    /// specification the transport's parser refuses is a configuration
    /// error, and exactly those are.
    pub fn set_proxy(self, proxy: &str) -> (r: ApiResult<OpenAI>)
        ensures
            r is Ok <==> proxy_wf(proxy@),
            r matches Ok(c) ==> c.auth == self.auth && c.api_url == self.api_url && c.api_type
                == self.api_type,
            r matches Err(e) ==> e@ == ClientErrorV::ConfigError("Invalid proxy specification"@),
    {
        match proxy_parse(proxy) {
            Some(parsed) => Ok(
                OpenAI {
                    auth: self.auth,
                    api_url: self.api_url,
                    api_type: self.api_type,
                    agent: agent_with_proxy(parsed),
                },
            ),
            None => Err(ClientError::ConfigError("Invalid proxy specification".to_owned())),
        }
    }

    /// The client reconfigured from the looked-up values of the two proxy
    /// environment variables: the http value when set, else the https value
    /// when set (applied exactly as `set_proxy` applies an explicit one),
    /// else the client unchanged.
    pub fn with_proxy_settings(self, http_proxy: Option<String>, https_proxy: Option<String>) -> (r:
        ApiResult<OpenAI>)
        ensures
            chosen_proxy(http_proxy, https_proxy) matches Some(p) ==> {
                &&& r is Ok <==> proxy_wf(p)
                &&& r matches Ok(c) ==> c.auth == self.auth && c.api_url == self.api_url
                    && c.api_type == self.api_type
                &&& r matches Err(e) ==> e@ == ClientErrorV::ConfigError("Invalid proxy specification"@)
            },
            chosen_proxy(http_proxy, https_proxy) is None ==> r == Ok::<OpenAI, ClientError>(self),
    {
        match http_proxy {
            Some(p) => self.set_proxy(p.as_str()),
            None => match https_proxy {
                Some(p) => self.set_proxy(p.as_str()),
                None => Ok(self),
            },
        }
    }
}

/// Which proxy setting a client picks: the http one when set, else the
/// https one.
pub open spec fn chosen_proxy(http_proxy: Option<String>, https_proxy: Option<String>) -> Option<
    Seq<char>,
> {
    match http_proxy {
        Some(p) => Some(p@),
        None => match https_proxy {
            Some(p) => Some(p@),
            None => None,
        },
    }
}

} // verus!
