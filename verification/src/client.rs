//! The API client configuration and the exact text of each request.
//!
//! A client owns the API key and the base URL. It does no transport work
//! itself: it states, to the character, the URL and the authorization header
//! value of a request, so the caller that performs the transfer sends exactly
//! what is specified. The parameter set is appended as a literal query string
//! joined with `&`; no percent-encoding is applied.

use vstd::prelude::*;

verus! {

use crate::params::{Params, join_amp};
use vstd::string::StringExecFns;

/// API client configuration: the API key and the base URL, fixed at
/// construction.
pub struct RocketLaunchLive {
    key: String,
    url: String,
}

/// The query-string part of a request: the joined entries of the parameter
/// set, or nothing when no set is supplied.
pub open spec fn query_of(params: Option<Params>) -> Seq<char> {
    match params {
        Some(p) => join_amp(p@),
        None => Seq::empty(),
    }
}

impl RocketLaunchLive {
    /// The configured API key.
    pub closed spec fn api_key(&self) -> Seq<char> {
        self.key@
    }

    /// The configured base URL.
    pub closed spec fn base_url(&self) -> Seq<char> {
        self.url@
    }

    /// Create a new API client with an API key, aimed at the production host.
    pub fn new(key: &str) -> (r: Self)
        ensures
            r.api_key() == key@,
            r.base_url() == "https://fdo.rocketlaunch.live"@,
    {
        RocketLaunchLive {
            key: key.to_owned(),
            url: "https://fdo.rocketlaunch.live".to_owned(),
        }
    }

    /// The full URL of a request to `endpoint`: `<base>/json/<endpoint>?` with
    /// the parameter set, if any, appended as a literal query string.
    pub fn request_url(&self, endpoint: &str, params: Option<Params>) -> (r: String)
        ensures
            r@ == self.base_url() + "/json/"@ + endpoint@ + "?"@ + query_of(params),
    {
        let mut s = self.url.clone();
        s.append("/json/");
        s.append(endpoint);
        s.append("?");
        match params {
            Some(p) => {
                s.append(p.query_string().as_str());
            },
            None => {
                proof {
                    assert(s@ =~= s@ + Seq::<char>::empty());
                }
            },
        }
        s
    }

    /// The value of the `Authorization` header: `Bearer ` followed by the key.
    pub fn auth_header_value(&self) -> (r: String)
        ensures
            r@ == "Bearer "@ + self.api_key(),
    {
        let mut s = "Bearer ".to_owned();
        s.append(self.key.as_str());
        s
    }
}

} // verus!
