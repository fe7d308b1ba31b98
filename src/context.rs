//! The client context: a node's base URL and an HTTP client to reach it.
use vstd::prelude::*;

use crate::endpoint::Endpoint;

verus! {

#[verifier::external_type_specification]
#[verifier::external_body]
pub struct ExClient(reqwest::Client);

/// Relies on reqwest's `Client::new`: a client with default settings. It
/// panics only where its builder fails, on setting up TLS or the system's
/// DNS resolver configuration; without a TLS backend, as this crate builds
/// reqwest, the builder has no such failure.
pub assume_specification[ reqwest::Client::new ]() -> reqwest::Client;

/// A client for one node: its base URL, fixed at construction, and an HTTP
/// client reused across requests.
pub struct Context {
    base_url: String,
    client: reqwest::Client,
}

impl Context {
    /// The base URL that requests go to.
    pub closed spec fn base(&self) -> Seq<char> {
        self.base_url@
    }

    /// A context for the node at `base_url`.
    pub fn new(base_url: &str) -> (r: Context)
        ensures
            r.base() == base_url@,
    {
        Context { base_url: String::from_str(base_url), client: reqwest::Client::new() }
    }

    /// The base URL that requests go to.
    pub fn base_url(&self) -> (r: &str)
        ensures
            r@ == self.base(),
    {
        self.base_url.as_str()
    }

    /// The HTTP client that requests go through.
    pub fn client(&self) -> &reqwest::Client {
        &self.client
    }

    /// The URL that `endpoint` is asked at: the base URL, a slash, then the
    /// endpoint's path.
    pub fn url(&self, endpoint: &Endpoint) -> (r: String)
        ensures
            r@ == self.base() + "/"@ + endpoint.spec_path(),
    {
        let mut url = String::from_str(self.base_url.as_str());
        url.append("/");
        let path = endpoint.path();
        url.append(path.as_str());
        url
    }
}

} // verus!
