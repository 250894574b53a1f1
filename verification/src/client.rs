//! What a client needs to know to reach the backend.

use crate::text::{join, text_of, trim_trailing_slashes, without_trailing_slashes};
use vstd::prelude::*;

verus! {

/// The value of the `Authorization` header for a token.
pub open spec fn authorization_of(token: Option<Seq<char>>) -> Option<Seq<char>> {
    match token {
        Some(token) => Some("Token "@ + token),
        None => None,
    }
}

/// The backend's base URL, the token to present to it, and the time a call
/// may take.
#[derive(Debug, PartialEq, Eq)]
pub struct ClientConfig {
    base_url: String,
    token: Option<String>,
    timeout_ms: u64,
}

impl ClientConfig {
    /// The base URL, which never ends in a slash.
    pub closed spec fn spec_base_url(&self) -> Seq<char> {
        self.base_url@
    }

    /// The token, if one is configured.
    pub closed spec fn spec_token(&self) -> Option<Seq<char>> {
        text_of(self.token)
    }

    /// The time limit of one call, in milliseconds.
    pub closed spec fn spec_timeout_ms(&self) -> u64 {
        self.timeout_ms
    }

    /// A configuration for the backend at `base_url`, whose trailing
    /// slashes are dropped.
    pub fn new(base_url: String, token: Option<String>, timeout_ms: u64) -> (config: ClientConfig)
        ensures
            config.spec_base_url() == without_trailing_slashes(base_url@),
            config.spec_token() == text_of(token),
            config.spec_timeout_ms() == timeout_ms,
    {
        ClientConfig { base_url: trim_trailing_slashes(base_url.as_str()), token, timeout_ms }
    }

    /// The base URL.
    pub fn base_url(&self) -> (url: &str)
        ensures
            url@ == self.spec_base_url(),
    {
        self.base_url.as_str()
    }

    /// The time limit of one call, in milliseconds.
    pub fn timeout_ms(&self) -> (ms: u64)
        ensures
            ms == self.spec_timeout_ms(),
    {
        self.timeout_ms
    }

    /// The URL to post to for `endpoint`: the base URL with the endpoint
    /// behind it.
    pub fn url(&self, endpoint: &str) -> (url: String)
        ensures
            url@ == self.spec_base_url() + endpoint@,
    {
        join(self.base_url.as_str(), endpoint)
    }

    /// The value of the `Authorization` header: `Token ` and the token, or
    /// nothing where no token is configured.
    pub fn authorization(&self) -> (header: Option<String>)
        ensures
            text_of(header) == authorization_of(self.spec_token()),
    {
        match &self.token {
            Some(token) => Some(join("Token ", token.as_str())),
            None => None,
        }
    }
}

} // verus!
