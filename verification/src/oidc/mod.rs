//! The OpenID Connect endpoints: authorization, token, userinfo, key set and
//! provider metadata.

use vstd::prelude::*;
use crate::text::opt_str_clone;

pub mod authorize;
pub mod discovery;
pub mod dynamic_registration;
pub mod jwks;
pub mod token;
pub mod userinfo;

verus! {

/// An OAuth 2.0 authorization error response: what is sent back to the
/// client's redirect URI as query parameters.
#[derive(Debug)]
pub struct OauthError {
    pub error: String,
    pub error_description: Option<String>,
    pub error_uri: Option<String>,
    pub state: Option<String>,
}

pub ghost struct OauthErrorView {
    pub error: Seq<char>,
    pub error_description: Option<Seq<char>>,
    pub error_uri: Option<Seq<char>>,
    pub state: Option<Seq<char>>,
}

impl View for OauthError {
    type V = OauthErrorView;

    open spec fn view(&self) -> OauthErrorView {
        OauthErrorView {
            error: self.error@,
            error_description: self.error_description.deep_view(),
            error_uri: self.error_uri.deep_view(),
            state: self.state.deep_view(),
        }
    }
}

/// The error `error` with the description `descr` and nothing else.
pub open spec fn described_error(error: Seq<char>, descr: Seq<char>) -> OauthErrorView {
    OauthErrorView { error, error_description: Some(descr), error_uri: None, state: None }
}

/// The error `error` with nothing else.
pub open spec fn bare_error(error: Seq<char>) -> OauthErrorView {
    OauthErrorView { error, error_description: None, error_uri: None, state: None }
}

impl OauthError {
    /// The error `error` with the description `descr`.
    pub fn new(error: &str, descr: &str) -> (e: OauthError)
        ensures
            e@ == described_error(error@, descr@),
    {
        OauthError {
            error: error.to_owned(),
            error_description: Some(descr.to_owned()),
            error_uri: None,
            state: None,
        }
    }

    /// The error `error` without a description.
    pub fn of(error: &str) -> (e: OauthError)
        ensures
            e@ == bare_error(error@),
    {
        OauthError {
            error: error.to_owned(),
            error_description: None,
            error_uri: None,
            state: None,
        }
    }
}

impl Clone for OauthError {
    fn clone(&self) -> (r: Self)
        ensures
            r == *self,
    {
        OauthError {
            error: self.error.clone(),
            error_description: opt_str_clone(&self.error_description),
            error_uri: opt_str_clone(&self.error_uri),
            state: opt_str_clone(&self.state),
        }
    }
}

impl Default for OauthError {
    fn default() -> (e: OauthError)
        ensures
            e@ == bare_error(Seq::empty()),
    {
        OauthError { error: String::new(), error_description: None, error_uri: None, state: None }
    }
}

} // verus!
