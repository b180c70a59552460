//! The state that one browser carries from the authorization request over
//! the login to the consent: a typed record in place of a dictionary.

use vstd::prelude::*;
use crate::models::opt_int;

verus! {

/// What is known of an authorization request that is under way. The first
/// five fields come from the request; `subject` and `auth_time` are set when
/// the user has been authenticated.
#[derive(Debug)]
pub struct PendingAuthState {
    pub client_id: Option<String>,
    pub scopes: Option<String>,
    pub redirect_uri: Option<String>,
    pub nonce: Option<String>,
    pub state: Option<String>,
    pub subject: Option<String>,
    pub auth_time: Option<i64>,
}

pub ghost struct PendingAuthStateView {
    pub client_id: Option<Seq<char>>,
    pub scopes: Option<Seq<char>>,
    pub redirect_uri: Option<Seq<char>>,
    pub nonce: Option<Seq<char>>,
    pub state: Option<Seq<char>>,
    pub subject: Option<Seq<char>>,
    pub auth_time: Option<int>,
}

impl View for PendingAuthState {
    type V = PendingAuthStateView;

    open spec fn view(&self) -> PendingAuthStateView {
        PendingAuthStateView {
            client_id: self.client_id.deep_view(),
            scopes: self.scopes.deep_view(),
            redirect_uri: self.redirect_uri.deep_view(),
            nonce: self.nonce.deep_view(),
            state: self.state.deep_view(),
            subject: self.subject.deep_view(),
            auth_time: opt_int(self.auth_time),
        }
    }
}

/// The state in which nothing is known.
pub open spec fn empty_state() -> PendingAuthStateView {
    PendingAuthStateView {
        client_id: None,
        scopes: None,
        redirect_uri: None,
        nonce: None,
        state: None,
        subject: None,
        auth_time: None,
    }
}

impl PendingAuthState {
    /// A state in which nothing is known.
    pub fn new() -> (s: PendingAuthState)
        ensures
            s@ == empty_state(),
    {
        PendingAuthState {
            client_id: None,
            scopes: None,
            redirect_uri: None,
            nonce: None,
            state: None,
            subject: None,
            auth_time: None,
        }
    }

    /// Forgets everything, so that nothing of an earlier request leaks into
    /// the next.
    pub fn clear(&mut self)
        ensures
            final(self)@ == empty_state(),
    {
        self.client_id = None;
        self.scopes = None;
        self.redirect_uri = None;
        self.nonce = None;
        self.state = None;
        self.subject = None;
        self.auth_time = None;
    }
}

impl Default for PendingAuthState {
    fn default() -> (s: PendingAuthState)
        ensures
            s@ == empty_state(),
    {
        PendingAuthState::new()
    }
}

} // verus!
