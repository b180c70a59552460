//! The storage that the provider works on, as two interfaces: the OAuth
//! records (clients, authorization codes, access tokens) and the users with
//! their standing consent.
//!
//! Each interface describes its content by maps and sets, and each operation
//! says what it returns and how it changes that content. An operation may
//! fail for reasons of its own (a lost connection, a failed query); what a
//! failure leaves behind is stated too. A store that is `reliable` never
//! does so: its operations fail only for what it holds, and then in one
//! way.

use vstd::prelude::*;
use crate::error::InternalError;
use crate::models::{
    OauthClient,
    OauthClientView,
    OauthSession,
    OauthSessionView,
    OauthToken,
    OauthTokenView,
    User,
    UserView,
};
use crate::text::{elements, lists_all_of};

verus! {

/// What the redemption of `code` gives and what it leaves: the record that
/// was kept under the code and the codes without it, or nothing and the
/// codes as they were.
pub open spec fn redeem(codes: Map<Seq<char>, OauthSessionView>, code: Seq<char>) -> (
    Option<OauthSessionView>,
    Map<Seq<char>, OauthSessionView>,
) {
    if codes.contains_key(code) {
        (Some(codes[code]), codes.remove(code))
    } else {
        (None, codes)
    }
}

/// The record that a redemption has given, if it has given one.
pub open spec fn redeemed_record(r: Result<OauthSession, InternalError>) -> Option<
    OauthSessionView,
> {
    match r {
        Ok(session) => Some(session@),
        Err(_) => None,
    }
}

/// A code is redeemed at most once: after a redemption, whether it found
/// the code or not, a second redemption of the same code finds nothing and
/// changes nothing. Every other code is where it was.
pub proof fn code_is_redeemed_once(codes: Map<Seq<char>, OauthSessionView>, code: Seq<char>)
    ensures
        !redeem(codes, code).1.contains_key(code),
        redeem(redeem(codes, code).1, code) == (None::<OauthSessionView>, redeem(codes, code).1),
        forall|other: Seq<char>|
            other != code ==> (redeem(codes, code).1.contains_key(other) <==> codes.contains_key(
                other,
            )),
        forall|other: Seq<char>|
            other != code && codes.contains_key(other) ==> redeem(codes, code).1[other]
                == codes[other],
{
}

/// The value that `m` holds under the key `k`, if it holds one.
pub open spec fn value_at<V>(m: Map<Seq<char>, V>, k: Seq<char>) -> Option<V> {
    if m.contains_key(k) {
        Some(m[k])
    } else {
        None
    }
}

/// The value that `m` holds under the key `k`, if there is a key and `m`
/// holds a value under it.
pub open spec fn value_at_opt<V>(m: Map<Seq<char>, V>, k: Option<Seq<char>>) -> Option<V> {
    match k {
        Some(key) => value_at(m, key),
        None => None,
    }
}

/// The directory of clients and the stores of codes and tokens.
///
/// The functions that say what the store holds, and whether it is reliable,
/// have a default that says nothing; it is there for implementations that
/// are not verified and so state no model.
pub trait OauthDatabase {
    /// Whether the store answers every request: an operation fails only for
    /// what the store holds, never for reasons of its own.
    open spec fn reliable(&self) -> bool {
        false
    }

    /// The registered clients, by `client_id`.
    open spec fn clients(&self) -> Map<Seq<char>, OauthClientView> {
        arbitrary()
    }

    /// The authorization codes that were issued and not yet redeemed, by code.
    open spec fn sessions(&self) -> Map<Seq<char>, OauthSessionView> {
        arbitrary()
    }

    /// The access tokens that were issued, by token.
    open spec fn tokens(&self) -> Map<Seq<char>, OauthTokenView> {
        arbitrary()
    }

    /// The client registered under `client_id`.
    fn fetch_client_config(&self, client_id: &str) -> (r: Result<OauthClient, InternalError>)
        ensures
            match r {
                Ok(client) => self.clients().contains_key(client_id@) && client@
                    == self.clients()[client_id@] && client@.id == client_id@,
                Err(e) => (e is NotFound ==> !self.clients().contains_key(client_id@)) && (
                self.reliable() ==> e is NotFound),
            },
    ;

    /// Stores a new authorization code. A code that is already there is
    /// never overwritten.
    fn save_oauth_session(&mut self, session: OauthSession) -> (r: Result<(), InternalError>)
        ensures
            final(self).reliable() == old(self).reliable(),
            final(self).clients() == old(self).clients(),
            final(self).tokens() == old(self).tokens(),
            match r {
                Ok(_) => !old(self).sessions().contains_key(session@.auth_code)
                    && final(self).sessions()
                    == old(self).sessions().insert(session@.auth_code, session@),
                Err(e) => final(self).sessions() == old(self).sessions() && (old(self).reliable()
                    ==> e is QueryError && old(self).sessions().contains_key(
                    session@.auth_code,
                )),
            },
    ;

    /// Finds the record of `code` and deletes it, in one step. Afterwards
    /// the code is gone, so a second call for the same code finds nothing.
    fn consume_oauth_session_by_code(&mut self, code: &str) -> (r: Result<
        OauthSession,
        InternalError,
    >)
        ensures
            final(self).reliable() == old(self).reliable(),
            final(self).clients() == old(self).clients(),
            final(self).tokens() == old(self).tokens(),
            match r {
                Ok(session) => (Some(session@), final(self).sessions()) == redeem(
                    old(self).sessions(),
                    code@,
                ) && session@.auth_code == code@,
                Err(e) => (e is NotFound ==> !old(self).sessions().contains_key(code@))
                    && (final(self).sessions() == old(self).sessions()
                    || final(self).sessions() == redeem(old(self).sessions(), code@).1)
                    && (old(self).reliable() ==> e is NotFound),
            },
    ;

    /// Stores a new access token. A token that is already there is never
    /// overwritten.
    fn save_oauth_token(&mut self, data: &OauthToken) -> (r: Result<(), InternalError>)
        ensures
            final(self).reliable() == old(self).reliable(),
            final(self).clients() == old(self).clients(),
            final(self).sessions() == old(self).sessions(),
            match r {
                Ok(_) => !old(self).tokens().contains_key(data@.token) && final(self).tokens()
                    == old(self).tokens().insert(data@.token, data@),
                Err(e) => final(self).tokens() == old(self).tokens() && (old(self).reliable()
                    ==> e is QueryError && old(self).tokens().contains_key(data@.token)),
            },
    ;

    /// The record of the access token `token`. The record stays.
    fn load_token_data(&self, token: &str) -> (r: Result<OauthToken, InternalError>)
        ensures
            match r {
                Ok(data) => self.tokens().contains_key(token@) && data@ == self.tokens()[token@]
                    && data@.token == token@,
                Err(e) => (e is NotFound ==> !self.tokens().contains_key(token@)) && (
                self.reliable() ==> e is NotFound),
            },
    ;
}

/// The users and the scopes that each has granted to each client.
///
/// The functions that say what the store holds, and whether it is reliable,
/// have a default that says nothing; it is there for implementations that
/// are not verified and so state no model.
pub trait UserDatabase {
    /// Whether the store answers every request: an operation fails only for
    /// what the store holds, never for reasons of its own.
    open spec fn reliable(&self) -> bool {
        false
    }

    /// The users, by id.
    open spec fn users(&self) -> Map<Seq<char>, UserView> {
        arbitrary()
    }

    /// The scopes that the user `uid` has granted to the client `cid`.
    open spec fn granted_scopes(&self, cid: Seq<char>, uid: Seq<char>) -> Set<Seq<char>> {
        arbitrary()
    }

    /// The user `mail`, where `pass` is the stored digest of the password.
    fn login(&self, mail: &str, pass: &str) -> (r: Result<User, InternalError>)
        ensures
            match r {
                Ok(user) => self.users().contains_key(mail@) && user@ == self.users()[mail@]
                    && user@.id == mail@ && user@.password == pass@,
                Err(e) => (e is NotFound ==> !(self.users().contains_key(mail@)
                    && self.users()[mail@].password == pass@)) && (self.reliable()
                    ==> e is NotFound),
            },
    ;

    /// The user `mail`.
    fn fetch_user(&self, mail: &str) -> (r: Result<User, InternalError>)
        ensures
            match r {
                Ok(user) => self.users().contains_key(mail@) && user@ == self.users()[mail@]
                    && user@.id == mail@,
                Err(e) => (e is NotFound ==> !self.users().contains_key(mail@)) && (
                self.reliable() ==> e is NotFound),
            },
    ;

    /// The scopes that the user `uid` has granted to the client `cid`, in no
    /// particular order.
    fn fetch_granted_scopes(&self, cid: &str, uid: &str) -> (r: Result<Vec<String>, InternalError>)
        ensures
            r matches Ok(list) ==> lists_all_of(list.deep_view(), self.granted_scopes(cid@, uid@)),
            self.reliable() ==> r is Ok,
    ;

    /// Adds `scopes` to what the user `uid` has granted to the client `cid`.
    /// A scope that was granted before stays granted; nothing is ever taken
    /// away.
    fn save_granted_scopes(&mut self, uid: &str, cid: &str, scopes: &Vec<String>) -> (r: Result<
        (),
        InternalError,
    >)
        ensures
            final(self).reliable() == old(self).reliable(),
            final(self).users() == old(self).users(),
            old(self).reliable() ==> r is Ok,
            forall|c: Seq<char>, u: Seq<char>|
                !(c == cid@ && u == uid@) ==> #[trigger] final(self).granted_scopes(c, u)
                    == old(self).granted_scopes(c, u),
            match r {
                Ok(_) => final(self).granted_scopes(cid@, uid@) == old(self).granted_scopes(
                    cid@,
                    uid@,
                ).union(elements(scopes.deep_view())),
                Err(_) => final(self).granted_scopes(cid@, uid@) == old(self).granted_scopes(
                    cid@,
                    uid@,
                ),
            },
    ;
}

} // verus!
