//! The records that the provider keeps: registered clients, authorization
//! codes, access tokens and users. Each has a view that holds its fields as
//! mathematical values; points in time are seconds since the epoch.

use vstd::prelude::*;
use crate::error::InternalError;
use crate::outside::{json_string_array, parse_string_array};
use crate::text::opt_str_clone;

verus! {

/// A registered client (relying party).
#[derive(Debug)]
pub struct OauthClient {
    /// The `client_id`.
    pub id: String,
    /// The `client_secret`.
    pub secret: String,
    /// The name of the application, as shown to the user.
    pub name: String,
    /// The registered redirect URIs, as a JSON array of strings.
    pub callback_url: String,
    /// The scopes that the client may request, separated by white space.
    pub allowed_scopes: String,
}

pub ghost struct OauthClientView {
    pub id: Seq<char>,
    pub secret: Seq<char>,
    pub name: Seq<char>,
    pub callback_url: Seq<char>,
    pub allowed_scopes: Seq<char>,
}

impl View for OauthClient {
    type V = OauthClientView;

    open spec fn view(&self) -> OauthClientView {
        OauthClientView {
            id: self.id@,
            secret: self.secret@,
            name: self.name@,
            callback_url: self.callback_url@,
            allowed_scopes: self.allowed_scopes@,
        }
    }
}

impl OauthClientView {
    /// The registered redirect URIs, in order, where the client's
    /// `callback_url` is a JSON array of strings.
    pub open spec fn callback_urls(self) -> Option<Seq<Seq<char>>> {
        json_string_array(self.callback_url)
    }
}

impl OauthClient {
    /// The registered redirect URIs, in order. It is an error for the
    /// client's `callback_url` to be anything but a JSON array of strings.
    pub fn callback_urls(&self) -> (r: Result<Vec<String>, serde_json::Error>)
        ensures
            match r {
                Ok(list) => self@.callback_urls() == Some(list.deep_view()),
                Err(_) => self@.callback_urls() is None,
            },
    {
        parse_string_array(self.callback_url.as_str())
    }
}

/// The client that a lookup has given, if it has given one.
pub open spec fn found(lookup: Result<OauthClient, InternalError>) -> Option<OauthClientView> {
    match lookup {
        Ok(c) => Some(c@),
        Err(_) => None,
    }
}

impl Clone for OauthClient {
    fn clone(&self) -> (r: Self)
        ensures
            r == *self,
    {
        OauthClient {
            id: self.id.clone(),
            secret: self.secret.clone(),
            name: self.name.clone(),
            callback_url: self.callback_url.clone(),
            allowed_scopes: self.allowed_scopes.clone(),
        }
    }
}

/// A scope that the provider knows, with its description.
#[derive(Debug)]
pub struct OauthScope {
    pub name: String,
    pub description: String,
}

pub ghost struct OauthScopeView {
    pub name: Seq<char>,
    pub description: Seq<char>,
}

impl View for OauthScope {
    type V = OauthScopeView;

    open spec fn view(&self) -> OauthScopeView {
        OauthScopeView { name: self.name@, description: self.description@ }
    }
}

/// An authorization code with what was granted under it.
#[derive(Debug)]
pub struct OauthSession {
    /// The code itself, by which the record is found.
    pub auth_code: String,
    pub client_id: String,
    /// The granted scopes, separated by single spaces.
    pub scopes: String,
    pub nonce: Option<String>,
    /// The user who was authenticated.
    pub subject: String,
    /// The instant after which the code is no longer accepted.
    pub expiration: i64,
    /// When the user was authenticated.
    pub auth_time: Option<i64>,
}

pub ghost struct OauthSessionView {
    pub auth_code: Seq<char>,
    pub client_id: Seq<char>,
    pub scopes: Seq<char>,
    pub nonce: Option<Seq<char>>,
    pub subject: Seq<char>,
    pub expiration: int,
    pub auth_time: Option<int>,
}

/// An optional instant as an optional integer.
pub open spec fn opt_int(t: Option<i64>) -> Option<int> {
    match t {
        Some(v) => Some(v as int),
        None => None,
    }
}

impl View for OauthSession {
    type V = OauthSessionView;

    open spec fn view(&self) -> OauthSessionView {
        OauthSessionView {
            auth_code: self.auth_code@,
            client_id: self.client_id@,
            scopes: self.scopes@,
            nonce: self.nonce.deep_view(),
            subject: self.subject@,
            expiration: self.expiration as int,
            auth_time: opt_int(self.auth_time),
        }
    }
}

impl Clone for OauthSession {
    fn clone(&self) -> (r: Self)
        ensures
            r == *self,
    {
        OauthSession {
            auth_code: self.auth_code.clone(),
            client_id: self.client_id.clone(),
            scopes: self.scopes.clone(),
            nonce: opt_str_clone(&self.nonce),
            subject: self.subject.clone(),
            expiration: self.expiration,
            auth_time: self.auth_time,
        }
    }
}

/// An access token with what it stands for.
#[derive(Debug)]
pub struct OauthToken {
    pub token: String,
    /// The kind of token: `access` for those that the token endpoint issues.
    pub token_type: String,
    pub client_id: String,
    pub scopes: Option<String>,
    pub subject: Option<String>,
    /// The lifetime of the token in seconds.
    pub expiration: Option<i64>,
    /// When the token was issued.
    pub created: i64,
}

pub ghost struct OauthTokenView {
    pub token: Seq<char>,
    pub token_type: Seq<char>,
    pub client_id: Seq<char>,
    pub scopes: Option<Seq<char>>,
    pub subject: Option<Seq<char>>,
    pub expiration: Option<int>,
    pub created: int,
}

impl View for OauthToken {
    type V = OauthTokenView;

    open spec fn view(&self) -> OauthTokenView {
        OauthTokenView {
            token: self.token@,
            token_type: self.token_type@,
            client_id: self.client_id@,
            scopes: self.scopes.deep_view(),
            subject: self.subject.deep_view(),
            expiration: opt_int(self.expiration),
            created: self.created as int,
        }
    }
}

impl Clone for OauthToken {
    fn clone(&self) -> (r: Self)
        ensures
            r == *self,
    {
        OauthToken {
            token: self.token.clone(),
            token_type: self.token_type.clone(),
            client_id: self.client_id.clone(),
            scopes: opt_str_clone(&self.scopes),
            subject: opt_str_clone(&self.subject),
            expiration: self.expiration,
            created: self.created,
        }
    }
}

/// An end user with the profile that the userinfo endpoint draws on.
#[derive(Debug)]
pub struct User {
    pub id: String,
    /// The digest of the password, as lower-case hexadecimal digits.
    pub password: String,
    pub email: Option<String>,
    pub phone: Option<String>,
    pub given_name: String,
    pub family_name: String,
    /// The name to show; without it the given and the family name are used.
    pub preferred_display_name: Option<String>,
    pub address: Option<String>,
    pub birthdate: Option<String>,
    pub locale: Option<String>,
}

pub ghost struct UserView {
    pub id: Seq<char>,
    pub password: Seq<char>,
    pub email: Option<Seq<char>>,
    pub phone: Option<Seq<char>>,
    pub given_name: Seq<char>,
    pub family_name: Seq<char>,
    pub preferred_display_name: Option<Seq<char>>,
    pub address: Option<Seq<char>>,
    pub birthdate: Option<Seq<char>>,
    pub locale: Option<Seq<char>>,
}

impl View for User {
    type V = UserView;

    open spec fn view(&self) -> UserView {
        UserView {
            id: self.id@,
            password: self.password@,
            email: self.email.deep_view(),
            phone: self.phone.deep_view(),
            given_name: self.given_name@,
            family_name: self.family_name@,
            preferred_display_name: self.preferred_display_name.deep_view(),
            address: self.address.deep_view(),
            birthdate: self.birthdate.deep_view(),
            locale: self.locale.deep_view(),
        }
    }
}

impl Clone for User {
    fn clone(&self) -> (r: Self)
        ensures
            r == *self,
    {
        User {
            id: self.id.clone(),
            password: self.password.clone(),
            email: opt_str_clone(&self.email),
            phone: opt_str_clone(&self.phone),
            given_name: self.given_name.clone(),
            family_name: self.family_name.clone(),
            preferred_display_name: opt_str_clone(&self.preferred_display_name),
            address: opt_str_clone(&self.address),
            birthdate: opt_str_clone(&self.birthdate),
            locale: opt_str_clone(&self.locale),
        }
    }
}

} // verus!
