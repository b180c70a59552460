//! An OpenID Connect provider for the OAuth2 authorization-code flow, as a
//! library: the rules of the protocol, from the authorization request over
//! login and consent to the exchange of the code for tokens and the
//! userinfo endpoint, with contracts that say what each step returns and
//! what it changes.
//!
//! * [`oidc`] holds the endpoints of the provider: [`oidc::authorize`],
//!   [`oidc::token`], [`oidc::userinfo`], [`oidc::jwks`] and
//!   [`oidc::discovery`].
//! * [`idp`] holds the login, the consent and the issue of the code.
//! * [`store`] describes the storage as two interfaces, and [`memory`] is a
//!   store that implements both.
//! * [`session`] is the state that a browser carries from one request of
//!   the flow to the next.
//! * [`models`], [`error`] and [`config`] hold the records, the errors and
//!   the settings; [`text`] the work on strings and lists of strings, and
//!   [`redirect`] the URLs that send the browser back to a client.
//! * [`outside`] holds the calls into other crates, whose contracts are
//!   taken on trust.
//!
//! The library does no I/O. Requests come in as plain values and answers go
//! out as plain values; what is random or depends on the time is drawn in
//! one place and handed on to functions that say exactly what they do with
//! it.

pub mod config;
pub mod error;
pub mod idp;
pub mod memory;
pub mod models;
pub mod oidc;
pub mod outside;
pub mod redirect;
pub mod session;
pub mod state;
pub mod store;
pub mod text;
