//! What every endpoint works with, brought together once and handed on:
//! the two stores, the key pair and the settings.

use vstd::prelude::*;
use crate::config::ProviderConfig;
use crate::oidc::jwks::KeyProvider;
use crate::store::{OauthDatabase, UserDatabase};

verus! {

/// The provider's context.
pub struct AppState<D: OauthDatabase, U: UserDatabase> {
    pub oauth_db: D,
    pub user_db: U,
    pub rsa: KeyProvider,
    pub config: ProviderConfig,
}

impl<D: OauthDatabase, U: UserDatabase> AppState<D, U> {
    /// The context made of the given parts.
    pub fn new(oauth_db: D, user_db: U, rsa: KeyProvider, config: ProviderConfig) -> (state: Self)
        ensures
            state.oauth_db == oauth_db,
            state.user_db == user_db,
            state.rsa == rsa,
            state.config == config,
    {
        AppState { oauth_db, user_db, rsa, config }
    }
}

} // verus!
