use oidc_provider::config::ProviderConfig;
use oidc_provider::memory::MemoryStore;
use oidc_provider::models::OauthClient;
use oidc_provider::oidc::authorize::{handle_auth, AuthParams, AuthorizeReply};
use oidc_provider::oidc::discovery::openid_config;
use oidc_provider::oidc::jwks::KeyProvider;
use oidc_provider::session::PendingAuthState;
use oidc_provider::state::AppState;

#[test]
fn context_holds_what_it_was_made_of() {
    let mut db = MemoryStore::new();
    db.register_client(OauthClient {
        id: "c1".into(),
        secret: "s".into(),
        name: "n".into(),
        callback_url: "[\"https://app/cb\"]".into(),
        allowed_scopes: "openid".into(),
    });
    let pem = openssl::rsa::Rsa::generate(2048).unwrap().private_key_to_pem().unwrap();
    let keys = KeyProvider::from_rsa_pem(&pem).unwrap();
    let state = AppState::new(db, MemoryStore::new(), keys, ProviderConfig::new("https://op.example".to_string()));

    assert_eq!(state.config.issuer, "https://op.example");
    assert_eq!(openid_config(&state.config).issuer, "https://op.example");
    assert_eq!(state.rsa.jwks().keys.len(), 1);

    let mut request = AuthParams::default();
    request.response_type = Some("code".into());
    request.client_id = Some("c1".into());
    request.redirect_uri = Some("https://app/cb".into());
    let mut session = PendingAuthState::default();
    let reply = handle_auth(&request, &state.oauth_db, &mut session).unwrap();
    assert!(matches!(reply, AuthorizeReply::LoginPage));
}

#[test]
fn session_starts_empty_and_clears() {
    let mut s = PendingAuthState::new();
    assert!(s.client_id.is_none() && s.scopes.is_none() && s.redirect_uri.is_none());
    assert!(s.nonce.is_none() && s.state.is_none() && s.subject.is_none() && s.auth_time.is_none());
    s.client_id = Some("c".into());
    s.subject = Some("u".into());
    s.auth_time = Some(3);
    s.clear();
    assert!(s.client_id.is_none() && s.subject.is_none() && s.auth_time.is_none());
}
