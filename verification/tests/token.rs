use oidc_provider::config::ProviderConfig;
use oidc_provider::error::{AppError, InternalError};
use oidc_provider::memory::MemoryStore;
use oidc_provider::models::{OauthClient, OauthSession};
use oidc_provider::oidc::jwks::KeyProvider;
use oidc_provider::oidc::token::{
    access_token_record, calc_auth, check_client_request, check_redemption, consume_failure,
    exchange_code,
    id_token_claims, is_grant_supported, token_endpoint, token_response, IdTokenClaims,
    TokenParams, ACCESS_TOKEN_LEN,
};
use oidc_provider::store::OauthDatabase;

fn test_pem() -> Vec<u8> {
    openssl::rsa::Rsa::generate(2048).unwrap().private_key_to_pem().unwrap()
}

fn client() -> OauthClient {
    OauthClient {
        id: "c1".into(),
        secret: "s3cret".into(),
        name: "Client One".into(),
        callback_url: "[\"https://app/cb\", \"https://app/cb2\"]".into(),
        allowed_scopes: "openid profile".into(),
    }
}

fn record(code: &str, expiration: i64) -> OauthSession {
    OauthSession {
        auth_code: code.into(),
        client_id: "c1".into(),
        scopes: "openid profile".into(),
        nonce: Some("n-123".into()),
        subject: "alice".into(),
        expiration,
        auth_time: Some(990),
    }
}

fn store_with_code(code: &str, expiration: i64) -> MemoryStore {
    let mut store = MemoryStore::new();
    store.register_client(client());
    store.save_oauth_session(record(code, expiration)).unwrap();
    store
}

fn form(grant_type: &str, code: &str, redirect_uri: &str) -> TokenParams {
    TokenParams { grant_type: grant_type.into(), code: code.into(), redirect_uri: redirect_uri.into() }
}

fn config() -> ProviderConfig {
    ProviderConfig::new("https://op.example".to_string())
}

#[test]
fn test_calc_auth() {
    assert_eq!(calc_auth("admin", "admin"), "Basic YWRtaW46YWRtaW4=");
}

#[test]
fn calc_auth_encodes_id_colon_secret() {
    assert_eq!(calc_auth("c1", "s3cret"), "Basic YzE6czNjcmV0");
    assert_eq!(calc_auth("", ""), "Basic Og==");
    assert_eq!(calc_auth("ü", "p:q"), "Basic w7w6cDpx");
}

#[test]
fn grant_type_is_matched_without_regard_to_case() {
    assert!(is_grant_supported(&form("authorization_code", "x", "y")));
    assert!(is_grant_supported(&form("Authorization_Code", "x", "y")));
    assert!(is_grant_supported(&form("AUTHORIZATION_CODE", "x", "y")));
    assert!(!is_grant_supported(&form("authorization_code ", "x", "y")));
    assert!(!is_grant_supported(&form("refresh_token", "x", "y")));
    assert!(!is_grant_supported(&form("", "x", "y")));
}

#[test]
fn unsupported_grant_is_refused_and_leaves_the_code() {
    let keys = KeyProvider::from_rsa_pem(&test_pem()).unwrap();
    let mut store = store_with_code("code1", 2000);
    let auth = calc_auth("c1", "s3cret");
    let e = exchange_code(&form("password", "code1", "https://app/cb"), Some(&auth), &mut store, &keys, &config(), 1000, "tok".into()).unwrap_err();
    assert_eq!(e.status_code(), 400);
    assert_eq!(e.message(), "'grant_type' not supported");
    assert!(store.consume_oauth_session_by_code("code1").is_ok());
}

#[test]
fn exchange_grants_token_and_stores_it() {
    let keys = KeyProvider::from_rsa_pem(&test_pem()).unwrap();
    let mut store = store_with_code("code1", 2000);
    let auth = calc_auth("c1", "s3cret");
    let response = exchange_code(&form("authorization_code", "code1", "https://app/cb"), Some(&auth), &mut store, &keys, &config(), 1000, "token-1".into()).unwrap();
    assert_eq!(response.access_token, "token-1");
    assert_eq!(response.token_type, "Bearer");
    assert_eq!(response.expires_in, 3600);
    assert_eq!(response.refresh_token, None);
    assert_eq!(response.id_token.split('.').count(), 3);
    let stored = store.load_token_data("token-1").unwrap();
    assert_eq!(stored.token, "token-1");
    assert_eq!(stored.token_type, "access");
    assert_eq!(stored.client_id, "c1");
    assert_eq!(stored.scopes.as_deref(), Some("openid profile"));
    assert_eq!(stored.subject.as_deref(), Some("alice"));
    assert_eq!(stored.expiration, Some(3600));
    assert_eq!(stored.created, 1000);
}

#[test]
fn second_registered_redirect_uri_is_accepted() {
    let keys = KeyProvider::from_rsa_pem(&test_pem()).unwrap();
    let mut store = store_with_code("code1", 2000);
    let auth = calc_auth("c1", "s3cret");
    assert!(exchange_code(&form("authorization_code", "code1", "https://app/cb2"), Some(&auth), &mut store, &keys, &config(), 1000, "t".into()).is_ok());
}

#[test]
fn a_code_is_redeemed_only_once() {
    let keys = KeyProvider::from_rsa_pem(&test_pem()).unwrap();
    let mut store = store_with_code("code1", 2000);
    let auth = calc_auth("c1", "s3cret");
    let data = form("authorization_code", "code1", "https://app/cb");
    assert!(exchange_code(&data, Some(&auth), &mut store, &keys, &config(), 1000, "token-1".into()).is_ok());
    let e = exchange_code(&data, Some(&auth), &mut store, &keys, &config(), 1000, "token-2".into()).unwrap_err();
    assert_eq!(e.status_code(), 400);
    assert_eq!(e.message(), "not found");
    assert!(matches!(store.load_token_data("token-2"), Err(InternalError::NotFound)));
}

#[test]
fn consumed_code_is_not_found_again() {
    let mut store = store_with_code("code1", 2000);
    let first = store.consume_oauth_session_by_code("code1").unwrap();
    assert_eq!(first.auth_code, "code1");
    assert_eq!(first.subject, "alice");
    assert!(matches!(store.consume_oauth_session_by_code("code1"), Err(InternalError::NotFound)));
    assert!(matches!(store.consume_oauth_session_by_code("code1"), Err(InternalError::NotFound)));
}

#[test]
fn unknown_code_is_a_bad_request() {
    let keys = KeyProvider::from_rsa_pem(&test_pem()).unwrap();
    let mut store = store_with_code("code1", 2000);
    let auth = calc_auth("c1", "s3cret");
    let e = exchange_code(&form("authorization_code", "nope", "https://app/cb"), Some(&auth), &mut store, &keys, &config(), 1000, "t".into()).unwrap_err();
    assert_eq!(e.status_code(), 400);
    assert!(store.consume_oauth_session_by_code("code1").is_ok());
}

#[test]
fn expired_code_is_refused_and_gone() {
    let keys = KeyProvider::from_rsa_pem(&test_pem()).unwrap();
    let auth = calc_auth("c1", "s3cret");
    for expiration in [1000, 999, 0] {
        let mut store = store_with_code("code1", expiration);
        let e = exchange_code(&form("authorization_code", "code1", "https://app/cb"), Some(&auth), &mut store, &keys, &config(), 1000, "t".into()).unwrap_err();
        assert_eq!(e.status_code(), 400);
        assert_eq!(e.message(), "Expired code");
        assert!(matches!(store.consume_oauth_session_by_code("code1"), Err(InternalError::NotFound)));
        assert!(matches!(store.load_token_data("t"), Err(InternalError::NotFound)));
    }
}

#[test]
fn code_that_expires_one_second_from_now_is_good() {
    let keys = KeyProvider::from_rsa_pem(&test_pem()).unwrap();
    let auth = calc_auth("c1", "s3cret");
    let mut store = store_with_code("code1", 1001);
    assert!(exchange_code(&form("authorization_code", "code1", "https://app/cb"), Some(&auth), &mut store, &keys, &config(), 1000, "t".into()).is_ok());
}

#[test]
fn redirect_uri_mismatch_is_refused_and_the_code_is_gone() {
    let keys = KeyProvider::from_rsa_pem(&test_pem()).unwrap();
    let mut store = store_with_code("code1", 2000);
    let auth = calc_auth("c1", "s3cret");
    let e = exchange_code(&form("authorization_code", "code1", "https://evil/cb"), Some(&auth), &mut store, &keys, &config(), 1000, "t".into()).unwrap_err();
    assert_eq!(e.status_code(), 400);
    assert_eq!(e.message(), "redirect_uri mismatch");
    assert!(matches!(store.consume_oauth_session_by_code("code1"), Err(InternalError::NotFound)));
}

#[test]
fn wrong_or_missing_credential_is_unauthorized() {
    let keys = KeyProvider::from_rsa_pem(&test_pem()).unwrap();
    let wrong = calc_auth("c1", "guess");
    for header in [Some(wrong.as_str()), Some("Basic"), Some(""), Some("basic YzE6czNjcmV0"), None] {
        let mut store = store_with_code("code1", 2000);
        let e = exchange_code(&form("authorization_code", "code1", "https://app/cb"), header, &mut store, &keys, &config(), 1000, "t".into()).unwrap_err();
        assert!(matches!(e, AppError::Unauthorized));
        assert_eq!(e.status_code(), 401);
        assert!(matches!(store.consume_oauth_session_by_code("code1"), Err(InternalError::NotFound)));
        assert!(matches!(store.load_token_data("t"), Err(InternalError::NotFound)));
    }
}

#[test]
fn code_of_an_unknown_client_is_a_bad_request() {
    let keys = KeyProvider::from_rsa_pem(&test_pem()).unwrap();
    let mut store = MemoryStore::new();
    store.save_oauth_session(record("code1", 2000)).unwrap();
    let auth = calc_auth("c1", "s3cret");
    let e = exchange_code(&form("authorization_code", "code1", "https://app/cb"), Some(&auth), &mut store, &keys, &config(), 1000, "t".into()).unwrap_err();
    assert_eq!(e.status_code(), 400);
    assert_eq!(e.message(), "failed to load the client config");
}

#[test]
fn check_redemption_orders_its_gates() {
    let data = form("authorization_code", "code1", "https://evil/cb");
    let e = check_redemption(&data, None, &record("code1", 5), Err(InternalError::ConnectionError), 10).unwrap_err();
    assert_eq!(e.message(), "Expired code");
    let e = check_redemption(&data, None, &record("code1", 50), Err(InternalError::ConnectionError), 10).unwrap_err();
    assert_eq!(e.message(), "failed to load the client config");
    let e = check_redemption(&data, None, &record("code1", 50), Ok(client()), 10).unwrap_err();
    assert_eq!(e.message(), "redirect_uri mismatch");
    let mut broken = client();
    broken.callback_url = "not json".into();
    let e = check_redemption(&data, None, &record("code1", 50), Ok(broken), 10).unwrap_err();
    assert!(matches!(e, AppError::InternalError));
    let good = form("authorization_code", "code1", "https://app/cb");
    let e = check_redemption(&good, None, &record("code1", 50), Ok(client()), 10).unwrap_err();
    assert!(matches!(e, AppError::Unauthorized));
    let auth = calc_auth("c1", "s3cret");
    assert!(check_redemption(&good, Some(&auth), &record("code1", 50), Ok(client()), 10).is_ok());
}

#[test]
fn check_client_request_orders_its_gates() {
    let bad = form("authorization_code", "code1", "https://evil/cb");
    let good = form("authorization_code", "code1", "https://app/cb");
    let e = check_client_request(&bad, None, Err(InternalError::NotFound)).unwrap_err();
    assert_eq!(e.message(), "failed to load the client config");
    assert_eq!(check_client_request(&bad, None, Ok(client())).unwrap_err().message(), "redirect_uri mismatch");
    assert!(matches!(check_client_request(&good, Some("Basic x"), Ok(client())).unwrap_err(), AppError::Unauthorized));
    assert!(check_client_request(&good, Some(&calc_auth("c1", "s3cret")), Ok(client())).is_ok());
}

#[test]
fn the_id_token_is_the_signature_over_the_claims_of_the_code() {
    let pem = test_pem();
    let keys = KeyProvider::from_rsa_pem(&pem).unwrap();
    let mut store = store_with_code("code1", 2000);
    let auth = calc_auth("c1", "s3cret");
    let response = exchange_code(&form("authorization_code", "code1", "https://app/cb"), Some(&auth), &mut store, &keys, &config(), 1000, "token-1".into()).unwrap();
    let claims = id_token_claims(&config(), &record("code1", 2000), 1000);
    assert_eq!(response.id_token, keys.sign(&claims.to_json()).unwrap());
    assert!(response.id_token.starts_with("eyJ0eXAiOiJKV1QiLCJhbGciOiJSUzI1NiJ9."));
    let key = jsonwebtoken::EncodingKey::from_rsa_pem(&pem).unwrap();
    let direct = jsonwebtoken::encode(&jsonwebtoken::Header::new(jsonwebtoken::Algorithm::RS256), &claims.to_json(), &key).unwrap();
    assert_eq!(response.id_token, direct);
}

#[test]
fn taken_access_token_is_not_overwritten() {
    let keys = KeyProvider::from_rsa_pem(&test_pem()).unwrap();
    let mut store = store_with_code("code1", 2000);
    store.save_oauth_session(record("code2", 2000)).unwrap();
    let auth = calc_auth("c1", "s3cret");
    assert!(exchange_code(&form("authorization_code", "code1", "https://app/cb"), Some(&auth), &mut store, &keys, &config(), 1000, "same".into()).is_ok());
    let e = exchange_code(&form("authorization_code", "code2", "https://app/cb"), Some(&auth), &mut store, &keys, &config(), 1500, "same".into()).unwrap_err();
    assert_eq!(e.status_code(), 500);
    assert_eq!(store.load_token_data("same").unwrap().created, 1000);
}

#[test]
fn token_endpoint_draws_a_fresh_access_token() {
    let keys = KeyProvider::from_rsa_pem(&test_pem()).unwrap();
    let mut store = store_with_code("code1", i64::MAX);
    store.save_oauth_session(record("code2", i64::MAX)).unwrap();
    let auth = calc_auth("c1", "s3cret");
    let a = token_endpoint(&form("authorization_code", "code1", "https://app/cb"), Some(&auth), &mut store, &keys, &config()).unwrap();
    let b = token_endpoint(&form("authorization_code", "code2", "https://app/cb"), Some(&auth), &mut store, &keys, &config()).unwrap();
    for response in [&a, &b] {
        assert_eq!(response.access_token.chars().count(), ACCESS_TOKEN_LEN);
        assert_eq!(ACCESS_TOKEN_LEN, 30);
        assert!(response.access_token.chars().all(|c| c.is_ascii_alphanumeric()));
        assert_eq!(response.token_type, "Bearer");
        assert_eq!(response.expires_in, 3600);
        assert!(store.load_token_data(&response.access_token).is_ok());
    }
    assert_ne!(a.access_token, b.access_token);
}

#[test]
fn id_token_claims_follow_the_code() {
    let claims = id_token_claims(&config(), &record("code1", 2000), 1000);
    assert_eq!(claims.iss, "https://op.example");
    assert_eq!(claims.sub, "alice");
    assert_eq!(claims.aud, "c1");
    assert_eq!(claims.iat, 1000);
    assert_eq!(claims.exp, 4600);
    assert_eq!(claims.exp - claims.iat, 3600);
    assert_eq!(claims.auth_time, Some(990));
    assert_eq!(claims.nonce.as_deref(), Some("n-123"));
}

#[test]
fn id_token_expiry_falls_back_to_now_where_it_cannot_be_represented() {
    let claims = id_token_claims(&config(), &record("code1", 2000), i64::MAX);
    assert_eq!(claims.iat, i64::MAX);
    assert_eq!(claims.exp, i64::MAX);
    let claims = id_token_claims(&config(), &record("code1", 2000), i64::MAX - 3600);
    assert_eq!(claims.exp, i64::MAX);
}

#[test]
fn claims_object_leaves_absent_claims_out() {
    let claims = IdTokenClaims {
        iss: "i".into(),
        sub: "s".into(),
        aud: "a".into(),
        exp: 20,
        iat: 10,
        auth_time: None,
        nonce: None,
    };
    let object = claims.to_json();
    assert_eq!(object.len(), 5);
    assert_eq!(object.get("iss"), Some(&serde_json::Value::from("i")));
    assert_eq!(object.get("sub"), Some(&serde_json::Value::from("s")));
    assert_eq!(object.get("aud"), Some(&serde_json::Value::from("a")));
    assert_eq!(object.get("exp"), Some(&serde_json::Value::from(20i64)));
    assert_eq!(object.get("iat"), Some(&serde_json::Value::from(10i64)));
    assert_eq!(object.get("nonce"), None);
    assert_eq!(object.get("auth_time"), None);
}

#[test]
fn claims_object_holds_every_claim_that_is_present() {
    let claims = id_token_claims(&config(), &record("code1", 2000), 1000);
    let object = claims.to_json();
    assert_eq!(object.len(), 7);
    assert_eq!(object.get("nonce"), Some(&serde_json::Value::from("n-123")));
    assert_eq!(object.get("auth_time"), Some(&serde_json::Value::from(990i64)));
    assert_eq!(object.get("exp"), Some(&serde_json::Value::from(4600i64)));
    assert_eq!(object.get("iss"), Some(&serde_json::Value::from("https://op.example")));
}

#[test]
fn access_token_record_follows_the_code() {
    let r = access_token_record(&record("code1", 2000), "tok", 3600, 1000);
    assert_eq!(r.token, "tok");
    assert_eq!(r.token_type, "access");
    assert_eq!(r.client_id, "c1");
    assert_eq!(r.scopes.as_deref(), Some("openid profile"));
    assert_eq!(r.subject.as_deref(), Some("alice"));
    assert_eq!(r.expiration, Some(3600));
    assert_eq!(r.created, 1000);
}

#[test]
fn token_response_carries_the_signed_text() {
    let r = token_response("tok".into(), Ok("a.b.c".into()), 60).unwrap();
    assert_eq!(r.access_token, "tok");
    assert_eq!(r.id_token, "a.b.c");
    assert_eq!(r.token_type, "Bearer");
    assert_eq!(r.expires_in, 60);
    assert_eq!(r.refresh_token, None);
}

#[test]
fn failed_signing_is_an_internal_error() {
    let failure = match jsonwebtoken::EncodingKey::from_rsa_pem(b"no key") {
        Err(e) => e,
        Ok(_) => panic!("a text without a key was read as a key"),
    };
    let e = token_response("tok".into(), Err(failure), 60).unwrap_err();
    assert!(matches!(e, AppError::InternalError));
}

#[test]
fn consume_failure_maps_not_found_to_a_bad_request() {
    let e = consume_failure(&InternalError::NotFound);
    assert_eq!(e.status_code(), 400);
    assert_eq!(e.message(), "not found");
    assert!(matches!(consume_failure(&InternalError::ConnectionError), AppError::InternalError));
    assert!(matches!(consume_failure(&InternalError::query_fail("x")), AppError::InternalError));
    assert!(matches!(consume_failure(&InternalError::SessionError), AppError::InternalError));
}

#[test]
fn signed_id_token_verifies_against_the_published_key() {
    let keys = KeyProvider::from_rsa_pem(&test_pem()).unwrap();
    let mut store = store_with_code("code1", i64::MAX);
    let auth = calc_auth("c1", "s3cret");
    let now = chrono::Utc::now().timestamp();
    let response = exchange_code(&form("authorization_code", "code1", "https://app/cb"), Some(&auth), &mut store, &keys, &config(), now, "token-1".into()).unwrap();

    let set = keys.jwks();
    assert_eq!(set.keys.len(), 1);
    let jwk = &set.keys[0];
    let key = jsonwebtoken::DecodingKey::from_rsa_components(jwk.n.as_deref().unwrap(), jwk.e.as_deref().unwrap()).unwrap();
    let mut validation = jsonwebtoken::Validation::new(jsonwebtoken::Algorithm::RS256);
    validation.set_audience(&["c1"]);
    validation.set_issuer(&["https://op.example"]);
    let decoded = jsonwebtoken::decode::<serde_json::Value>(&response.id_token, &key, &validation).unwrap();
    assert_eq!(decoded.header.alg, jsonwebtoken::Algorithm::RS256);
    let claims = decoded.claims;
    assert_eq!(claims["iss"], "https://op.example");
    assert_eq!(claims["aud"], "c1");
    assert_eq!(claims["sub"], "alice");
    assert_eq!(claims["nonce"], "n-123");
    assert_eq!(claims["auth_time"], 990);
    assert_eq!(claims["iat"], now);
    assert_eq!(claims["exp"].as_i64().unwrap() - claims["iat"].as_i64().unwrap(), 3600);
}

#[test]
fn id_token_of_another_key_does_not_verify() {
    let keys = KeyProvider::from_rsa_pem(&test_pem()).unwrap();
    let other = KeyProvider::from_rsa_pem(&test_pem()).unwrap();
    let claims = id_token_claims(&config(), &record("code1", 2000), chrono::Utc::now().timestamp());
    let token = keys.sign(&claims.to_json()).unwrap();
    let set = other.jwks();
    let jwk = &set.keys[0];
    let key = jsonwebtoken::DecodingKey::from_rsa_components(jwk.n.as_deref().unwrap(), jwk.e.as_deref().unwrap()).unwrap();
    let mut validation = jsonwebtoken::Validation::new(jsonwebtoken::Algorithm::RS256);
    validation.set_audience(&["c1"]);
    assert!(jsonwebtoken::decode::<serde_json::Value>(&token, &key, &validation).is_err());
}
