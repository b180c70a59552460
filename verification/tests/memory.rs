use oidc_provider::error::InternalError;
use oidc_provider::memory::MemoryStore;
use oidc_provider::models::{OauthClient, OauthSession, OauthToken, User};
use oidc_provider::store::{OauthDatabase, UserDatabase};

fn client(id: &str, callbacks: &str) -> OauthClient {
    OauthClient {
        id: id.into(),
        secret: "s".into(),
        name: "n".into(),
        callback_url: callbacks.into(),
        allowed_scopes: "openid".into(),
    }
}

fn session(code: &str, subject: &str) -> OauthSession {
    OauthSession {
        auth_code: code.into(),
        client_id: "c1".into(),
        scopes: "openid".into(),
        nonce: None,
        subject: subject.into(),
        expiration: 10,
        auth_time: None,
    }
}

fn token(value: &str, created: i64) -> OauthToken {
    OauthToken {
        token: value.into(),
        token_type: "access".into(),
        client_id: "c1".into(),
        scopes: None,
        subject: None,
        expiration: None,
        created,
    }
}

fn user(id: &str, digest: &str) -> User {
    User {
        id: id.into(),
        password: digest.into(),
        email: None,
        phone: None,
        given_name: "G".into(),
        family_name: "F".into(),
        preferred_display_name: None,
        address: None,
        birthdate: None,
        locale: None,
    }
}

#[test]
fn empty_store_finds_nothing() {
    let mut store = MemoryStore::new();
    assert!(matches!(store.fetch_client_config("c1"), Err(InternalError::NotFound)));
    assert!(matches!(store.consume_oauth_session_by_code("x"), Err(InternalError::NotFound)));
    assert!(matches!(store.load_token_data("t"), Err(InternalError::NotFound)));
    assert!(matches!(store.login("u", "p"), Err(InternalError::NotFound)));
    assert!(matches!(store.fetch_user("u"), Err(InternalError::NotFound)));
    assert_eq!(store.fetch_granted_scopes("c1", "u").unwrap(), Vec::<String>::new());
}

#[test]
fn clients_are_found_by_id() {
    let mut store = MemoryStore::new();
    store.register_client(client("c1", "[\"https://a\"]"));
    store.register_client(client("c2", "[\"https://b\"]"));
    assert_eq!(store.fetch_client_config("c1").unwrap().callback_url, "[\"https://a\"]");
    assert_eq!(store.fetch_client_config("c2").unwrap().callback_url, "[\"https://b\"]");
    assert!(matches!(store.fetch_client_config("C1"), Err(InternalError::NotFound)));
    store.register_client(client("c1", "[\"https://c\"]"));
    assert_eq!(store.fetch_client_config("c1").unwrap().callback_url, "[\"https://c\"]");
}

#[test]
fn callback_urls_are_read_from_the_json_array() {
    assert_eq!(client("c", "[\"https://a\", \"https://b/c?d=e\"]").callback_urls().unwrap(), vec!["https://a", "https://b/c?d=e"]);
    assert_eq!(client("c", "[]").callback_urls().unwrap(), Vec::<String>::new());
    assert_eq!(client("c", " [ \"a\\u0062\" ] ").callback_urls().unwrap(), vec!["ab"]);
    assert!(client("c", "https://a").callback_urls().is_err());
    assert!(client("c", "\"https://a\"").callback_urls().is_err());
    assert!(client("c", "[1]").callback_urls().is_err());
    assert!(client("c", "").callback_urls().is_err());
}

#[test]
fn a_code_is_stored_once_and_consumed_once() {
    let mut store = MemoryStore::new();
    store.save_oauth_session(session("k", "alice")).unwrap();
    let e = store.save_oauth_session(session("k", "bob")).unwrap_err();
    assert!(matches!(e, InternalError::QueryError { .. }));
    store.save_oauth_session(session("k2", "carol")).unwrap();
    assert_eq!(store.consume_oauth_session_by_code("k").unwrap().subject, "alice");
    assert!(matches!(store.consume_oauth_session_by_code("k"), Err(InternalError::NotFound)));
    assert_eq!(store.consume_oauth_session_by_code("k2").unwrap().subject, "carol");
    store.save_oauth_session(session("k", "dave")).unwrap();
    assert_eq!(store.consume_oauth_session_by_code("k").unwrap().subject, "dave");
}

#[test]
fn tokens_are_stored_once_and_stay() {
    let mut store = MemoryStore::new();
    store.save_oauth_token(&token("t", 1)).unwrap();
    assert!(matches!(store.save_oauth_token(&token("t", 2)), Err(InternalError::QueryError { .. })));
    assert_eq!(store.load_token_data("t").unwrap().created, 1);
    assert_eq!(store.load_token_data("t").unwrap().created, 1);
    assert!(matches!(store.load_token_data("T"), Err(InternalError::NotFound)));
}

#[test]
fn login_needs_the_stored_digest() {
    let mut store = MemoryStore::new();
    store.add_user(user("alice", "abc"));
    assert_eq!(store.login("alice", "abc").unwrap().id, "alice");
    assert!(matches!(store.login("alice", "ABC"), Err(InternalError::NotFound)));
    assert!(matches!(store.login("alice", ""), Err(InternalError::NotFound)));
    assert!(matches!(store.login("bob", "abc"), Err(InternalError::NotFound)));
    assert_eq!(store.fetch_user("alice").unwrap().given_name, "G");
    assert!(matches!(store.fetch_user("bob"), Err(InternalError::NotFound)));
}

#[test]
fn granted_scopes_only_grow_and_are_kept_by_client_and_user() {
    let mut store = MemoryStore::new();
    store.save_granted_scopes("alice", "c1", &vec!["openid".to_string(), "email".to_string()]).unwrap();
    store.save_granted_scopes("alice", "c2", &vec!["profile".to_string()]).unwrap();
    store.save_granted_scopes("bob", "c1", &vec!["phone".to_string()]).unwrap();
    store.save_granted_scopes("alice", "c1", &vec!["email".to_string(), "address".to_string()]).unwrap();
    store.save_granted_scopes("alice", "c1", &Vec::new()).unwrap();
    let mut got = store.fetch_granted_scopes("c1", "alice").unwrap();
    got.sort();
    got.dedup();
    assert_eq!(got, vec!["address", "email", "openid"]);
    assert_eq!(store.fetch_granted_scopes("c2", "alice").unwrap(), vec!["profile"]);
    assert_eq!(store.fetch_granted_scopes("c1", "bob").unwrap(), vec!["phone"]);
    assert_eq!(store.fetch_granted_scopes("alice", "c1").unwrap(), Vec::<String>::new());
}

#[test]
fn records_are_copied_faithfully() {
    let s = OauthSession {
        auth_code: "k".into(),
        client_id: "c".into(),
        scopes: "a b".into(),
        nonce: Some("n".into()),
        subject: "u".into(),
        expiration: -3,
        auth_time: Some(4),
    };
    let c = s.clone();
    assert_eq!((c.auth_code, c.client_id, c.scopes, c.nonce, c.subject, c.expiration, c.auth_time),
        ("k".to_string(), "c".to_string(), "a b".to_string(), Some("n".to_string()), "u".to_string(), -3, Some(4)));
    let t = token("t", 9).clone();
    assert_eq!((t.token.as_str(), t.created), ("t", 9));
    let u = user("alice", "d").clone();
    assert_eq!((u.id.as_str(), u.password.as_str(), u.family_name.as_str()), ("alice", "d", "F"));
    let k = client("c1", "[]").clone();
    assert_eq!((k.id.as_str(), k.secret.as_str(), k.name.as_str(), k.allowed_scopes.as_str()), ("c1", "s", "n", "openid"));
}
