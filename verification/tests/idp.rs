use oidc_provider::config::ProviderConfig;
use oidc_provider::error::{AppError, InternalError};
use oidc_provider::idp::{
    cancel_login, consent, consent_at, deny, generate_callback, generate_callback_err, identify,
    issue_code, login, login_at, merge_scopes, plan_code, scope_delta, LoginReply, LoginReq,
    AUTH_CODE_LEN,
};
use oidc_provider::memory::MemoryStore;
use oidc_provider::models::{OauthClient, User};
use oidc_provider::oidc::authorize::{handle_auth, AuthParams, AuthorizeReply};
use oidc_provider::oidc::jwks::KeyProvider;
use oidc_provider::oidc::token::{calc_auth, token_endpoint, TokenParams};
use oidc_provider::session::PendingAuthState;
use oidc_provider::store::{OauthDatabase, UserDatabase};

const SHA256_OF_SECRET: &str = "2bb80d537b1da3e38bd30361aa855686bde0eacd7162fef6a25fe97bf527a25b";

fn client() -> OauthClient {
    OauthClient {
        id: "c1".into(),
        secret: "topsecret".into(),
        name: "Client One".into(),
        callback_url: "[\"https://app/cb\"]".into(),
        allowed_scopes: "openid profile".into(),
    }
}

fn alice() -> User {
    User {
        id: "alice".into(),
        password: SHA256_OF_SECRET.into(),
        email: Some("alice@example.org".into()),
        phone: None,
        given_name: "Alice".into(),
        family_name: "Liddell".into(),
        preferred_display_name: None,
        address: None,
        birthdate: None,
        locale: None,
    }
}

fn stores() -> (MemoryStore, MemoryStore) {
    let mut db = MemoryStore::new();
    db.register_client(client());
    let mut users = MemoryStore::new();
    users.add_user(alice());
    (db, users)
}

fn session_after_authorize(scope: &str, state: Option<&str>) -> PendingAuthState {
    let mut s = PendingAuthState::new();
    s.client_id = Some("c1".into());
    s.scopes = Some(scope.into());
    s.redirect_uri = Some("https://app/cb".into());
    s.nonce = Some("n-1".into());
    s.state = state.map(String::from);
    s
}

fn credentials(password: &str) -> LoginReq {
    LoginReq { username: "alice".into(), password: password.into() }
}

fn config() -> ProviderConfig {
    ProviderConfig::new("https://op.example".to_string())
}

fn grant_of(reply: LoginReply) -> Vec<String> {
    match reply {
        LoginReply::Grant(g) => {
            assert_eq!(g.op, "GRANT");
            g.scopes
        },
        other => panic!("expected a request for consent, got {:?}", other),
    }
}

fn location_of(reply: LoginReply) -> String {
    match reply {
        LoginReply::Done { location } => location,
        other => panic!("expected a redirect, got {:?}", other),
    }
}

#[test]
fn login_without_prior_grants_asks_for_consent_to_every_requested_scope() {
    let (mut db, users) = stores();
    let mut session = session_after_authorize("openid profile", None);
    let reply = login_at(&credentials("secret"), &mut db, &users, &mut session, &config(), 1000, "CODE".into()).unwrap();
    assert_eq!(reply.status_code(), 200);
    assert_eq!(grant_of(reply), vec!["openid", "profile"]);
    assert_eq!(session.subject.as_deref(), Some("alice"));
    assert_eq!(session.auth_time, Some(1000));
    assert!(matches!(db.consume_oauth_session_by_code("CODE"), Err(InternalError::NotFound)));
}

#[test]
fn login_asks_only_for_what_is_new_each_scope_once_in_request_order() {
    let (mut db, mut users) = stores();
    users.save_granted_scopes("alice", "c1", &vec!["profile".to_string()]).unwrap();
    let mut session = session_after_authorize("email profile openid email", None);
    let reply = login_at(&credentials("secret"), &mut db, &users, &mut session, &config(), 1000, "CODE".into()).unwrap();
    assert_eq!(grant_of(reply), vec!["email", "openid"]);
}

#[test]
fn grants_to_another_client_or_user_do_not_count() {
    let (mut db, mut users) = stores();
    users.save_granted_scopes("alice", "c2", &vec!["openid".to_string()]).unwrap();
    users.save_granted_scopes("bob", "c1", &vec!["openid".to_string()]).unwrap();
    let mut session = session_after_authorize("openid", None);
    let reply = login_at(&credentials("secret"), &mut db, &users, &mut session, &config(), 1000, "CODE".into()).unwrap();
    assert_eq!(grant_of(reply), vec!["openid"]);
}

#[test]
fn login_with_everything_granted_issues_the_code() {
    let (mut db, mut users) = stores();
    users.save_granted_scopes("alice", "c1", &vec!["openid".to_string(), "profile".to_string()]).unwrap();
    let mut session = session_after_authorize("openid profile", Some("st"));
    let reply = login_at(&credentials("secret"), &mut db, &users, &mut session, &config(), 1000, "CODE".into()).unwrap();
    assert_eq!(reply.status_code(), 302);
    assert_eq!(location_of(reply), "https://app/cb?code=CODE&state=st");
    let record = db.consume_oauth_session_by_code("CODE").unwrap();
    assert_eq!(record.auth_code, "CODE");
    assert_eq!(record.client_id, "c1");
    assert_eq!(record.scopes, "openid profile");
    assert_eq!(record.nonce.as_deref(), Some("n-1"));
    assert_eq!(record.subject, "alice");
    assert_eq!(record.expiration, 1060);
    assert_eq!(record.auth_time, Some(1000));
}

#[test]
fn wrong_password_is_unauthorized() {
    let (mut db, users) = stores();
    let mut session = session_after_authorize("openid", None);
    let e = login_at(&credentials("guess"), &mut db, &users, &mut session, &config(), 1000, "CODE".into()).unwrap_err();
    assert!(matches!(e, AppError::Unauthorized));
    assert_eq!(e.status_code(), 401);
    assert_eq!(session.subject, None);
    assert_eq!(session.auth_time, None);
}

#[test]
fn the_stored_digest_itself_is_no_password() {
    let (mut db, users) = stores();
    let mut session = session_after_authorize("openid", None);
    let e = login_at(&credentials(SHA256_OF_SECRET), &mut db, &users, &mut session, &config(), 1000, "CODE".into()).unwrap_err();
    assert!(matches!(e, AppError::Unauthorized));
}

#[test]
fn refused_login_leaves_an_earlier_subject_in_the_session() {
    let (mut db, users) = stores();
    let mut session = session_after_authorize("openid", None);
    session.subject = Some("bob".into());
    session.auth_time = Some(7);
    session.redirect_uri = Some("/relative".into());
    let mut users_with_grant = users;
    users_with_grant.save_granted_scopes("alice", "c1", &vec!["openid".to_string()]).unwrap();
    let e = login_at(&credentials("secret"), &mut db, &users_with_grant, &mut session, &config(), 1000, "CODE".into()).unwrap_err();
    assert_eq!(e.status_code(), 500);
    assert_eq!(session.subject.as_deref(), Some("bob"));
    assert_eq!(session.auth_time, Some(7));
    let e = login_at(&credentials("wrong"), &mut db, &users_with_grant, &mut session, &config(), 1000, "CODE".into()).unwrap_err();
    assert_eq!(e.status_code(), 401);
    assert_eq!(session.subject.as_deref(), Some("bob"));
    assert_eq!(session.auth_time, Some(7));
}

#[test]
fn unknown_user_is_unauthorized() {
    let (mut db, users) = stores();
    let mut session = session_after_authorize("openid", None);
    let form = LoginReq { username: "mallory".into(), password: "secret".into() };
    let e = login_at(&form, &mut db, &users, &mut session, &config(), 1000, "CODE".into()).unwrap_err();
    assert!(matches!(e, AppError::Unauthorized));
}

#[test]
fn login_outside_an_authorization_request_is_an_invalid_session() {
    let (mut db, users) = stores();
    let mut session = PendingAuthState::new();
    let e = login_at(&credentials("secret"), &mut db, &users, &mut session, &config(), 1000, "CODE".into()).unwrap_err();
    assert!(matches!(e, AppError::InvalidAuthSession { .. }));
    assert_eq!(e.status_code(), 400);
    assert_eq!(e.message(), "no <scope>");

    let mut session = PendingAuthState::new();
    session.scopes = Some("openid".into());
    let e = login_at(&credentials("secret"), &mut db, &users, &mut session, &config(), 1000, "CODE".into()).unwrap_err();
    assert!(matches!(e, AppError::InvalidAuthSession { .. }));
    assert_eq!(e.message(), "invalid auth-session: no <client_id>");
}

#[test]
fn identify_checks_credentials_before_the_session() {
    let session = PendingAuthState::new();
    let e = identify(&session, Err(InternalError::NotFound)).unwrap_err();
    assert!(matches!(e, AppError::Unauthorized));
    let e = identify(&session, Err(InternalError::ConnectionError)).unwrap_err();
    assert!(matches!(e, AppError::Unauthorized));
    let e = identify(&session, Ok(alice())).unwrap_err();
    assert_eq!(e.message(), "no <scope>");
    let id = identify(&session_after_authorize("openid", None), Ok(alice())).unwrap();
    assert_eq!(id.user_id, "alice");
    assert_eq!(id.scopes, "openid");
    assert_eq!(id.client_id, "c1");
}

#[test]
fn scope_delta_is_requested_minus_granted() {
    let granted = vec!["profile".to_string(), "openid".to_string()];
    assert_eq!(scope_delta("openid profile", &granted), Vec::<String>::new());
    assert_eq!(scope_delta("openid email profile phone", &granted), vec!["email", "phone"]);
    assert_eq!(scope_delta("", &granted), Vec::<String>::new());
    assert_eq!(scope_delta("a a b a", &Vec::new()), vec!["a", "b"]);
}

#[test]
fn merge_scopes_unites_granted_and_approved() {
    let granted = vec!["openid".to_string(), "profile".to_string()];
    let approved = vec!["email".to_string(), "openid".to_string()];
    assert_eq!(merge_scopes(&granted, &approved), "openid profile email");
    assert_eq!(merge_scopes(&granted, &Vec::new()), "openid profile");
    assert_eq!(merge_scopes(&Vec::new(), &Vec::new()), "");
    assert_eq!(merge_scopes(&Vec::new(), &approved), "email openid");
}

#[test]
fn consent_saves_the_scopes_and_issues_the_code_for_the_union() {
    let (mut db, mut users) = stores();
    users.save_granted_scopes("alice", "c1", &vec!["profile".to_string()]).unwrap();
    let mut session = session_after_authorize("openid profile", Some("s 1"));
    session.subject = Some("alice".into());
    session.auth_time = Some(990);
    let approved = vec!["openid".to_string()];
    let location = consent_at(&approved, &mut db, &mut users, &session, "CODE".into(), 1060).unwrap();
    assert_eq!(location, "https://app/cb?code=CODE&state=s+1");
    let mut granted = users.fetch_granted_scopes("c1", "alice").unwrap();
    granted.sort();
    assert_eq!(granted, vec!["openid", "profile"]);
    let record = db.consume_oauth_session_by_code("CODE").unwrap();
    assert_eq!(record.scopes, "profile openid");
    assert_eq!(record.subject, "alice");
    assert_eq!(record.client_id, "c1");
    assert_eq!(record.expiration, 1060);
    assert_eq!(record.auth_time, Some(990));
    assert_eq!(record.nonce.as_deref(), Some("n-1"));
}

#[test]
fn the_stored_scope_string_is_read_back_as_the_granted_scopes() {
    let (mut db, mut users) = stores();
    users.save_granted_scopes("alice", "c1", &vec!["profile".to_string(), "openid".to_string()]).unwrap();
    let mut session = session_after_authorize("openid profile email", None);
    session.subject = Some("alice".into());
    let approved = vec!["email".to_string(), "openid".to_string()];
    consent_at(&approved, &mut db, &mut users, &session, "CODE".into(), 1060).unwrap();
    let record = db.consume_oauth_session_by_code("CODE").unwrap();
    let read_back: Vec<String> = record.scopes.split_whitespace().map(String::from).collect();
    assert_eq!(read_back, vec!["profile", "openid", "email"]);
    assert_eq!(oidc_provider::text::split_whitespace(&record.scopes), read_back);
}

#[test]
fn consent_to_nothing_issues_the_code_for_what_was_granted() {
    let (mut db, mut users) = stores();
    users.save_granted_scopes("alice", "c1", &vec!["openid".to_string()]).unwrap();
    let mut session = session_after_authorize("openid profile", None);
    session.subject = Some("alice".into());
    let location = consent_at(&Vec::new(), &mut db, &mut users, &session, "CODE".into(), 1060).unwrap();
    assert_eq!(location, "https://app/cb?code=CODE");
    assert_eq!(users.fetch_granted_scopes("c1", "alice").unwrap(), vec!["openid"]);
    assert_eq!(db.consume_oauth_session_by_code("CODE").unwrap().scopes, "openid");
}

#[test]
fn consent_without_user_or_client_is_a_bad_request() {
    let (mut db, mut users) = stores();
    let session = session_after_authorize("openid", None);
    let e = consent_at(&vec!["openid".to_string()], &mut db, &mut users, &session, "CODE".into(), 1060).unwrap_err();
    assert_eq!(e.status_code(), 400);
    assert_eq!(e.message(), "invalid auth-session: no <user-id>");
    assert_eq!(users.fetch_granted_scopes("c1", "alice").unwrap(), Vec::<String>::new());

    let mut session = PendingAuthState::new();
    session.subject = Some("alice".into());
    let e = consent_at(&vec!["openid".to_string()], &mut db, &mut users, &session, "CODE".into(), 1060).unwrap_err();
    assert_eq!(e.status_code(), 400);
    assert_eq!(e.message(), "invalid auth-session: no <client_id>");
    assert!(matches!(db.consume_oauth_session_by_code("CODE"), Err(InternalError::NotFound)));
}

#[test]
fn repeated_login_needs_no_consent() {
    let (mut db, mut users) = stores();
    let mut session = session_after_authorize("openid profile", None);
    let asked = grant_of(login_at(&credentials("secret"), &mut db, &users, &mut session, &config(), 1000, "CODE1".into()).unwrap());
    assert_eq!(asked, vec!["openid", "profile"]);
    consent_at(&asked, &mut db, &mut users, &session, "CODE1".into(), 1060).unwrap();

    let mut second = session_after_authorize("openid profile", None);
    let reply = login_at(&credentials("secret"), &mut db, &users, &mut second, &config(), 2000, "CODE2".into()).unwrap();
    assert_eq!(location_of(reply), "https://app/cb?code=CODE2");
    assert_eq!(scope_delta("openid profile", &users.fetch_granted_scopes("c1", "alice").unwrap()), Vec::<String>::new());
}

#[test]
fn code_in_use_is_not_overwritten() {
    let (mut db, mut users) = stores();
    users.save_granted_scopes("alice", "c1", &vec!["openid".to_string()]).unwrap();
    let mut first = session_after_authorize("openid", None);
    login_at(&credentials("secret"), &mut db, &users, &mut first, &config(), 1000, "SAME".into()).unwrap();
    let mut second = session_after_authorize("openid", Some("later"));
    let e = login_at(&credentials("secret"), &mut db, &users, &mut second, &config(), 5000, "SAME".into()).unwrap_err();
    assert_eq!(e.status_code(), 500);
    assert_eq!(second.subject, None);
    assert_eq!(second.auth_time, None);
    assert_eq!(second.state.as_deref(), Some("later"));
    assert_eq!(db.consume_oauth_session_by_code("SAME").unwrap().expiration, 1060);
}

#[test]
fn issue_code_needs_client_user_and_redirect_uri() {
    let (mut db, _) = stores();
    let mut session = session_after_authorize("openid", None);
    let e = issue_code(&session, "c1", &mut db, "openid".into(), "C".into(), 10).unwrap_err();
    assert!(matches!(e, InternalError::SessionError));
    session.subject = Some("alice".into());
    let e = issue_code(&session, "nobody", &mut db, "openid".into(), "C".into(), 10).unwrap_err();
    assert!(matches!(e, InternalError::QueryError { .. }));
    assert_eq!(e.message(), "query: failed to load the client config ");
    session.redirect_uri = None;
    let e = issue_code(&session, "c1", &mut db, "openid".into(), "C".into(), 10).unwrap_err();
    assert!(matches!(e, InternalError::SessionError));
    session.redirect_uri = Some("not a url".into());
    let e = issue_code(&session, "c1", &mut db, "openid".into(), "C".into(), 10).unwrap_err();
    assert_eq!(e.message(), "query: invalid redirect_uri");
    assert!(matches!(db.consume_oauth_session_by_code("C"), Err(InternalError::NotFound)));
    session.redirect_uri = Some("https://app/cb".into());
    assert_eq!(issue_code(&session, "c1", &mut db, "openid".into(), "C".into(), 10).unwrap(), "https://app/cb?code=C");
}

#[test]
fn plan_code_stores_nothing_and_says_what_to_store() {
    let mut session = session_after_authorize("openid", Some("s"));
    session.subject = Some("alice".into());
    session.auth_time = Some(5);
    let (record, location) = plan_code(&session, Ok(client()), "openid".into(), "K".into(), 77).unwrap();
    assert_eq!(location, "https://app/cb?code=K&state=s");
    assert_eq!(record.auth_code, "K");
    assert_eq!(record.client_id, "c1");
    assert_eq!(record.scopes, "openid");
    assert_eq!(record.subject, "alice");
    assert_eq!(record.expiration, 77);
    assert_eq!(record.auth_time, Some(5));
    assert_eq!(record.nonce.as_deref(), Some("n-1"));
    assert!(plan_code(&session, Err(InternalError::NotFound), "openid".into(), "K".into(), 77).is_err());
}

#[test]
fn generate_callback_draws_a_code_of_the_right_form() {
    let (mut db, _) = stores();
    let mut session = session_after_authorize("openid", None);
    session.subject = Some("alice".into());
    let a = generate_callback(&session, "c1", &mut db, &config(), "openid".into()).unwrap();
    let b = generate_callback(&session, "c1", &mut db, &config(), "openid".into()).unwrap();
    assert_ne!(a, b);
    for location in [a, b] {
        let code = location.strip_prefix("https://app/cb?code=").unwrap().to_string();
        assert_eq!(code.chars().count(), AUTH_CODE_LEN);
        assert_eq!(AUTH_CODE_LEN, 22);
        assert!(code.chars().all(|c| c.is_ascii_alphanumeric()));
        let record = db.consume_oauth_session_by_code(&code).unwrap();
        let now = chrono::Utc::now().timestamp();
        assert!(record.expiration > now && record.expiration <= now + 60);
    }
}

#[test]
fn login_and_consent_draw_their_own_codes() {
    let (mut db, mut users) = stores();
    let mut session = session_after_authorize("openid", None);
    let asked = grant_of(login(&credentials("secret"), &mut db, &users, &mut session, &config()).unwrap());
    assert_eq!(asked, vec!["openid"]);
    let now = chrono::Utc::now().timestamp();
    assert!(session.auth_time.unwrap() <= now && session.auth_time.unwrap() > now - 60);
    let location = consent(&asked, &mut db, &mut users, &session, &config()).unwrap();
    let code = location.strip_prefix("https://app/cb?code=").unwrap().to_string();
    assert_eq!(code.chars().count(), 22);
    assert!(db.consume_oauth_session_by_code(&code).is_ok());
    let mut again = session_after_authorize("openid", None);
    let location = location_of(login(&credentials("secret"), &mut db, &users, &mut again, &config()).unwrap());
    assert!(location.starts_with("https://app/cb?code="));
}

#[test]
fn cancel_redirects_with_access_denied() {
    let (db, _) = stores();
    let session = session_after_authorize("openid", Some("xyz"));
    let location = cancel_login(&db, &session).unwrap();
    assert_eq!(location, "https://app/cb?error=access_denied&error_description=User+denied+access&state=xyz");
}

#[test]
fn cancel_without_client_is_a_bad_request() {
    let (db, _) = stores();
    let e = cancel_login(&db, &PendingAuthState::new()).unwrap_err();
    assert_eq!(e.status_code(), 400);
    assert_eq!(e.message(), "client_id is missing");
}

#[test]
fn cancel_for_an_unknown_or_broken_client_is_an_internal_error() {
    let (db, _) = stores();
    let mut session = session_after_authorize("openid", None);
    session.client_id = Some("nobody".into());
    assert!(matches!(cancel_login(&db, &session).unwrap_err(), AppError::InternalError));
    let session = session_after_authorize("openid", None);
    let mut broken = client();
    broken.callback_url = "[]".into();
    assert!(matches!(deny(&session, Ok(broken)).unwrap_err(), AppError::InternalError));
    let mut broken = client();
    broken.callback_url = "https://app/cb".into();
    assert!(matches!(deny(&session, Ok(broken)).unwrap_err(), AppError::InternalError));
    let mut broken = client();
    broken.callback_url = "[\"/relative\"]".into();
    assert!(matches!(deny(&session, Ok(broken)).unwrap_err(), AppError::InternalError));
    assert!(matches!(deny(&session, Err(InternalError::ConnectionError)).unwrap_err(), AppError::InternalError));
}

#[test]
fn generate_callback_err_builds_the_error_url() {
    let session = session_after_authorize("openid", Some("s"));
    assert_eq!(
        generate_callback_err(&session, "https://app/cb", "access_denied", "User denied access").unwrap(),
        "https://app/cb?error=access_denied&error_description=User+denied+access&state=s"
    );
    let e = generate_callback_err(&session, "nowhere", "access_denied", "x").unwrap_err();
    assert!(matches!(e, AppError::InternalError));
}

#[test]
fn authorization_code_flow_from_request_to_token() {
    let keys = KeyProvider::from_rsa_pem(&openssl::rsa::Rsa::generate(2048).unwrap().private_key_to_pem().unwrap()).unwrap();
    let (mut db, mut users) = stores();
    let mut session = PendingAuthState::new();

    let mut request = AuthParams::default();
    request.response_type = Some("code".into());
    request.client_id = Some("c1".into());
    request.redirect_uri = Some("https://app/cb".into());
    request.scope = Some("openid".into());
    let reply = handle_auth(&request, &db, &mut session).unwrap();
    assert!(matches!(reply, AuthorizeReply::LoginPage));
    assert_eq!(reply.status_code(), 200);

    let asked = grant_of(login(&credentials("secret"), &mut db, &users, &mut session, &config()).unwrap());
    assert_eq!(asked, vec!["openid"]);

    let location = consent(&vec!["openid".to_string()], &mut db, &mut users, &session, &config()).unwrap();
    let code = location.strip_prefix("https://app/cb?code=").unwrap().to_string();
    assert!(!code.contains('&'));

    let form = TokenParams { grant_type: "authorization_code".into(), code, redirect_uri: "https://app/cb".into() };
    let response = token_endpoint(&form, Some(&calc_auth("c1", "topsecret")), &mut db, &keys, &config()).unwrap();
    assert_eq!(response.token_type, "Bearer");
    assert_eq!(response.expires_in, 3600);
    assert!(!response.access_token.is_empty());
    assert!(!response.id_token.is_empty());

    let again = token_endpoint(&form, Some(&calc_auth("c1", "topsecret")), &mut db, &keys, &config()).unwrap_err();
    assert_eq!(again.status_code(), 400);
}
