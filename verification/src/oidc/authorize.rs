//! The authorization endpoint: it checks an authorization request against
//! the protocol's rules and the client's registration, and either sends the
//! user on to the login page or answers with an error.
//!
//! An error is reported in one of two ways. As long as the redirect URI has
//! not been found trustworthy, the answer is a plain HTTP error. Errors of
//! the protocol go back to the client as query parameters of a redirect.

use vstd::prelude::*;
use crate::redirect::{redirect_url, url_with_query};
use crate::error::{bad_request, AppError, AppErrorView, InternalError};
use crate::models::{found, OauthClient, OauthClientView};
use crate::oidc::{bare_error, described_error, OauthError, OauthErrorView};
use crate::session::{empty_state, PendingAuthState, PendingAuthStateView};
use crate::store::{value_at_opt, OauthDatabase};
use crate::text::{
    all_within,
    elements,
    is_subset,
    lemma_all_within,
    opt_str_clone,
    split_whitespace,
    str_eq,
    words,
};

verus! {

/// The parameters of an authorization request.
#[derive(Debug)]
pub struct AuthParams {
    pub scope: Option<String>,
    pub response_type: Option<String>,
    pub client_id: Option<String>,
    pub redirect_uri: Option<String>,
    pub state: Option<String>,
    pub response_mode: Option<String>,
    pub nonce: Option<String>,
    pub display: Option<String>,
    pub prompt: Option<String>,
    pub max_age: Option<String>,
    pub ui_locales: Option<String>,
    pub id_token_hint: Option<String>,
    pub login_hint: Option<String>,
    pub acr_values: Option<String>,
}

pub ghost struct AuthParamsView {
    pub scope: Option<Seq<char>>,
    pub response_type: Option<Seq<char>>,
    pub client_id: Option<Seq<char>>,
    pub redirect_uri: Option<Seq<char>>,
    pub state: Option<Seq<char>>,
    pub response_mode: Option<Seq<char>>,
    pub nonce: Option<Seq<char>>,
    pub display: Option<Seq<char>>,
    pub prompt: Option<Seq<char>>,
    pub max_age: Option<Seq<char>>,
    pub ui_locales: Option<Seq<char>>,
    pub id_token_hint: Option<Seq<char>>,
    pub login_hint: Option<Seq<char>>,
    pub acr_values: Option<Seq<char>>,
}

impl View for AuthParams {
    type V = AuthParamsView;

    open spec fn view(&self) -> AuthParamsView {
        AuthParamsView {
            scope: self.scope.deep_view(),
            response_type: self.response_type.deep_view(),
            client_id: self.client_id.deep_view(),
            redirect_uri: self.redirect_uri.deep_view(),
            state: self.state.deep_view(),
            response_mode: self.response_mode.deep_view(),
            nonce: self.nonce.deep_view(),
            display: self.display.deep_view(),
            prompt: self.prompt.deep_view(),
            max_age: self.max_age.deep_view(),
            ui_locales: self.ui_locales.deep_view(),
            id_token_hint: self.id_token_hint.deep_view(),
            login_hint: self.login_hint.deep_view(),
            acr_values: self.acr_values.deep_view(),
        }
    }
}

impl Default for AuthParams {
    fn default() -> (p: AuthParams)
        ensures
            p@.scope is None,
            p@.response_type is None,
            p@.client_id is None,
            p@.redirect_uri is None,
            p@.state is None,
            p@.response_mode is None,
            p@.nonce is None,
            p@.display is None,
            p@.prompt is None,
            p@.max_age is None,
            p@.ui_locales is None,
            p@.id_token_hint is None,
            p@.login_hint is None,
            p@.acr_values is None,
    {
        AuthParams {
            scope: None,
            response_type: None,
            client_id: None,
            redirect_uri: None,
            state: None,
            response_mode: None,
            nonce: None,
            display: None,
            prompt: None,
            max_age: None,
            ui_locales: None,
            id_token_hint: None,
            login_hint: None,
            acr_values: None,
        }
    }
}

/// What the check of a request comes to: `Err` is a plain HTTP error,
/// `Ok(Some(..))` an error of the protocol that goes back to the client by
/// redirect, `Ok(None)` a request that may go on to the login.
pub type Verdict = Result<Option<OauthErrorView>, AppErrorView>;

/// The view of an executable verdict.
pub open spec fn verdict_view(r: Result<Option<OauthError>, AppError>) -> Verdict {
    match r {
        Ok(Some(e)) => Ok(Some(e@)),
        Ok(None) => Ok(None),
        Err(e) => Err(e@),
    }
}

/// The response types that OpenID Connect defines.
pub open spec fn response_types() -> Seq<Seq<char>> {
    seq![
        "code"@,
        "token"@,
        "id_token"@,
        "id_token token"@,
        "code id_token"@,
        "code token"@,
        "code id_token token"@,
        "none"@,
    ]
}

/// Whether `p` carries a redirect URI that is not empty.
pub open spec fn has_redirect_uri(p: AuthParamsView) -> bool {
    p.redirect_uri matches Some(uri) && uri.len() > 0
}

/// What is wrong with the request by itself, if anything: the checks that
/// come before the client is looked up.
pub open spec fn early_verdict(p: AuthParamsView) -> Option<Verdict> {
    if !has_redirect_uri(p) {
        Some(Err(bad_request("'redirect_uri' is required"@)))
    } else if p.response_type is None {
        Some(Ok(Some(described_error("invalid_request"@, "response_type is required."@))))
    } else if !response_types().contains(p.response_type->0) {
        Some(Ok(Some(described_error("invalid_request"@, "invalid 'response_type'"@))))
    } else if p.response_type->0 != "code"@ {
        Some(Ok(Some(bare_error("unsupported_response_type"@))))
    } else if p.client_id is None {
        Some(Ok(Some(described_error("invalid_request"@, "'client_id' is required"@))))
    } else {
        None
    }
}

/// What the check comes to once the client `c` has been found.
pub open spec fn client_verdict(p: AuthParamsView, c: OauthClientView) -> Verdict {
    if c.callback_urls() is None {
        Err(AppErrorView::InternalError)
    } else if p.redirect_uri is None || !c.callback_urls()->0.contains(p.redirect_uri->0) {
        Err(bad_request("'redirect_uri' is invaliid"@))
    } else if p.scope is Some && !words(p.scope->0).contains("openid"@) {
        Ok(Some(described_error("invalid_request"@, "scope expected"@)))
    } else if p.scope is Some && !all_within(words(p.scope->0), words(c.allowed_scopes)) {
        Ok(Some(described_error("invalid_scope"@, "scope not allowed"@)))
    } else if p.acr_values is Some {
        Ok(Some(described_error("invalid_request"@, "invalid acr_value"@)))
    } else {
        Ok(None)
    }
}

/// What the check of the request `p` comes to, where `client` is what the
/// lookup of its `client_id` has given (`None`: no such client, or the lookup
/// failed). The lookup matters only where [`early_verdict`] finds nothing.
pub open spec fn verdict(p: AuthParamsView, client: Option<OauthClientView>) -> Verdict {
    match early_verdict(p) {
        Some(v) => v,
        None => match client {
            None => Err(bad_request("Unknown or invalid client_id "@)),
            Some(c) => client_verdict(p, c),
        },
    }
}

/// The response types that OpenID Connect defines.
pub fn known_response_types() -> (r: Vec<String>)
    ensures
        r.deep_view() == response_types(),
{
    let mut r: Vec<String> = Vec::new();
    r.push("code".to_owned());
    r.push("token".to_owned());
    r.push("id_token".to_owned());
    r.push("id_token token".to_owned());
    r.push("code id_token".to_owned());
    r.push("code token".to_owned());
    r.push("code id_token token".to_owned());
    r.push("none".to_owned());
    assert(r.deep_view() =~= response_types());
    r
}

/// Whether `col` holds `item`.
pub fn contains(col: &Vec<String>, item: &str) -> (r: bool)
    ensures
        r == col.deep_view().contains(item@),
{
    crate::text::contains(col, item)
}

/// Checks the request by itself: the redirect URI, the response type and the
/// presence of a client id, in this order.
pub fn check_request(data: &AuthParams) -> (r: Option<Result<Option<OauthError>, AppError>>)
    ensures
        match r {
            Some(v) => early_verdict(data@) == Some(verdict_view(v)),
            None => early_verdict(data@) is None,
        },
{
    let redirect_uri = match &data.redirect_uri {
        None => {
            return Some(Err(AppError::bad_req("'redirect_uri' is required")));
        },
        Some(uri) => uri,
    };
    if redirect_uri.as_str().unicode_len() == 0 {
        return Some(Err(AppError::bad_req("'redirect_uri' is required")));
    }
    let response_type = match &data.response_type {
        None => {
            return Some(Ok(Some(OauthError::new("invalid_request", "response_type is required."))));
        },
        Some(t) => t,
    };
    if !contains(&known_response_types(), response_type.as_str()) {
        return Some(Ok(Some(OauthError::new("invalid_request", "invalid 'response_type'"))));
    }
    if !str_eq(response_type.as_str(), "code") {
        return Some(Ok(Some(OauthError::of("unsupported_response_type"))));
    }
    if data.client_id.is_none() {
        return Some(Ok(Some(OauthError::new("invalid_request", "'client_id' is required"))));
    }
    None
}

/// Checks a request that is well-formed by itself against the client that
/// it names: the redirect URI must be one of the registered ones, the scope
/// must hold `openid` and stay within what the client may ask for, and
/// `acr_values` is not supported.
pub fn check_against_client(data: &AuthParams, client: &OauthClient) -> (r: Result<
    Option<OauthError>,
    AppError,
>)
    ensures
        verdict_view(r) == client_verdict(data@, client@),
{
    let callback_urls = match client.callback_urls() {
        Ok(list) => list,
        Err(_) => {
            return Err(AppError::InternalError);
        },
    };
    let registered = match &data.redirect_uri {
        Some(uri) => contains(&callback_urls, uri.as_str()),
        None => false,
    };
    if !registered {
        return Err(AppError::bad_req("'redirect_uri' is invaliid"));
    }
    match &data.scope {
        Some(scope_param) => {
            let scopes = split_whitespace(scope_param.as_str());
            if !contains(&scopes, "openid") {
                return Ok(Some(OauthError::new("invalid_request", "scope expected")));
            }
            let client_scopes = split_whitespace(client.allowed_scopes.as_str());
            if !is_subset(&scopes, &client_scopes) {
                return Ok(Some(OauthError::new("invalid_scope", "scope not allowed")));
            }
        },
        None => {},
    }
    if data.acr_values.is_some() {
        return Ok(Some(OauthError::new("invalid_request", "invalid acr_value")));
    }
    Ok(None)
}

/// Checks the request, given what the lookup of its client has come to. The
/// lookup is not read where the request is at fault by itself.
pub fn validate_with_client(data: &AuthParams, lookup: Result<OauthClient, InternalError>) -> (r:
    Result<Option<OauthError>, AppError>)
    ensures
        verdict_view(r) == verdict(data@, found(lookup)),
{
    match check_request(data) {
        Some(v) => v,
        None => match lookup {
            Err(_) => Err(AppError::bad_req("Unknown or invalid client_id ")),
            Ok(client) => check_against_client(data, &client),
        },
    }
}

/// Checks an authorization request against the rules of the protocol and
/// against the registration of its client, which is looked up in `db`.
///
/// A request that is at fault by itself gets its verdict without a lookup.
/// For any other, the verdict is that of a client that was not found, or
/// that of the client registered under the request's `client_id`.
pub fn validate_auth<D: OauthDatabase>(data: &AuthParams, db: &D) -> (r: Result<
    Option<OauthError>,
    AppError,
>)
    ensures
        early_verdict(data@) is Some ==> verdict_view(r) == verdict(data@, None),
        early_verdict(data@) is None ==> verdict_view(r) == verdict(data@, None) || (
        db.clients().contains_key(data@.client_id->0) && verdict_view(r) == verdict(
            data@,
            Some(db.clients()[data@.client_id->0]),
        )),
        db.reliable() ==> verdict_view(r) == verdict(
            data@,
            value_at_opt(db.clients(), data@.client_id),
        ),
{
    match check_request(data) {
        Some(v) => v,
        None => match &data.client_id {
            None => Err(AppError::InternalError),
            Some(client_id) => match db.fetch_client_config(client_id.as_str()) {
                Err(_) => Err(AppError::bad_req("Unknown or invalid client_id ")),
                Ok(client) => check_against_client(data, &client),
            },
        },
    }
}

/// The query parameters that report the error `e`: the error code, its
/// description where it has one, and the request's `state` where it had
/// one.
pub open spec fn error_params(e: OauthErrorView, state: Option<Seq<char>>) -> Seq<
    (Seq<char>, Seq<char>),
> {
    seq![("error"@, e.error)] + (match e.error_description {
        Some(d) => seq![("error_description"@, d)],
        None => Seq::empty(),
    }) + (match state {
        Some(s) => seq![("state"@, s)],
        None => Seq::empty(),
    })
}

/// The URL that takes the error `err` back to `redirect_uri`: the error's
/// parameters appended to its query. `None` where `redirect_uri` is no
/// absolute URL, or longer than a URL is built from.
pub open spec fn error_location(
    redirect_uri: Seq<char>,
    state: Option<Seq<char>>,
    err: OauthErrorView,
) -> Option<Seq<char>> {
    redirect_url(redirect_uri, error_params(err, state))
}

/// Builds the URL that takes the error `err` back to the client. A
/// `redirect_uri` that is no absolute URL cannot be redirected to and is
/// answered with an internal error.
pub fn callback_error(redirect_uri: &str, state: &Option<String>, err: &OauthError) -> (r: Result<
    String,
    AppError,
>)
    ensures
        match r {
            Ok(location) => error_location(redirect_uri@, state.deep_view(), err@) == Some(
                location@,
            ),
            Err(e) => e@ == AppErrorView::InternalError && error_location(
                redirect_uri@,
                state.deep_view(),
                err@,
            ) is None,
        },
{
    let mut params: Vec<(String, String)> = Vec::new();
    params.push(("error".to_owned(), err.error.clone()));
    match &err.error_description {
        Some(d) => {
            params.push(("error_description".to_owned(), d.clone()));
        },
        None => {},
    }
    match state {
        Some(s) => {
            params.push(("state".to_owned(), s.clone()));
        },
        None => {},
    }
    assert(params.deep_view() =~= error_params(err@, state.deep_view()));
    match url_with_query(redirect_uri, &params) {
        Some(location) => Ok(location),
        None => Err(AppError::InternalError),
    }
}

/// What the state holds after an accepted request `p`.
pub open spec fn state_for(p: AuthParamsView) -> PendingAuthStateView {
    PendingAuthStateView {
        client_id: p.client_id,
        scopes: p.scope,
        redirect_uri: p.redirect_uri,
        nonce: p.nonce,
        state: p.state,
        subject: None,
        auth_time: None,
    }
}

/// Notes the accepted request in the session: client, scope, redirect URI,
/// nonce and state. Who the user is stays open.
pub fn set_on_session(data: &AuthParams, session: &mut PendingAuthState)
    ensures
        final(session)@ == state_for(data@),
{
    session.client_id = opt_str_clone(&data.client_id);
    session.scopes = opt_str_clone(&data.scope);
    session.redirect_uri = opt_str_clone(&data.redirect_uri);
    session.nonce = opt_str_clone(&data.nonce);
    session.state = opt_str_clone(&data.state);
    session.subject = None;
    session.auth_time = None;
}

/// The answer to an authorization request.
#[derive(Debug)]
pub enum AuthorizeReply {
    /// The request was accepted: show the login page (HTTP 200).
    LoginPage,
    /// Send the browser to `location` (HTTP 302), which reports an error to
    /// the client.
    Redirect { location: String },
}

pub ghost enum AuthorizeReplyView {
    LoginPage,
    Redirect { location: Seq<char> },
}

impl View for AuthorizeReply {
    type V = AuthorizeReplyView;

    open spec fn view(&self) -> AuthorizeReplyView {
        match *self {
            AuthorizeReply::LoginPage => AuthorizeReplyView::LoginPage,
            AuthorizeReply::Redirect { location } => AuthorizeReplyView::Redirect {
                location: location@,
            },
        }
    }
}

impl AuthorizeReply {
    /// The HTTP status of the answer.
    pub fn status_code(&self) -> (code: u16)
        ensures
            code == (match self@ {
                AuthorizeReplyView::LoginPage => 200int,
                AuthorizeReplyView::Redirect { .. } => 302int,
            }),
    {
        match self {
            AuthorizeReply::LoginPage => crate::error::STATUS_OK,
            AuthorizeReply::Redirect { .. } => crate::error::STATUS_FOUND,
        }
    }
}

/// The view of an executable answer.
pub open spec fn reply_view(r: Result<AuthorizeReply, AppError>) -> Result<
    AuthorizeReplyView,
    AppErrorView,
> {
    match r {
        Ok(reply) => Ok(reply@),
        Err(e) => Err(e@),
    }
}

/// The answer that goes with the verdict `v` on the request `p`: the login
/// page for an accepted request, a redirect for an error of the protocol, a
/// plain error otherwise.
pub open spec fn reply_for(p: AuthParamsView, v: Verdict) -> Result<
    AuthorizeReplyView,
    AppErrorView,
> {
    match v {
        Err(e) => Err(e),
        Ok(None) => Ok(AuthorizeReplyView::LoginPage),
        Ok(Some(e)) => if p.redirect_uri is None {
            Err(AppErrorView::InternalError)
        } else {
            match error_location(p.redirect_uri->0, p.state, e) {
                Some(location) => Ok(AuthorizeReplyView::Redirect { location }),
                None => Err(AppErrorView::InternalError),
            }
        },
    }
}

/// What the session holds after the request `p` was answered with `reply`:
/// the request where it was accepted, nothing otherwise.
pub open spec fn state_after(
    p: AuthParamsView,
    reply: Result<AuthorizeReplyView, AppErrorView>,
) -> PendingAuthStateView {
    if reply == Ok::<AuthorizeReplyView, AppErrorView>(AuthorizeReplyView::LoginPage) {
        state_for(p)
    } else {
        empty_state()
    }
}

/// Answers the request `data` on which the verdict `v` has been reached, and
/// brings the session in line: whatever an earlier request left is dropped,
/// and only an accepted request is noted.
pub fn answer_auth(
    data: &AuthParams,
    v: Result<Option<OauthError>, AppError>,
    session: &mut PendingAuthState,
) -> (r: Result<AuthorizeReply, AppError>)
    ensures
        reply_view(r) == reply_for(data@, verdict_view(v)),
        final(session)@ == state_after(data@, reply_view(r)),
{
    session.clear();
    match v {
        Err(e) => Err(e),
        Ok(None) => {
            set_on_session(data, session);
            Ok(AuthorizeReply::LoginPage)
        },
        Ok(Some(e)) => {
            let redirect_uri = match &data.redirect_uri {
                Some(uri) => uri,
                None => {
                    return Err(AppError::InternalError);
                },
            };
            match callback_error(redirect_uri.as_str(), &data.state, &e) {
                Ok(location) => Ok(AuthorizeReply::Redirect { location }),
                Err(err) => Err(err),
            }
        },
    }
}

/// The answer to the request `p` where the clients `clients` are
/// registered.
pub open spec fn authorize_answer(
    p: AuthParamsView,
    clients: Map<Seq<char>, OauthClientView>,
) -> Result<AuthorizeReplyView, AppErrorView> {
    reply_for(p, verdict(p, value_at_opt(clients, p.client_id)))
}

/// Handles an authorization request: clears the session, checks the request
/// and answers it.
///
/// The answer is the one that goes with the verdict on the request, which
/// depends on the lookup of the client only where the request is not at
/// fault by itself. With a reliable store the answer is the one that the
/// registered clients call for.
pub fn handle_auth<D: OauthDatabase>(
    data: &AuthParams,
    db: &D,
    session: &mut PendingAuthState,
) -> (r: Result<AuthorizeReply, AppError>)
    ensures
        final(session)@ == state_after(data@, reply_view(r)),
        early_verdict(data@) is Some ==> reply_view(r) == reply_for(data@, verdict(data@, None)),
        early_verdict(data@) is None ==> reply_view(r) == reply_for(data@, verdict(data@, None))
            || (db.clients().contains_key(data@.client_id->0) && reply_view(r) == reply_for(
            data@,
            verdict(data@, Some(db.clients()[data@.client_id->0])),
        )),
        db.reliable() ==> reply_view(r) == authorize_answer(data@, db.clients()),
{
    let v = validate_auth(data, db);
    answer_auth(data, v, session)
}

/// The authorization endpoint for a request that came by GET.
pub fn auth_get<D: OauthDatabase>(
    data: &AuthParams,
    db: &D,
    session: &mut PendingAuthState,
) -> (r: Result<AuthorizeReply, AppError>)
    ensures
        final(session)@ == state_after(data@, reply_view(r)),
        early_verdict(data@) is Some ==> reply_view(r) == reply_for(data@, verdict(data@, None)),
        early_verdict(data@) is None ==> reply_view(r) == reply_for(data@, verdict(data@, None))
            || (db.clients().contains_key(data@.client_id->0) && reply_view(r) == reply_for(
            data@,
            verdict(data@, Some(db.clients()[data@.client_id->0])),
        )),
        db.reliable() ==> reply_view(r) == authorize_answer(data@, db.clients()),
{
    handle_auth(data, db, session)
}

/// The authorization endpoint for a request that came by POST.
pub fn auth_post<D: OauthDatabase>(
    data: &AuthParams,
    db: &D,
    session: &mut PendingAuthState,
) -> (r: Result<AuthorizeReply, AppError>)
    ensures
        final(session)@ == state_after(data@, reply_view(r)),
        early_verdict(data@) is Some ==> reply_view(r) == reply_for(data@, verdict(data@, None)),
        early_verdict(data@) is None ==> reply_view(r) == reply_for(data@, verdict(data@, None))
            || (db.clients().contains_key(data@.client_id->0) && reply_view(r) == reply_for(
            data@,
            verdict(data@, Some(db.clients()[data@.client_id->0])),
        )),
        db.reliable() ==> reply_view(r) == authorize_answer(data@, db.clients()),
{
    handle_auth(data, db, session)
}

/// A request that names a redirect URI but no response type is answered
/// with the error `invalid_request`, sent to that URI by redirect, whoever
/// the client is. (Without a redirect URI there is nowhere to send it, and
/// a redirect URI that is no absolute URL cannot be redirected to.)
pub proof fn missing_response_type_is_invalid_request(
    p: AuthParamsView,
    client: Option<OauthClientView>,
)
    requires
        has_redirect_uri(p),
        p.response_type is None,
        redirect_url(
            p.redirect_uri->0,
            error_params(
                described_error("invalid_request"@, "response_type is required."@),
                p.state,
            ),
        ) is Some,
    ensures
        verdict(p, client) matches Ok(Some(e)) && e.error == "invalid_request"@,
        reply_for(p, verdict(p, client)) matches Ok(AuthorizeReplyView::Redirect { location })
            && Some(location) == error_location(
            p.redirect_uri->0,
            p.state,
            described_error("invalid_request"@, "response_type is required."@),
        ),
{
}

/// A request that asks for a scope beyond those that its client may ask
/// for is answered with the error `invalid_scope`, sent to the client by
/// redirect. This is said of requests that pass the checks that come
/// first: the request is well-formed, its redirect URI is registered for
/// the client, and its scope holds `openid`.
pub proof fn scope_beyond_allowed_is_invalid_scope(p: AuthParamsView, c: OauthClientView)
    requires
        early_verdict(p) is None,
        c.callback_urls() matches Some(urls) && urls.contains(p.redirect_uri->0),
        p.scope matches Some(scope) && words(scope).contains("openid"@) && !elements(
            words(scope),
        ).subset_of(elements(words(c.allowed_scopes))),
        redirect_url(
            p.redirect_uri->0,
            error_params(described_error("invalid_scope"@, "scope not allowed"@), p.state),
        ) is Some,
    ensures
        verdict(p, Some(c)) matches Ok(Some(e)) && e.error == "invalid_scope"@,
        reply_for(p, verdict(p, Some(c))) matches Ok(AuthorizeReplyView::Redirect { location })
            && Some(location) == error_location(
            p.redirect_uri->0,
            p.state,
            described_error("invalid_scope"@, "scope not allowed"@),
        ),
{
    lemma_all_within(words(p.scope->0), words(c.allowed_scopes));
}

/// A request whose redirect URI is not among those registered for its
/// client is answered with a plain error of the status 400, never with a
/// redirect. This is said of requests that are well-formed by themselves;
/// one that is not is answered before the client is looked at.
pub proof fn unregistered_redirect_uri_is_bad_request(p: AuthParamsView, c: OauthClientView)
    requires
        early_verdict(p) is None,
        c.callback_urls() matches Some(urls) && !urls.contains(p.redirect_uri->0),
    ensures
        verdict(p, Some(c)) matches Err(e) && e.status() == 400,
        reply_for(p, verdict(p, Some(c))) matches Err(e) && e.status() == 400,
{
}

/// A request for a client that is not found is answered with a plain error
/// of the status 400 as well.
pub proof fn unknown_client_is_bad_request(p: AuthParamsView)
    requires
        early_verdict(p) is None,
    ensures
        reply_for(p, verdict(p, None)) matches Err(e) && e.status() == 400,
{
}

/// A request is accepted only for a client that was found, and an accepted
/// request is bound to that client: it asks for a code, its redirect URI is
/// one of those registered for the client, and the scopes that it asks for,
/// if any, hold `openid` and stay within those that the client may ask for.
pub proof fn accepted_request_is_bound_to_its_client(
    p: AuthParamsView,
    client: Option<OauthClientView>,
)
    requires
        verdict(p, client) == Ok::<Option<OauthErrorView>, AppErrorView>(None),
    ensures
        client is Some,
        has_redirect_uri(p),
        p.response_type == Some("code"@),
        p.client_id is Some,
        client->0.callback_urls() matches Some(urls) && urls.contains(p.redirect_uri->0),
        p.scope matches Some(scope) ==> words(scope).contains("openid"@) && elements(
            words(scope),
        ).subset_of(elements(words(client->0.allowed_scopes))),
        state_for(p).redirect_uri == p.redirect_uri,
        state_for(p).scopes == p.scope,
{
    if p.scope is Some {
        lemma_all_within(words(p.scope->0), words(client->0.allowed_scopes));
    }
}

} // verus!
