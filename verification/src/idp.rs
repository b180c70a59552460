//! The identity provider's side of the flow: the login, the consent, the
//! user's refusal, and the issue of the authorization code that ends each
//! successful leg.

use vstd::prelude::*;
use crate::redirect::{redirect_url, url_with_query};
use vstd::utf8::encode_utf8;
use crate::config::{expires_at, expiry, ProviderConfig};
use crate::error::{bad_request, AppError, AppErrorView, InternalError, InternalErrorView};
use crate::models::{
    found,
    OauthClient,
    OauthClientView,
    OauthSession,
    OauthSessionView,
    User,
    UserView,
};
use crate::outside::{
    current_timestamp,
    is_ascii_alphanumeric,
    random_alphanumeric,
    sha256_hex,
    sha256_hex_digest,
};
use crate::session::{PendingAuthState, PendingAuthStateView};
use crate::store::{value_at, value_at_opt, OauthDatabase, UserDatabase};
use crate::text::{
    all_within,
    concat_lists,
    dedup,
    difference,
    distinct,
    elements,
    is_word,
    join,
    joined,
    lemma_distinct,
    lemma_without,
    lemma_words_of_joined,
    lists_all_of,
    opt_str_clone,
    split_whitespace,
    without,
    words,
};

verus! {

/// The number of characters of an authorization code. With 62 characters
/// to draw from this is a little over 128 bits.
pub const AUTH_CODE_LEN: usize = 22;

/// The credentials that the login form sends.
#[derive(Debug)]
pub struct LoginReq {
    pub username: String,
    pub password: String,
}

pub ghost struct LoginReqView {
    pub username: Seq<char>,
    pub password: Seq<char>,
}

impl View for LoginReq {
    type V = LoginReqView;

    open spec fn view(&self) -> LoginReqView {
        LoginReqView { username: self.username@, password: self.password@ }
    }
}

/// The request to the user to grant the scopes that the client asks for
/// and that the user has not granted yet.
#[derive(Debug)]
pub struct GrantScopesResponse {
    pub op: String,
    pub scopes: Vec<String>,
}

pub ghost struct GrantScopesResponseView {
    pub op: Seq<char>,
    pub scopes: Seq<Seq<char>>,
}

impl View for GrantScopesResponse {
    type V = GrantScopesResponseView;

    open spec fn view(&self) -> GrantScopesResponseView {
        GrantScopesResponseView { op: self.op@, scopes: self.scopes.deep_view() }
    }
}

/// The answer to a login.
#[derive(Debug)]
pub enum LoginReply {
    /// Nothing is left to consent to: the code was issued, and the browser
    /// goes back to the client at `location` (HTTP 302).
    Done { location: String },
    /// The user is asked for consent (HTTP 200).
    Grant(GrantScopesResponse),
}

pub ghost enum LoginReplyView {
    Done { location: Seq<char> },
    Grant(GrantScopesResponseView),
}

impl View for LoginReply {
    type V = LoginReplyView;

    open spec fn view(&self) -> LoginReplyView {
        match *self {
            LoginReply::Done { location } => LoginReplyView::Done { location: location@ },
            LoginReply::Grant(grant) => LoginReplyView::Grant(grant@),
        }
    }
}

impl LoginReply {
    /// The HTTP status of the answer.
    pub fn status_code(&self) -> (code: u16)
        ensures
            code == (if self is Done {
                302int
            } else {
                200int
            }),
    {
        match self {
            LoginReply::Done { .. } => crate::error::STATUS_FOUND,
            LoginReply::Grant(_) => crate::error::STATUS_OK,
        }
    }
}

/// The digest under which the password `password` is stored: the SHA-256 of
/// its UTF-8 bytes, in hexadecimal digits.
pub open spec fn password_digest(password: Seq<char>) -> Seq<char> {
    sha256_hex(encode_utf8(password))
}

/// The scopes that a scope string asks for: its words, each once.
pub open spec fn requested_scopes(scopes: Seq<char>) -> Seq<Seq<char>> {
    distinct(words(scopes))
}

/// The scopes that the scope string asks for and that are not among the
/// `granted`: those that need the user's consent.
pub open spec fn new_scopes(scopes: Seq<char>, granted: Set<Seq<char>>) -> Seq<Seq<char>> {
    without(requested_scopes(scopes), granted)
}

/// The scope string after a consent: what was granted before and what was
/// approved now, each scope once, separated by single spaces.
pub open spec fn consented_scopes(granted: Seq<Seq<char>>, approved: Seq<Seq<char>>) -> Seq<char> {
    joined(distinct(granted + approved), " "@)
}

/// The query parameters that carry the code back to the client: the code,
/// and the request's `state` where it had one.
pub open spec fn code_params(code: Seq<char>, state: Option<Seq<char>>) -> Seq<
    (Seq<char>, Seq<char>),
> {
    seq![("code"@, code)] + (match state {
        Some(s) => seq![("state"@, s)],
        None => Seq::empty(),
    })
}

/// The query parameters that report an error to the client: the error code,
/// its description, and the request's `state` where it had one.
pub open spec fn failure_params(
    error: Seq<char>,
    description: Seq<char>,
    state: Option<Seq<char>>,
) -> Seq<(Seq<char>, Seq<char>)> {
    seq![("error"@, error), ("error_description"@, description)] + (match state {
        Some(s) => seq![("state"@, s)],
        None => Seq::empty(),
    })
}

/// The record that is kept under a new code: who was authenticated, for
/// which client, with which scopes, and until when the code is good.
pub open spec fn code_record(
    s: PendingAuthStateView,
    client_id: Seq<char>,
    scopes: Seq<char>,
    code: Seq<char>,
    expiration: int,
) -> OauthSessionView {
    OauthSessionView {
        auth_code: code,
        client_id,
        scopes,
        nonce: s.nonce,
        subject: s.subject->0,
        expiration,
        auth_time: s.auth_time,
    }
}

/// What the issue of a code comes to before anything is stored: the record
/// to store and the URL to send the browser to, or what stands in the way.
/// `client` is what the lookup of the client has given.
pub open spec fn code_plan(
    s: PendingAuthStateView,
    client: Option<OauthClientView>,
    scopes: Seq<char>,
    code: Seq<char>,
    expiration: int,
) -> Result<(OauthSessionView, Seq<char>), InternalErrorView> {
    match client {
        None => Err(InternalErrorView::QueryError { msg: "failed to load the client config "@ }),
        Some(c) => if s.subject is None || s.redirect_uri is None {
            Err(InternalErrorView::SessionError)
        } else {
            match redirect_url(s.redirect_uri->0, code_params(code, s.state)) {
                None => Err(InternalErrorView::QueryError { msg: "invalid redirect_uri"@ }),
                Some(location) => Ok((code_record(s, c.id, scopes, code, expiration), location)),
            }
        },
    }
}

/// The view of an executable plan.
pub open spec fn plan_view(r: Result<(OauthSession, String), InternalError>) -> Result<
    (OauthSessionView, Seq<char>),
    InternalErrorView,
> {
    match r {
        Ok((record, location)) => Ok((record@, location@)),
        Err(e) => Err(e@),
    }
}

/// Draws up the issue of the code `code`: the record to store and the URL
/// that takes the code, and the `state` if there is one, back to the
/// redirect URI of the session. Nothing is stored yet.
pub fn plan_code(
    session: &PendingAuthState,
    lookup: Result<OauthClient, InternalError>,
    scopes: String,
    code: String,
    expiration: i64,
) -> (r: Result<(OauthSession, String), InternalError>)
    ensures
        plan_view(r) == code_plan(session@, found(lookup), scopes@, code@, expiration as int),
{
    let client = match lookup {
        Ok(client) => client,
        Err(_) => {
            return Err(InternalError::query_fail("failed to load the client config "));
        },
    };
    let subject = match &session.subject {
        Some(subject) => subject.clone(),
        None => {
            return Err(InternalError::SessionError);
        },
    };
    let redirect_uri = match &session.redirect_uri {
        Some(uri) => uri,
        None => {
            return Err(InternalError::SessionError);
        },
    };
    let mut params: Vec<(String, String)> = Vec::new();
    params.push(("code".to_owned(), code.clone()));
    match &session.state {
        Some(s) => {
            params.push(("state".to_owned(), s.clone()));
        },
        None => {},
    }
    assert(params.deep_view() =~= code_params(code@, session@.state));
    let location = match url_with_query(redirect_uri.as_str(), &params) {
        Some(location) => location,
        None => {
            return Err(InternalError::query_fail("invalid redirect_uri"));
        },
    };
    let record = OauthSession {
        auth_code: code,
        client_id: client.id,
        scopes,
        nonce: opt_str_clone(&session.nonce),
        subject,
        expiration,
        auth_time: session.auth_time,
    };
    Ok((record, location))
}

/// Whether the step from the codes `before` to the codes `after` is the
/// issue of `code` for the session `s`, with the browser sent to `location`:
/// the code was not in use, the record kept under it is the one that the
/// session calls for, nothing else has changed, and `location` is the
/// session's redirect URI with the code appended.
pub open spec fn issued(
    before: Map<Seq<char>, OauthSessionView>,
    after: Map<Seq<char>, OauthSessionView>,
    s: PendingAuthStateView,
    client_id: Seq<char>,
    scopes: Seq<char>,
    code: Seq<char>,
    expiration: int,
    location: Seq<char>,
) -> bool {
    &&& s.subject is Some
    &&& s.redirect_uri is Some
    &&& !before.contains_key(code)
    &&& after == before.insert(code, code_record(s, client_id, scopes, code, expiration))
    &&& redirect_url(s.redirect_uri->0, code_params(code, s.state)) == Some(location)
}

/// The URL that takes `code` back to the client of the session `s`, where
/// the code can be issued at all: the client was found (`client`), and the
/// session carries the user and a redirect URI that is an absolute URL.
pub open spec fn code_location(
    s: PendingAuthStateView,
    client: Option<OauthClientView>,
    code: Seq<char>,
) -> Option<Seq<char>> {
    if client is None || s.subject is None || s.redirect_uri is None {
        None
    } else {
        redirect_url(s.redirect_uri->0, code_params(code, s.state))
    }
}

/// The URL with which the issue of `code` ends where the clients `clients`
/// are registered and the codes `codes` are in use; nothing where the code
/// cannot be issued or is in use already.
pub open spec fn issue_result(
    s: PendingAuthStateView,
    clients: Map<Seq<char>, OauthClientView>,
    codes: Map<Seq<char>, OauthSessionView>,
    client_id: Seq<char>,
    code: Seq<char>,
) -> Option<Seq<char>> {
    if codes.contains_key(code) {
        None
    } else {
        code_location(s, value_at(clients, client_id), code)
    }
}

/// The URL that an issue has returned, if it has returned one.
pub open spec fn issued_location(r: Result<String, InternalError>) -> Option<Seq<char>> {
    match r {
        Ok(location) => Some(location@),
        Err(_) => None,
    }
}

/// Issues the authorization code `code`, good until `expiration`, for the
/// session's user and the client `client_id`, and returns the URL that takes
/// it to the client.
///
/// The code is stored if and only if the URL is returned. Nothing is
/// returned for a client that the lookup does not give, for a session
/// without a user or a redirect URI, for a redirect URI that is no absolute
/// URL, or where the code cannot be stored. With a reliable store these are
/// the only failures, and a code that is in use is the only reason for which
/// the code cannot be stored.
pub fn issue_code<D: OauthDatabase>(
    session: &PendingAuthState,
    client_id: &str,
    db: &mut D,
    scopes: String,
    code: String,
    expiration: i64,
) -> (r: Result<String, InternalError>)
    ensures
        final(db).reliable() == old(db).reliable(),
        final(db).clients() == old(db).clients(),
        final(db).tokens() == old(db).tokens(),
        old(db).reliable() ==> issued_location(r) == issue_result(
            session@,
            old(db).clients(),
            old(db).sessions(),
            client_id@,
            code@,
        ),
        old(db).reliable() ==> (r matches Err(e) ==> !(e is NotFound)),
        match r {
            Ok(location) => old(db).clients().contains_key(client_id@) && issued(
                old(db).sessions(),
                final(db).sessions(),
                session@,
                client_id@,
                scopes@,
                code@,
                expiration as int,
                location@,
            ),
            Err(_) => final(db).sessions() == old(db).sessions(),
        },
{
    let lookup = db.fetch_client_config(client_id);
    let (record, location) = match plan_code(session, lookup, scopes, code, expiration) {
        Ok(plan) => plan,
        Err(e) => {
            return Err(e);
        },
    };
    match db.save_oauth_session(record) {
        Ok(_) => Ok(location),
        Err(e) => Err(e),
    }
}

/// Whether `code` has the form of an authorization code: [`AUTH_CODE_LEN`]
/// ASCII letters and digits.
pub open spec fn is_auth_code(code: Seq<char>) -> bool {
    code.len() == AUTH_CODE_LEN && forall|i: int|
        0 <= i < code.len() ==> is_ascii_alphanumeric(#[trigger] code[i])
}

/// Issues a fresh authorization code for the session's user and the client
/// `client_id`, and returns the URL that takes it to the client.
///
/// The code is drawn at random and is good for the configured lifetime from
/// now on; which code and which instant is not known beforehand, so the
/// contract speaks of some code of the right form.
pub fn generate_callback<D: OauthDatabase>(
    session: &PendingAuthState,
    client_id: &str,
    db: &mut D,
    config: &ProviderConfig,
    scopes: String,
) -> (r: Result<String, InternalError>)
    ensures
        final(db).reliable() == old(db).reliable(),
        final(db).clients() == old(db).clients(),
        final(db).tokens() == old(db).tokens(),
        old(db).reliable() ==> exists|code: Seq<char>|
            is_auth_code(code) && issued_location(r) == #[trigger] issue_result(
                session@,
                old(db).clients(),
                old(db).sessions(),
                client_id@,
                code,
            ),
        match r {
            Ok(location) => old(db).clients().contains_key(client_id@) && exists|
                code: Seq<char>,
                now: int,
            |
                is_auth_code(code) && #[trigger] issued(
                    old(db).sessions(),
                    final(db).sessions(),
                    session@,
                    client_id@,
                    scopes@,
                    code,
                    expires_at(now, config@.auth_code_exp),
                    location@,
                ),
            Err(_) => final(db).sessions() == old(db).sessions(),
        },
{
    let code = random_alphanumeric(AUTH_CODE_LEN);
    let now = current_timestamp();
    let expiration = expiry(now, config.auth_code_exp);
    let ghost code_view = code@;
    let r = issue_code(session, client_id, db, scopes, code, expiration);
    proof {
        assert(is_auth_code(code_view));
        if old(db).reliable() {
            assert(issued_location(r) == issue_result(
                session@,
                old(db).clients(),
                old(db).sessions(),
                client_id@,
                code_view,
            ));
        }
        if r is Ok {
            assert(issued(
                old(db).sessions(),
                db.sessions(),
                session@,
                client_id@,
                scopes@,
                code_view,
                expires_at(now as int, config@.auth_code_exp),
                r->Ok_0@,
            ));
        }
    }
    r
}

/// The URL that reports the error `error` to `redirect_uri`, with the
/// session's `state` where it has one. A `redirect_uri` that is no absolute
/// URL is answered with an internal error.
pub fn generate_callback_err(
    session: &PendingAuthState,
    redirect_uri: &str,
    error: &str,
    description: &str,
) -> (r: Result<String, AppError>)
    ensures
        match r {
            Ok(location) => redirect_url(
                redirect_uri@,
                failure_params(error@, description@, session@.state),
            ) == Some(location@),
            Err(e) => e@ == AppErrorView::InternalError && redirect_url(
                redirect_uri@,
                failure_params(error@, description@, session@.state),
            ) is None,
        },
{
    let mut params: Vec<(String, String)> = Vec::new();
    params.push(("error".to_owned(), error.to_owned()));
    params.push(("error_description".to_owned(), description.to_owned()));
    match &session.state {
        Some(s) => {
            params.push(("state".to_owned(), s.clone()));
        },
        None => {},
    }
    assert(params.deep_view() =~= failure_params(error@, description@, session@.state));
    match url_with_query(redirect_uri, &params) {
        Some(location) => Ok(location),
        None => Err(AppError::InternalError),
    }
}

/// Who has logged in, and for what: the user's id, and the scopes and the
/// client of the request under way.
#[derive(Debug)]
pub struct LoginIdentity {
    pub user_id: String,
    pub scopes: String,
    pub client_id: String,
}

pub ghost struct LoginIdentityView {
    pub user_id: Seq<char>,
    pub scopes: Seq<char>,
    pub client_id: Seq<char>,
}

impl View for LoginIdentity {
    type V = LoginIdentityView;

    open spec fn view(&self) -> LoginIdentityView {
        LoginIdentityView {
            user_id: self.user_id@,
            scopes: self.scopes@,
            client_id: self.client_id@,
        }
    }
}

/// What a login comes to, given what the check of the credentials has
/// given (`user`: the id of the user, where there is one): a failed check
/// is unauthorized, and a session that does not carry the scopes and the
/// client of a request is no authorization session.
pub open spec fn login_identity(s: PendingAuthStateView, user: Option<Seq<char>>) -> Result<
    LoginIdentityView,
    AppErrorView,
> {
    if user is None {
        Err(AppErrorView::Unauthorized)
    } else if s.scopes is None {
        Err(AppErrorView::InvalidAuthSession { msg: "no <scope>"@ })
    } else if s.client_id is None {
        Err(AppErrorView::InvalidAuthSession { msg: "invalid auth-session: no <client_id>"@ })
    } else {
        Ok(LoginIdentityView { user_id: user->0, scopes: s.scopes->0, client_id: s.client_id->0 })
    }
}

/// The id of the user that a check of credentials has given, if any.
pub open spec fn logged_in(check: Result<User, InternalError>) -> Option<Seq<char>> {
    match check {
        Ok(user) => Some(user@.id),
        Err(_) => None,
    }
}

/// Decides what a login comes to once the credentials have been checked,
/// as [`login_identity`] says.
pub fn identify(session: &PendingAuthState, check: Result<User, InternalError>) -> (r: Result<
    LoginIdentity,
    AppError,
>)
    ensures
        match r {
            Ok(identity) => login_identity(session@, logged_in(check)) == Ok::<
                LoginIdentityView,
                AppErrorView,
            >(identity@),
            Err(e) => login_identity(session@, logged_in(check)) == Err::<
                LoginIdentityView,
                AppErrorView,
            >(e@),
        },
{
    let user = match check {
        Ok(user) => user,
        Err(_) => {
            return Err(AppError::Unauthorized);
        },
    };
    let scopes = match &session.scopes {
        Some(scopes) => scopes.clone(),
        None => {
            return Err(AppError::bad_auth_session("no <scope>"));
        },
    };
    let client_id = match &session.client_id {
        Some(client_id) => client_id.clone(),
        None => {
            return Err(AppError::bad_auth_session("invalid auth-session: no <client_id>"));
        },
    };
    Ok(LoginIdentity { user_id: user.id, scopes, client_id })
}

/// The scopes that `scopes` asks for and that `granted` does not hold:
/// each once, in the order in which the scope string names them.
pub fn scope_delta(scopes: &str, granted: &Vec<String>) -> (r: Vec<String>)
    ensures
        r.deep_view() == new_scopes(scopes@, elements(granted.deep_view())),
{
    let requested = dedup(&split_whitespace(scopes));
    difference(&requested, granted)
}

/// The scope string after a consent, as [`consented_scopes`] defines it.
pub fn merge_scopes(granted: &Vec<String>, approved: &Vec<String>) -> (r: String)
    ensures
        r@ == consented_scopes(granted.deep_view(), approved.deep_view()),
{
    let all = dedup(&concat_lists(granted, approved));
    join(&all, " ")
}

/// What the session holds once the user `user_id` has been authenticated at
/// the instant `now`.
pub open spec fn authenticated(
    s: PendingAuthStateView,
    user_id: Seq<char>,
    now: int,
) -> PendingAuthStateView {
    PendingAuthStateView { subject: Some(user_id), auth_time: Some(now), ..s }
}

/// Whether a login with the credentials `form` succeeds against `users` on
/// the session `s`: the user exists with the digest of the password, and
/// the session carries the scopes and the client of a request.
pub open spec fn login_succeeds<U: UserDatabase>(
    form: LoginReqView,
    users: &U,
    s: PendingAuthStateView,
) -> bool {
    &&& users.users().contains_key(form.username)
    &&& users.users()[form.username].password == password_digest(form.password)
    &&& s.scopes is Some
    &&& s.client_id is Some
}

/// Whether `e` is an error with which a login with the credentials `form`
/// on the session `s` may be refused. On a session that does not carry the
/// scopes and the client of a request, it is the error that says so, unless
/// the credentials were refused before. On any other session, it says that
/// the credentials were refused or that one of the stores did not answer.
pub open spec fn login_refusal(
    form: LoginReqView,
    s: PendingAuthStateView,
    e: AppErrorView,
) -> bool {
    match login_identity(s, Some(form.username)) {
        Err(cause) => e == AppErrorView::Unauthorized || e == cause,
        Ok(_) => e == AppErrorView::Unauthorized || e == AppErrorView::InternalError || e
            == AppErrorView::NotFound,
    }
}

/// What a login comes to with reliable stores, where `users` are the
/// users, `granted` is what the user has granted to the client of the
/// session, `clients` are the registered clients and `codes` the codes in
/// use.
///
/// Credentials that are not a user's are unauthorized, and a session that
/// is not that of an authorization request is refused as such. Scopes that
/// are new are put to the user. Where none is new the code is issued, and
/// what stands in the way of that is an internal error.
pub open spec fn login_result(
    form: LoginReqView,
    s: PendingAuthStateView,
    users: Map<Seq<char>, UserView>,
    granted: Set<Seq<char>>,
    clients: Map<Seq<char>, OauthClientView>,
    codes: Map<Seq<char>, OauthSessionView>,
    now: int,
    code: Seq<char>,
) -> Result<LoginReplyView, AppErrorView> {
    let known = users.contains_key(form.username) && users[form.username].password
        == password_digest(form.password);
    match login_identity(
        s,
        if known {
            Some(form.username)
        } else {
            None
        },
    ) {
        Err(e) => Err(e),
        Ok(identity) => {
            let delta = new_scopes(identity.scopes, granted);
            if delta.len() > 0 {
                Ok(LoginReplyView::Grant(GrantScopesResponseView { op: "GRANT"@, scopes: delta }))
            } else {
                match issue_result(
                    authenticated(s, form.username, now),
                    clients,
                    codes,
                    identity.client_id,
                    code,
                ) {
                    Some(location) => Ok(LoginReplyView::Done { location }),
                    None => Err(AppErrorView::InternalError),
                }
            }
        },
    }
}

/// The view of an executable answer to a login.
pub open spec fn login_view(r: Result<LoginReply, AppError>) -> Result<
    LoginReplyView,
    AppErrorView,
> {
    match r {
        Ok(reply) => Ok(reply@),
        Err(e) => Err(e@),
    }
}

/// Handles a login at the instant `now`, with `code` as the authorization
/// code to issue where one is issued.
///
/// The password is hashed and the credentials are checked. On the session
/// of an authorization request the user is then noted as authenticated, and
/// the scopes that the request asks for are held against those that the
/// user has granted to the client before. Where some are new, the answer
/// asks for consent to exactly these, and no code is issued. Where none is,
/// the code is issued with the scopes of the request. A login that is
/// refused, for whatever reason, leaves the session as it was. With
/// reliable stores the answer is the one that [`login_result`] gives.
pub fn login_at<D: OauthDatabase, U: UserDatabase>(
    form: &LoginReq,
    db: &mut D,
    users: &U,
    session: &mut PendingAuthState,
    config: &ProviderConfig,
    now: i64,
    code: String,
) -> (r: Result<LoginReply, AppError>)
    ensures
        final(db).reliable() == old(db).reliable(),
        final(db).clients() == old(db).clients(),
        final(db).tokens() == old(db).tokens(),
        old(db).reliable() && users.reliable() ==> login_view(r) == login_result(
            form@,
            old(session)@,
            users.users(),
            users.granted_scopes(old(session)@.client_id->0, form@.username),
            old(db).clients(),
            old(db).sessions(),
            now as int,
            code@,
        ),
        r is Ok ==> login_succeeds(form@, users, old(session)@),
        r is Ok ==> final(session)@ == authenticated(old(session)@, form@.username, now as int),
        r is Err ==> final(db).sessions() == old(db).sessions(),
        r is Err ==> final(session)@ == old(session)@,
        match r {
            Ok(LoginReply::Grant(grant)) => {
                &&& final(db).sessions() == old(db).sessions()
                &&& grant@.op == "GRANT"@
                &&& grant@.scopes.len() > 0
                &&& grant@.scopes == new_scopes(
                    old(session)@.scopes->0,
                    users.granted_scopes(old(session)@.client_id->0, form@.username),
                )
            },
            Ok(LoginReply::Done { location }) => {
                &&& new_scopes(
                    old(session)@.scopes->0,
                    users.granted_scopes(old(session)@.client_id->0, form@.username),
                ).len() == 0
                &&& old(db).clients().contains_key(old(session)@.client_id->0)
                &&& issued(
                    old(db).sessions(),
                    final(db).sessions(),
                    final(session)@,
                    old(session)@.client_id->0,
                    old(session)@.scopes->0,
                    code@,
                    expires_at(now as int, config@.auth_code_exp),
                    location@,
                )
            },
            Err(e) => login_refusal(form@, old(session)@, e@),
        },
{
    let pass = sha256_hex_digest(form.password.as_str().as_bytes());
    let check = users.login(form.username.as_str(), pass.as_str());
    let identity = match identify(session, check) {
        Ok(identity) => identity,
        Err(e) => {
            return Err(e);
        },
    };
    let granted = match users.fetch_granted_scopes(
        identity.client_id.as_str(),
        identity.user_id.as_str(),
    ) {
        Ok(granted) => granted,
        Err(e) => {
            return Err(e.to_user());
        },
    };
    let new_scopes = scope_delta(identity.scopes.as_str(), &granted);
    proof {
        assert(elements(granted.deep_view()) =~= users.granted_scopes(
            identity@.client_id,
            identity@.user_id,
        ));
    }
    let subject_before = opt_str_clone(&session.subject);
    let auth_time_before = session.auth_time;
    session.subject = Some(identity.user_id.clone());
    session.auth_time = Some(now);
    if new_scopes.len() == 0 {
        let expiration = expiry(now, config.auth_code_exp);
        match issue_code(
            session,
            identity.client_id.as_str(),
            db,
            identity.scopes,
            code,
            expiration,
        ) {
            Ok(location) => Ok(LoginReply::Done { location }),
            Err(e) => {
                session.subject = subject_before;
                session.auth_time = auth_time_before;
                Err(e.to_user())
            },
        }
    } else {
        Ok(LoginReply::Grant(GrantScopesResponse { op: "GRANT".to_owned(), scopes: new_scopes }))
    }
}

/// Handles a login now, with an authorization code drawn at random. See
/// [`login_at`], which takes the instant and the code as arguments and says
/// exactly what is issued.
pub fn login<D: OauthDatabase, U: UserDatabase>(
    form: &LoginReq,
    db: &mut D,
    users: &U,
    session: &mut PendingAuthState,
    config: &ProviderConfig,
) -> (r: Result<LoginReply, AppError>)
    ensures
        final(db).reliable() == old(db).reliable(),
        final(db).clients() == old(db).clients(),
        final(db).tokens() == old(db).tokens(),
        old(db).reliable() && users.reliable() ==> exists|code: Seq<char>, now: int|
            is_auth_code(code) && login_view(r) == #[trigger] login_result(
                form@,
                old(session)@,
                users.users(),
                users.granted_scopes(old(session)@.client_id->0, form@.username),
                old(db).clients(),
                old(db).sessions(),
                now,
                code,
            ),
        r is Ok ==> login_succeeds(form@, users, old(session)@),
        r is Ok ==> exists|now: int|
            final(session)@ == #[trigger] authenticated(old(session)@, form@.username, now),
        r is Err ==> final(db).sessions() == old(db).sessions(),
        r is Err ==> final(session)@ == old(session)@,
        match r {
            Ok(LoginReply::Grant(grant)) => {
                &&& final(db).sessions() == old(db).sessions()
                &&& grant@.op == "GRANT"@
                &&& grant@.scopes.len() > 0
                &&& grant@.scopes == new_scopes(
                    old(session)@.scopes->0,
                    users.granted_scopes(old(session)@.client_id->0, form@.username),
                )
            },
            Ok(LoginReply::Done { location }) => {
                &&& new_scopes(
                    old(session)@.scopes->0,
                    users.granted_scopes(old(session)@.client_id->0, form@.username),
                ).len() == 0
                &&& exists|code: Seq<char>, now: int|
                    is_auth_code(code) && final(session)@ == authenticated(
                        old(session)@,
                        form@.username,
                        now,
                    ) && #[trigger] issued(
                        old(db).sessions(),
                        final(db).sessions(),
                        final(session)@,
                        old(session)@.client_id->0,
                        old(session)@.scopes->0,
                        code,
                        expires_at(now, config@.auth_code_exp),
                        location@,
                    )
            },
            Err(e) => login_refusal(form@, old(session)@, e@),
        },
{
    let code = random_alphanumeric(AUTH_CODE_LEN);
    let now = current_timestamp();
    let ghost code_view = code@;
    let r = login_at(form, db, users, session, config, now, code);
    proof {
        assert(is_auth_code(code_view));
        if r is Ok {
            assert(session@ == authenticated(old(session)@, form@.username, now as int));
        }
        if old(db).reliable() && users.reliable() {
            assert(login_view(r) == login_result(
                form@,
                old(session)@,
                users.users(),
                users.granted_scopes(old(session)@.client_id->0, form@.username),
                old(db).clients(),
                old(db).sessions(),
                now as int,
                code_view,
            ));
        }
        match &r {
            Ok(LoginReply::Done { location }) => {
                assert(issued(
                    old(db).sessions(),
                    db.sessions(),
                    session@,
                    old(session)@.client_id->0,
                    old(session)@.scopes->0,
                    code_view,
                    expires_at(now as int, config@.auth_code_exp),
                    location@,
                ));
            },
            _ => {},
        }
    }
    r
}

/// Whether a consent can be taken on the session `s`: it carries the user
/// and the client.
pub open spec fn consent_session(s: PendingAuthStateView) -> Result<(), AppErrorView> {
    if s.subject is None {
        Err(bad_request("invalid auth-session: no <user-id>"@))
    } else if s.client_id is None {
        Err(bad_request("invalid auth-session: no <client_id>"@))
    } else {
        Ok(())
    }
}

/// Whether the step from the store `before` to the store `after` adds
/// `approved` to what the user of the session `s` has granted its client,
/// and nothing else.
pub open spec fn consented<U: UserDatabase>(
    before: &U,
    after: &U,
    s: PendingAuthStateView,
    approved: Seq<Seq<char>>,
) -> bool {
    after.granted_scopes(s.client_id->0, s.subject->0) == before.granted_scopes(
        s.client_id->0,
        s.subject->0,
    ).union(elements(approved))
}

/// What a consent comes to with reliable stores: the URL that takes `code`
/// to the client. A session without user or client is refused, and what
/// stands in the way of the issue of the code is an internal error.
pub open spec fn consent_result(
    s: PendingAuthStateView,
    clients: Map<Seq<char>, OauthClientView>,
    codes: Map<Seq<char>, OauthSessionView>,
    code: Seq<char>,
) -> Result<Seq<char>, AppErrorView> {
    match consent_session(s) {
        Err(e) => Err(e),
        Ok(_) => match issue_result(s, clients, codes, s.client_id->0, code) {
            Some(location) => Ok(location),
            None => Err(AppErrorView::InternalError),
        },
    }
}

/// Handles the user's consent to the scopes `scopes`, with `code` as the
/// authorization code to issue, good until `expiration`.
///
/// The approved scopes are added to the user's standing consent for the
/// client, and the code is issued for all that the user has granted the
/// client, before and now. A session without user or client is refused
/// before anything is read or stored.
pub fn consent_at<D: OauthDatabase, U: UserDatabase>(
    scopes: &Vec<String>,
    db: &mut D,
    users: &mut U,
    session: &PendingAuthState,
    code: String,
    expiration: i64,
) -> (r: Result<String, AppError>)
    ensures
        final(db).reliable() == old(db).reliable(),
        final(users).reliable() == old(users).reliable(),
        final(db).clients() == old(db).clients(),
        final(db).tokens() == old(db).tokens(),
        final(users).users() == old(users).users(),
        old(db).reliable() && old(users).reliable() ==> location_view(r) == consent_result(
            session@,
            old(db).clients(),
            old(db).sessions(),
            code@,
        ),
        old(users).reliable() && consent_session(session@) is Ok ==> consented(
            old(users),
            final(users),
            session@,
            scopes.deep_view(),
        ),
        forall|c: Seq<char>, u: Seq<char>|
            !(Some(c) == session@.client_id && Some(u) == session@.subject)
                ==> #[trigger] final(users).granted_scopes(c, u)
                == old(users).granted_scopes(c, u),
        consent_session(session@) matches Err(e) ==> r matches Err(err) && err@ == e,
        r is Err ==> final(db).sessions() == old(db).sessions(),
        r is Err ==> consented(old(users), final(users), session@, Seq::empty())
            || consented(old(users), final(users), session@, scopes.deep_view()),
        r is Ok ==> consent_session(session@) is Ok,
        r is Ok ==> consented(old(users), final(users), session@, scopes.deep_view()),
        r is Ok ==> old(db).clients().contains_key(session@.client_id->0),
        r matches Ok(location) ==> exists|granted: Seq<Seq<char>>|
            lists_all_of(
                granted,
                old(users).granted_scopes(session@.client_id->0, session@.subject->0),
            ) && #[trigger] issued(
                old(db).sessions(),
                final(db).sessions(),
                session@,
                session@.client_id->0,
                consented_scopes(granted, scopes.deep_view()),
                code@,
                expiration as int,
                location@,
            ),
{
    proof {
        let before = old(users).granted_scopes(session@.client_id->0, session@.subject->0);
        assert(elements(Seq::<Seq<char>>::empty()) =~= Set::<Seq<char>>::empty());
        assert(before.union(Set::<Seq<char>>::empty()) =~= before);
    }
    let uid = match &session.subject {
        Some(uid) => uid.clone(),
        None => {
            return Err(AppError::bad_req("invalid auth-session: no <user-id>"));
        },
    };
    let client_id = match &session.client_id {
        Some(client_id) => client_id.clone(),
        None => {
            return Err(AppError::bad_req("invalid auth-session: no <client_id>"));
        },
    };
    let granted = match users.fetch_granted_scopes(client_id.as_str(), uid.as_str()) {
        Ok(granted) => granted,
        Err(e) => {
            return Err(e.to_user());
        },
    };
    if scopes.len() > 0 {
        match users.save_granted_scopes(uid.as_str(), client_id.as_str(), scopes) {
            Ok(_) => {},
            Err(e) => {
                return Err(e.to_user());
            },
        }
    } else {
        assert(elements(scopes.deep_view()) =~= Set::<Seq<char>>::empty());
    }

    let granted_scopes_as_str = merge_scopes(&granted, scopes);
    let r = match issue_code(
        session,
        client_id.as_str(),
        db,
        granted_scopes_as_str,
        code,
        expiration,
    ) {
        Ok(location) => Ok(location),
        Err(e) => Err(e.to_user()),
    };
    assert(r is Ok ==> lists_all_of(
        granted.deep_view(),
        old(users).granted_scopes(session@.client_id->0, session@.subject->0),
    ));
    assert(r matches Ok(location) ==> issued(
        old(db).sessions(),
        db.sessions(),
        session@,
        session@.client_id->0,
        consented_scopes(granted.deep_view(), scopes.deep_view()),
        code@,
        expiration as int,
        location@,
    ));
    r
}

/// Handles the user's consent now, with an authorization code drawn at
/// random. See [`consent_at`], which takes the code and its expiration as
/// arguments and says exactly what is issued.
pub fn consent<D: OauthDatabase, U: UserDatabase>(
    scopes: &Vec<String>,
    db: &mut D,
    users: &mut U,
    session: &PendingAuthState,
    config: &ProviderConfig,
) -> (r: Result<String, AppError>)
    ensures
        final(db).reliable() == old(db).reliable(),
        final(users).reliable() == old(users).reliable(),
        final(db).clients() == old(db).clients(),
        final(db).tokens() == old(db).tokens(),
        final(users).users() == old(users).users(),
        old(db).reliable() && old(users).reliable() ==> exists|code: Seq<char>|
            is_auth_code(code) && location_view(r) == #[trigger] consent_result(
                session@,
                old(db).clients(),
                old(db).sessions(),
                code,
            ),
        old(users).reliable() && consent_session(session@) is Ok ==> consented(
            old(users),
            final(users),
            session@,
            scopes.deep_view(),
        ),
        forall|c: Seq<char>, u: Seq<char>|
            !(Some(c) == session@.client_id && Some(u) == session@.subject)
                ==> #[trigger] final(users).granted_scopes(c, u)
                == old(users).granted_scopes(c, u),
        consent_session(session@) matches Err(e) ==> r matches Err(err) && err@ == e,
        r is Err ==> consented(old(users), final(users), session@, Seq::empty())
            || consented(old(users), final(users), session@, scopes.deep_view()),
        match r {
            Ok(location) => {
                let cid = session@.client_id->0;
                let uid = session@.subject->0;
                &&& consent_session(session@) is Ok
                &&& consented(old(users), final(users), session@, scopes.deep_view())
                &&& old(db).clients().contains_key(cid)
                &&& exists|granted: Seq<Seq<char>>, code: Seq<char>, now: int|
                    lists_all_of(granted, old(users).granted_scopes(cid, uid)) && is_auth_code(code)
                        && #[trigger] issued(
                        old(db).sessions(),
                        final(db).sessions(),
                        session@,
                        cid,
                        consented_scopes(granted, scopes.deep_view()),
                        code,
                        expires_at(now, config@.auth_code_exp),
                        location@,
                    )
            },
            Err(_) => final(db).sessions() == old(db).sessions(),
        },
{
    let code = random_alphanumeric(AUTH_CODE_LEN);
    let now = current_timestamp();
    let expiration = expiry(now, config.auth_code_exp);
    let ghost code_view = code@;
    let r = consent_at(scopes, db, users, session, code, expiration);
    proof {
        assert(is_auth_code(code_view));
        if old(db).reliable() && old(users).reliable() {
            assert(location_view(r) == consent_result(
                session@,
                old(db).clients(),
                old(db).sessions(),
                code_view,
            ));
        }
        if r is Ok {
            let location = r->Ok_0;
            let cid = session@.client_id->0;
            let uid = session@.subject->0;
            let granted = choose|granted: Seq<Seq<char>>|
                lists_all_of(granted, old(users).granted_scopes(cid, uid)) && #[trigger] issued(
                    old(db).sessions(),
                    db.sessions(),
                    session@,
                    cid,
                    consented_scopes(granted, scopes.deep_view()),
                    code_view,
                    expiration as int,
                    location@,
                );
            assert(issued(
                old(db).sessions(),
                db.sessions(),
                session@,
                cid,
                consented_scopes(granted, scopes.deep_view()),
                code_view,
                expires_at(now as int, config@.auth_code_exp),
                location@,
            ));
        }
    }
    r
}

/// Where the browser goes when the user has refused: to the first of the
/// client's registered redirect URIs, with the error `access_denied`.
/// `client` is what the lookup of the session's client has given.
pub open spec fn denial(s: PendingAuthStateView, client: Option<OauthClientView>) -> Result<
    Seq<char>,
    AppErrorView,
> {
    if s.client_id is None {
        Err(bad_request("client_id is missing"@))
    } else if client is None {
        Err(AppErrorView::InternalError)
    } else if client->0.callback_urls() is None || client->0.callback_urls()->0.len() == 0 {
        Err(AppErrorView::InternalError)
    } else {
        match redirect_url(
            client->0.callback_urls()->0[0],
            failure_params("access_denied"@, "User denied access"@, s.state),
        ) {
            Some(location) => Ok(location),
            None => Err(AppErrorView::InternalError),
        }
    }
}

/// The view of an executable redirect or error.
pub open spec fn location_view(r: Result<String, AppError>) -> Result<Seq<char>, AppErrorView> {
    match r {
        Ok(location) => Ok(location@),
        Err(e) => Err(e@),
    }
}

/// Answers the user's refusal, given what the lookup of the session's
/// client has come to, as [`denial`] says.
pub fn deny(session: &PendingAuthState, lookup: Result<OauthClient, InternalError>) -> (r: Result<
    String,
    AppError,
>)
    ensures
        location_view(r) == denial(session@, found(lookup)),
{
    if session.client_id.is_none() {
        return Err(AppError::bad_req("client_id is missing"));
    }
    let client = match lookup {
        Ok(client) => client,
        Err(_) => {
            return Err(AppError::InternalError);
        },
    };
    let callback_urls = match client.callback_urls() {
        Ok(list) => list,
        Err(_) => {
            return Err(AppError::InternalError);
        },
    };
    if callback_urls.len() == 0 {
        return Err(AppError::InternalError);
    }
    generate_callback_err(
        session,
        callback_urls[0].as_str(),
        "access_denied",
        "User denied access",
    )
}

/// Handles the user's refusal to log in or to consent: the browser goes
/// back to the client with the error `access_denied`. Nothing is stored and
/// no code is issued.
pub fn cancel_login<D: OauthDatabase>(db: &D, session: &PendingAuthState) -> (r: Result<
    String,
    AppError,
>)
    ensures
        session@.client_id is None ==> location_view(r) == denial(session@, None),
        session@.client_id is Some ==> location_view(r) == denial(session@, None) || (
        db.clients().contains_key(session@.client_id->0) && location_view(r) == denial(
            session@,
            Some(db.clients()[session@.client_id->0]),
        )),
        db.reliable() ==> location_view(r) == denial(
            session@,
            value_at_opt(db.clients(), session@.client_id),
        ),
{
    match &session.client_id {
        None => Err(AppError::bad_req("client_id is missing")),
        Some(client_id) => {
            let lookup = db.fetch_client_config(client_id.as_str());
            deny(session, lookup)
        },
    }
}

/// A login that asks for scopes which were all granted before needs no
/// consent: nothing is new.
pub proof fn granted_scopes_need_no_consent(scopes: Seq<char>, granted: Set<Seq<char>>)
    requires
        forall|w: Seq<char>| words(scopes).contains(w) ==> granted.contains(w),
    ensures
        new_scopes(scopes, granted).len() == 0,
{
    lemma_distinct(words(scopes));
    lemma_without(requested_scopes(scopes), granted);
    let delta = without(distinct(words(scopes)), granted);
    if delta.len() > 0 {
        let w = delta[0];
        assert(delta.contains(w));
        assert(distinct(words(scopes)).contains(w) && !granted.contains(w));
        assert(words(scopes).contains(w));
    }
}

/// Once the user has approved the scopes that a login asked consent for,
/// a second login that asks for the same scopes finds nothing new, whatever
/// else was approved or granted.
pub proof fn repeated_login_needs_no_consent(
    scopes: Seq<char>,
    granted_before: Set<Seq<char>>,
    approved: Seq<Seq<char>>,
)
    requires
        all_within(new_scopes(scopes, granted_before), approved),
    ensures
        new_scopes(scopes, granted_before.union(elements(approved))).len() == 0,
{
    let after = granted_before.union(elements(approved));
    lemma_distinct(words(scopes));
    lemma_without(requested_scopes(scopes), granted_before);
    lemma_without(requested_scopes(scopes), after);
    let first = new_scopes(scopes, granted_before);
    let second = new_scopes(scopes, after);
    if second.len() > 0 {
        let w = second[0];
        assert(second.contains(w));
        assert(requested_scopes(scopes).contains(w) && !after.contains(w));
        assert(first.contains(w));
        let k = choose|k: int| 0 <= k < first.len() && first[k] == w;
        assert(approved.contains(first[k]));
    }
}

/// A login that asks for scopes which the user has all granted before is
/// never answered with a request for consent: with reliable stores the code
/// is issued, or the login fails.
pub proof fn login_with_granted_scopes_asks_nothing(
    form: LoginReqView,
    s: PendingAuthStateView,
    users: Map<Seq<char>, UserView>,
    granted: Set<Seq<char>>,
    clients: Map<Seq<char>, OauthClientView>,
    codes: Map<Seq<char>, OauthSessionView>,
    now: int,
    code: Seq<char>,
)
    requires
        s.scopes matches Some(scopes) ==> forall|w: Seq<char>|
            words(scopes).contains(w) ==> granted.contains(w),
    ensures
        !(login_result(form, s, users, granted, clients, codes, now, code) matches Ok(
            LoginReplyView::Grant(_),
        )),
{
    if s.scopes is Some {
        granted_scopes_need_no_consent(s.scopes->0, granted);
    }
}

/// The scope string that a consent stores is read back as the scopes that
/// were granted: the scopes granted before and those approved now, each
/// once. This is said of scopes that are words, which every scope is that
/// was read from a scope string.
pub proof fn consented_scopes_are_read_back(granted: Seq<Seq<char>>, approved: Seq<Seq<char>>)
    requires
        forall|i: int| 0 <= i < granted.len() ==> is_word(#[trigger] granted[i]),
        forall|i: int| 0 <= i < approved.len() ==> is_word(#[trigger] approved[i]),
    ensures
        words(consented_scopes(granted, approved)) == distinct(granted + approved),
        forall|w: Seq<char>|
            words(consented_scopes(granted, approved)).contains(w) <==> granted.contains(w)
                || approved.contains(w),
{
    let all = granted + approved;
    let once = distinct(all);
    lemma_distinct(all);
    assert forall|i: int| 0 <= i < once.len() implies is_word(#[trigger] once[i]) by {
        assert(once.contains(once[i]));
        assert(all.contains(once[i]));
        let k = choose|k: int| 0 <= k < all.len() && all[k] == once[i];
        if k < granted.len() {
            assert(all[k] == granted[k]);
        } else {
            assert(all[k] == approved[k - granted.len()]);
        }
    }
    lemma_words_of_joined(once);
    assert forall|w: Seq<char>| all.contains(w) <==> granted.contains(w) || approved.contains(
        w,
    ) by {
        if all.contains(w) {
            let k = choose|k: int| 0 <= k < all.len() && all[k] == w;
            if k < granted.len() {
                assert(granted[k] == w);
            } else {
                assert(approved[k - granted.len()] == w);
            }
        }
        if granted.contains(w) {
            let k = choose|k: int| 0 <= k < granted.len() && granted[k] == w;
            assert(all[k] == w);
        }
        if approved.contains(w) {
            let k = choose|k: int| 0 <= k < approved.len() && approved[k] == w;
            assert(all[k + granted.len()] == w);
        }
    }
}

} // verus!
