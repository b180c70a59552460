//! The userinfo endpoint: it resolves a bearer access token to the claims
//! about its user that the token's scopes allow.

use vstd::prelude::*;
use crate::error::{
    AppError,
    AppErrorView,
    InternalError,
    STATUS_FORBIDDEN,
    STATUS_OK,
    STATUS_UNAUTHORIZED,
};
use crate::models::{OauthToken, OauthTokenView, User, UserView};
use crate::store::{value_at, OauthDatabase, UserDatabase};
use crate::text::{
    contains,
    has_prefix,
    opt_str_clone,
    skip_chars,
    split_whitespace,
    starts_with,
    str_concat,
    str_eq,
    words,
};

verus! {

/// The claims about a user. Only `sub` is always there.
#[derive(Debug)]
pub struct UserInfoClaims {
    pub sub: String,
    pub name: Option<String>,
    pub given_name: Option<String>,
    pub family_name: Option<String>,
    pub email: Option<String>,
    pub email_verified: Option<bool>,
    pub phone_number: Option<String>,
    pub phone_number_verified: Option<bool>,
    pub address: Option<String>,
    pub locale: Option<String>,
    pub birthdate: Option<String>,
}

pub ghost struct UserInfoClaimsView {
    pub sub: Seq<char>,
    pub name: Option<Seq<char>>,
    pub given_name: Option<Seq<char>>,
    pub family_name: Option<Seq<char>>,
    pub email: Option<Seq<char>>,
    pub email_verified: Option<bool>,
    pub phone_number: Option<Seq<char>>,
    pub phone_number_verified: Option<bool>,
    pub address: Option<Seq<char>>,
    pub locale: Option<Seq<char>>,
    pub birthdate: Option<Seq<char>>,
}

impl View for UserInfoClaims {
    type V = UserInfoClaimsView;

    open spec fn view(&self) -> UserInfoClaimsView {
        UserInfoClaimsView {
            sub: self.sub@,
            name: self.name.deep_view(),
            given_name: self.given_name.deep_view(),
            family_name: self.family_name.deep_view(),
            email: self.email.deep_view(),
            email_verified: self.email_verified,
            phone_number: self.phone_number.deep_view(),
            phone_number_verified: self.phone_number_verified,
            address: self.address.deep_view(),
            locale: self.locale.deep_view(),
            birthdate: self.birthdate.deep_view(),
        }
    }
}

/// The claims that say who the user is and nothing more.
pub open spec fn bare_claims(sub: Seq<char>) -> UserInfoClaimsView {
    UserInfoClaimsView {
        sub,
        name: None,
        given_name: None,
        family_name: None,
        email: None,
        email_verified: None,
        phone_number: None,
        phone_number_verified: None,
        address: None,
        locale: None,
        birthdate: None,
    }
}

impl UserInfoClaims {
    /// The claims that say who the user is and nothing more.
    pub fn new(sub: &str) -> (claims: UserInfoClaims)
        ensures
            claims@ == bare_claims(sub@),
    {
        UserInfoClaims {
            sub: sub.to_owned(),
            name: None,
            given_name: None,
            family_name: None,
            email: None,
            email_verified: None,
            phone_number: None,
            phone_number_verified: None,
            address: None,
            locale: None,
            birthdate: None,
        }
    }
}

/// A refusal of the userinfo endpoint: the HTTP status, the error code and
/// its description.
#[derive(Debug)]
pub struct UserInfoError {
    pub status: u16,
    pub error: String,
    pub description: String,
}

pub ghost struct UserInfoErrorView {
    pub status: int,
    pub error: Seq<char>,
    pub description: Seq<char>,
}

impl View for UserInfoError {
    type V = UserInfoErrorView;

    open spec fn view(&self) -> UserInfoErrorView {
        UserInfoErrorView {
            status: self.status as int,
            error: self.error@,
            description: self.description@,
        }
    }
}

/// The value of the `WWW-Authenticate` header that reports `e`.
pub open spec fn www_authenticate(e: UserInfoErrorView) -> Seq<char> {
    "error=\""@ + e.error + "\",error_description=\""@ + e.description + "\""@
}

/// The refusal with the status `status`.
pub open spec fn refusal(
    status: int,
    error: Seq<char>,
    description: Seq<char>,
) -> UserInfoErrorView {
    UserInfoErrorView { status, error, description }
}

impl UserInfoError {
    /// The refusal with the status `status`.
    pub fn new(status: u16, error: &str, description: &str) -> (e: UserInfoError)
        ensures
            e@ == refusal(status as int, error@, description@),
    {
        UserInfoError { status, error: error.to_owned(), description: description.to_owned() }
    }

    /// The value of the `WWW-Authenticate` header of the response.
    pub fn www_authenticate(&self) -> (header: String)
        ensures
            header@ == www_authenticate(self@),
    {
        let mut header = str_concat("error=\"", self.error.as_str());
        header.append("\",error_description=\"");
        header.append(self.description.as_str());
        header.append("\"");
        assert(header@ =~= www_authenticate(self@));
        header
    }

    /// The body of the response: the error code as plain text.
    pub fn body(&self) -> (body: String)
        ensures
            body@ == self@.error,
    {
        self.error.clone()
    }
}

/// The response that refuses a request with the status `status`: its
/// status, the value of its `WWW-Authenticate` header, and its body.
pub fn err_resp(status: u16, error: &str, error_description: &str) -> (r: (u16, String, String))
    ensures
        r.0 == status,
        r.1@ == www_authenticate(refusal(status as int, error@, error_description@)),
        r.2@ == error@,
{
    let e = UserInfoError::new(status, error, error_description);
    (status, e.www_authenticate(), e.body())
}

/// The access token that the `Authorization` header `authorization` carries,
/// or why it carries none: a header that is missing or empty, or that names
/// no token, lacks the token; one that does not begin with `Bearer ` is
/// invalid.
pub open spec fn bearer_token(authorization: Option<Seq<char>>) -> Result<
    Seq<char>,
    UserInfoErrorView,
> {
    if authorization is None {
        Err(refusal(401, "token_missing"@, "no header"@))
    } else if authorization->0.len() == 0 {
        Err(refusal(401, "token_missing"@, "Bearer token expected"@))
    } else if !has_prefix(authorization->0, "Bearer "@) {
        Err(refusal(401, "invalid_token"@, "Expected type Bearer."@))
    } else if authorization->0.len() == 7 {
        Err(refusal(401, "token_missing"@, "Bearer token expected"@))
    } else {
        Ok(authorization->0.skip(7))
    }
}

/// Takes the access token out of the `Authorization` header, as
/// [`bearer_token`] says.
pub fn extract_token(authorization: Option<&str>) -> (r: Result<String, UserInfoError>)
    ensures
        match r {
            Ok(token) => bearer_token(authorization.deep_view()) == Ok::<
                Seq<char>,
                UserInfoErrorView,
            >(token@),
            Err(e) => bearer_token(authorization.deep_view()) == Err::<
                Seq<char>,
                UserInfoErrorView,
            >(e@),
        },
{
    let auth = match authorization {
        Some(auth) => auth,
        None => {
            return Err(UserInfoError::new(STATUS_UNAUTHORIZED, "token_missing", "no header"));
        },
    };
    let len = auth.unicode_len();
    if len == 0 {
        return Err(
            UserInfoError::new(STATUS_UNAUTHORIZED, "token_missing", "Bearer token expected"),
        );
    }
    if !starts_with(auth, "Bearer ") {
        return Err(
            UserInfoError::new(STATUS_UNAUTHORIZED, "invalid_token", "Expected type Bearer."),
        );
    }
    proof {
        reveal_strlit("Bearer ");
        assert("Bearer "@.len() == 7);
    }
    if len == 7 {
        return Err(
            UserInfoError::new(STATUS_UNAUTHORIZED, "token_missing", "Bearer token expected"),
        );
    }
    Ok(skip_chars(auth, 7))
}

/// What a token is good for at the userinfo endpoint: its subject and its
/// scopes.
#[derive(Debug)]
pub struct Grant {
    pub subject: String,
    pub scopes: Vec<String>,
}

pub ghost struct GrantView {
    pub subject: Seq<char>,
    pub scopes: Seq<Seq<char>>,
}

impl View for Grant {
    type V = GrantView;

    open spec fn view(&self) -> GrantView {
        GrantView { subject: self.subject@, scopes: self.scopes.deep_view() }
    }
}

/// What the token with the record `data` is good for, or why it is good
/// for nothing here: it must be an access token, its scopes must hold
/// `openid`, and it must stand for a user.
pub open spec fn token_grant(data: OauthTokenView) -> Result<GrantView, UserInfoErrorView> {
    if data.token_type != "access"@ {
        Err(refusal(403, "invalid_token"@, "wrong type"@))
    } else if data.scopes is None || !words(data.scopes->0).contains("openid"@) {
        Err(refusal(403, "forbidden"@, "Missing scope 'openid'"@))
    } else if data.subject is None {
        Err(refusal(403, "not possible"@, ""@))
    } else {
        Ok(GrantView { subject: data.subject->0, scopes: words(data.scopes->0) })
    }
}

/// Decides what the token with the record `data` is good for, as
/// [`token_grant`] says.
pub fn check_token(data: &OauthToken) -> (r: Result<Grant, UserInfoError>)
    ensures
        match r {
            Ok(grant) => token_grant(data@) == Ok::<GrantView, UserInfoErrorView>(grant@),
            Err(e) => token_grant(data@) == Err::<GrantView, UserInfoErrorView>(e@),
        },
{
    if !str_eq(data.token_type.as_str(), "access") {
        return Err(UserInfoError::new(STATUS_FORBIDDEN, "invalid_token", "wrong type"));
    }
    let scopes = match &data.scopes {
        Some(scopes) => split_whitespace(scopes.as_str()),
        None => {
            return Err(UserInfoError::new(STATUS_FORBIDDEN, "forbidden", "Missing scope 'openid'"));
        },
    };
    if !contains(&scopes, "openid") {
        return Err(UserInfoError::new(STATUS_FORBIDDEN, "forbidden", "Missing scope 'openid'"));
    }
    match &data.subject {
        Some(subject) => Ok(Grant { subject: subject.clone(), scopes }),
        None => Err(UserInfoError::new(STATUS_FORBIDDEN, "not possible", "")),
    }
}

/// The name to show for `user`: the preferred one, or else the given and
/// the family name with a space between them.
pub open spec fn display_name(user: UserView) -> Seq<char> {
    match user.preferred_display_name {
        Some(name) => name,
        None => user.given_name + " "@ + user.family_name,
    }
}

/// The claims about `user` that the scopes `scopes` allow. The subject is
/// always there. `email` and `phone` add the address or number, where the
/// user has one, as unverified; `profile` adds the names, the locale and
/// the date of birth; `address` adds the address.
pub open spec fn claims_for(
    subject: Seq<char>,
    scopes: Seq<Seq<char>>,
    user: UserView,
) -> UserInfoClaimsView {
    let email = scopes.contains("email"@) && user.email is Some;
    let phone = scopes.contains("phone"@) && user.phone is Some;
    let profile = scopes.contains("profile"@);
    UserInfoClaimsView {
        sub: subject,
        name: if profile {
            Some(display_name(user))
        } else {
            None
        },
        given_name: if profile {
            Some(user.given_name)
        } else {
            None
        },
        family_name: if profile {
            Some(user.family_name)
        } else {
            None
        },
        email: if email {
            user.email
        } else {
            None
        },
        email_verified: if email {
            Some(false)
        } else {
            None
        },
        phone_number: if phone {
            user.phone
        } else {
            None
        },
        phone_number_verified: if phone {
            Some(false)
        } else {
            None
        },
        address: if scopes.contains("address"@) {
            user.address
        } else {
            None
        },
        locale: if profile {
            user.locale
        } else {
            None
        },
        birthdate: if profile {
            user.birthdate
        } else {
            None
        },
    }
}

/// Builds the claims about `user` that the scopes allow, as [`claims_for`]
/// says.
pub fn project_claims(subject: &str, scopes: &Vec<String>, user: &User) -> (claims: UserInfoClaims)
    ensures
        claims@ == claims_for(subject@, scopes.deep_view(), user@),
{
    let mut user_info = UserInfoClaims::new(subject);
    if contains(scopes, "email") && user.email.is_some() {
        user_info.email = opt_str_clone(&user.email);
        user_info.email_verified = Some(false);
    }
    if contains(scopes, "phone") && user.phone.is_some() {
        user_info.phone_number = opt_str_clone(&user.phone);
        user_info.phone_number_verified = Some(false);
    }
    if contains(scopes, "profile") {
        user_info.given_name = Some(user.given_name.clone());
        user_info.family_name = Some(user.family_name.clone());
        let name = match &user.preferred_display_name {
            Some(name) => name.clone(),
            None => {
                let mut name = str_concat(user.given_name.as_str(), " ");
                name.append(user.family_name.as_str());
                name
            },
        };
        user_info.name = Some(name);
        user_info.locale = opt_str_clone(&user.locale);
        user_info.birthdate = opt_str_clone(&user.birthdate);
    }
    if contains(scopes, "address") {
        user_info.address = opt_str_clone(&user.address);
    }
    user_info
}

/// The answer of the userinfo endpoint.
#[derive(Debug)]
pub enum UserInfoReply {
    /// The claims (HTTP 200).
    Claims(UserInfoClaims),
    /// A refusal (HTTP 401 or 403) with a `WWW-Authenticate` header.
    Denied(UserInfoError),
}

pub ghost enum UserInfoReplyView {
    Claims(UserInfoClaimsView),
    Denied(UserInfoErrorView),
}

impl View for UserInfoReply {
    type V = UserInfoReplyView;

    open spec fn view(&self) -> UserInfoReplyView {
        match *self {
            UserInfoReply::Claims(claims) => UserInfoReplyView::Claims(claims@),
            UserInfoReply::Denied(e) => UserInfoReplyView::Denied(e@),
        }
    }
}

impl UserInfoReplyView {
    /// The HTTP status of the answer.
    pub open spec fn status(self) -> int {
        match self {
            UserInfoReplyView::Claims(_) => 200,
            UserInfoReplyView::Denied(e) => e.status,
        }
    }
}

impl UserInfoReply {
    /// The HTTP status of the answer.
    pub fn status_code(&self) -> (code: u16)
        ensures
            code == self@.status(),
    {
        match self {
            UserInfoReply::Claims(_) => STATUS_OK,
            UserInfoReply::Denied(e) => e.status,
        }
    }
}

/// The answer to a request that carries the `Authorization` header
/// `authorization`, where `token` is the record of its access token and
/// `user` the profile of the token's subject, as far as they were found.
/// A record or a profile that was not found is the error of the lookup and
/// has no answer of its own.
pub open spec fn userinfo_answer(
    authorization: Option<Seq<char>>,
    token: Option<OauthTokenView>,
    user: Option<UserView>,
) -> Option<UserInfoReplyView> {
    match bearer_token(authorization) {
        Err(e) => Some(UserInfoReplyView::Denied(e)),
        Ok(_) => match token {
            None => None,
            Some(data) => match token_grant(data) {
                Err(e) => Some(UserInfoReplyView::Denied(e)),
                Ok(grant) => match user {
                    None => None,
                    Some(u) => Some(
                        UserInfoReplyView::Claims(claims_for(grant.subject, grant.scopes, u)),
                    ),
                },
            },
        },
    }
}

/// The record of the access token that the header carries, as far as
/// `tokens` holds one.
pub open spec fn presented_token(
    authorization: Option<Seq<char>>,
    tokens: Map<Seq<char>, OauthTokenView>,
) -> Option<OauthTokenView> {
    match bearer_token(authorization) {
        Ok(token) => value_at(tokens, token),
        Err(_) => None,
    }
}

/// The profile of the user that the token of the header stands for, as far
/// as the token is good for one and `users` holds it.
pub open spec fn presented_user(
    authorization: Option<Seq<char>>,
    tokens: Map<Seq<char>, OauthTokenView>,
    users: Map<Seq<char>, UserView>,
) -> Option<UserView> {
    match presented_token(authorization, tokens) {
        Some(data) => match token_grant(data) {
            Ok(grant) => value_at(users, grant.subject),
            Err(_) => None,
        },
        None => None,
    }
}

/// The answer to a request with the header `authorization` where the stores
/// hold `tokens` and `users`; nothing where the token, or the user that it
/// stands for, is not found.
pub open spec fn userinfo_reply(
    authorization: Option<Seq<char>>,
    tokens: Map<Seq<char>, OauthTokenView>,
    users: Map<Seq<char>, UserView>,
) -> Option<UserInfoReplyView> {
    userinfo_answer(
        authorization,
        presented_token(authorization, tokens),
        presented_user(authorization, tokens, users),
    )
}

/// The userinfo endpoint.
///
/// A request without a usable bearer token is refused with 401, whatever
/// the stores hold. Otherwise the token is looked up; a token of the wrong
/// kind, without the scope `openid` or without a subject is refused with
/// 403, and for any other the claims about its subject are returned, as far
/// as the token's scopes allow. Where the token or the user is not found,
/// or a store does not answer, the error of the lookup is returned in the
/// form that the client may see. A token that is good for nothing here is
/// refused without a look at the users, so that this refusal is owed where
/// the store of the tokens alone is reliable. With both stores reliable the
/// request is answered wherever there is an answer, and refused as not
/// found where there is none.
pub fn userinfo_endoint<D: OauthDatabase, U: UserDatabase>(
    authorization: Option<&str>,
    db: &D,
    users: &U,
) -> (r: Result<UserInfoReply, AppError>)
    ensures
        bearer_token(authorization.deep_view()) is Err ==> r is Ok,
        r matches Ok(reply) ==> userinfo_reply(
            authorization.deep_view(),
            db.tokens(),
            users.users(),
        ) == Some(reply@),
        r matches Err(e) ==> e@ == AppErrorView::InternalError || (e@ == AppErrorView::NotFound
            && userinfo_reply(authorization.deep_view(), db.tokens(), users.users()) is None),
        db.reliable() ==> (presented_token(authorization.deep_view(), db.tokens()) matches Some(
            data,
        ) && token_grant(data) is Err ==> r is Ok),
        db.reliable() && users.reliable() ==> (r matches Err(e) ==> e@
            == AppErrorView::NotFound),
        db.reliable() && users.reliable() ==> (userinfo_reply(
            authorization.deep_view(),
            db.tokens(),
            users.users(),
        ) is Some ==> r is Ok),
{
    let token = match extract_token(authorization) {
        Ok(token) => token,
        Err(e) => {
            return Ok(UserInfoReply::Denied(e));
        },
    };
    let data = match db.load_token_data(token.as_str()) {
        Ok(data) => data,
        Err(e) => {
            return Err(e.to_user());
        },
    };
    let grant = match check_token(&data) {
        Ok(grant) => grant,
        Err(e) => {
            return Ok(UserInfoReply::Denied(e));
        },
    };
    let user = match users.fetch_user(grant.subject.as_str()) {
        Ok(user) => user,
        Err(e) => {
            return Err(e.to_user());
        },
    };
    Ok(UserInfoReply::Claims(project_claims(grant.subject.as_str(), &grant.scopes, &user)))
}

/// A token whose scopes lack `openid` is refused with the status 403,
/// whatever else its record holds and whoever its user is.
pub proof fn token_without_openid_is_forbidden(
    authorization: Option<Seq<char>>,
    data: OauthTokenView,
    user: Option<UserView>,
)
    requires
        bearer_token(authorization) is Ok,
        data.scopes is None || !words(data.scopes->0).contains("openid"@),
    ensures
        token_grant(data) matches Err(e) && e.status == 403,
        userinfo_answer(authorization, Some(data), user) matches Some(reply) && reply.status()
            == 403,
{
}

/// With the scope `profile`, a user without a preferred name is shown by
/// the given and the family name with one space between them.
pub proof fn profile_name_is_given_and_family_name(
    subject: Seq<char>,
    scopes: Seq<Seq<char>>,
    user: UserView,
)
    requires
        scopes.contains("profile"@),
        user.preferred_display_name is None,
    ensures
        claims_for(subject, scopes, user).name == Some(
            user.given_name + " "@ + user.family_name,
        ),
{
}

} // verus!
