//! The token endpoint: it redeems an authorization code for an access token
//! and a signed ID token.
//!
//! A code is redeemed at most once. It is taken out of the store before
//! anything else is checked, and no failure of a later check brings it
//! back.

use vstd::prelude::*;
use vstd::utf8::encode_utf8;
use crate::config::{expires_at, expiry, ProviderConfig, ProviderConfigView};
use crate::error::{bad_request, validate, AppError, AppErrorView, InternalError, InternalErrorView};
use crate::models::{
    found,
    opt_int,
    OauthClient,
    OauthClientView,
    OauthSession,
    OauthSessionView,
    OauthToken,
    OauthTokenView,
};
use crate::oidc::jwks::{signed_text, signed_with, KeyProvider};
use crate::outside::{
    base64_standard,
    current_timestamp,
    encode_base64,
    is_ascii_alphanumeric,
    is_rs256_jws,
    json_insert_number,
    json_insert_text,
    json_numbers,
    json_object,
    json_others,
    json_texts,
    random_alphanumeric,
    JsonObject,
};
use crate::store::{redeem, value_at, OauthDatabase};
use crate::text::{
    contains,
    eq_ignoring_ascii_case,
    opt_str_clone,
    str_concat,
    str_eq_constant_time,
    str_eq_ignore_ascii_case,
};

verus! {

/// The number of characters of an access token. With 62 characters to draw
/// from this is well over 128 bits.
pub const ACCESS_TOKEN_LEN: usize = 30;

/// The form that a client posts to the token endpoint.
#[derive(Debug)]
pub struct TokenParams {
    pub grant_type: String,
    pub code: String,
    pub redirect_uri: String,
}

pub ghost struct TokenParamsView {
    pub grant_type: Seq<char>,
    pub code: Seq<char>,
    pub redirect_uri: Seq<char>,
}

impl View for TokenParams {
    type V = TokenParamsView;

    open spec fn view(&self) -> TokenParamsView {
        TokenParamsView {
            grant_type: self.grant_type@,
            code: self.code@,
            redirect_uri: self.redirect_uri@,
        }
    }
}

/// What the token endpoint answers where it grants the request.
#[derive(Debug)]
pub struct TokenResponse {
    pub access_token: String,
    pub token_type: String,
    pub refresh_token: Option<String>,
    pub expires_in: i64,
    pub id_token: String,
}

pub ghost struct TokenResponseView {
    pub access_token: Seq<char>,
    pub token_type: Seq<char>,
    pub refresh_token: Option<Seq<char>>,
    pub expires_in: int,
    pub id_token: Seq<char>,
}

impl View for TokenResponse {
    type V = TokenResponseView;

    open spec fn view(&self) -> TokenResponseView {
        TokenResponseView {
            access_token: self.access_token@,
            token_type: self.token_type@,
            refresh_token: self.refresh_token.deep_view(),
            expires_in: self.expires_in as int,
            id_token: self.id_token@,
        }
    }
}

/// The claims of an ID token.
#[derive(Debug)]
pub struct IdTokenClaims {
    pub iss: String,
    pub sub: String,
    pub aud: String,
    pub exp: i64,
    pub iat: i64,
    pub auth_time: Option<i64>,
    pub nonce: Option<String>,
}

pub ghost struct IdTokenClaimsView {
    pub iss: Seq<char>,
    pub sub: Seq<char>,
    pub aud: Seq<char>,
    pub exp: int,
    pub iat: int,
    pub auth_time: Option<int>,
    pub nonce: Option<Seq<char>>,
}

impl View for IdTokenClaims {
    type V = IdTokenClaimsView;

    open spec fn view(&self) -> IdTokenClaimsView {
        IdTokenClaimsView {
            iss: self.iss@,
            sub: self.sub@,
            aud: self.aud@,
            exp: self.exp as int,
            iat: self.iat as int,
            auth_time: opt_int(self.auth_time),
            nonce: self.nonce.deep_view(),
        }
    }
}

/// The members of the claims object that are strings: issuer, subject and
/// audience, and the nonce where the request had one.
pub open spec fn claim_texts(c: IdTokenClaimsView) -> Map<Seq<char>, Seq<char>> {
    let fixed = Map::<Seq<char>, Seq<char>>::empty().insert("iss"@, c.iss).insert(
        "sub"@,
        c.sub,
    ).insert("aud"@, c.aud);
    match c.nonce {
        Some(nonce) => fixed.insert("nonce"@, nonce),
        None => fixed,
    }
}

/// The members of the claims object that are numbers: expiration and time
/// of issue, and the time of authentication where it is known.
pub open spec fn claim_numbers(c: IdTokenClaimsView) -> Map<Seq<char>, int> {
    let fixed = Map::<Seq<char>, int>::empty().insert("exp"@, c.exp).insert("iat"@, c.iat);
    match c.auth_time {
        Some(t) => fixed.insert("auth_time"@, t),
        None => fixed,
    }
}

/// The names of the claims are all different.
proof fn claim_names_differ()
    ensures
        "iss"@ != "exp"@,
        "iss"@ != "iat"@,
        "iss"@ != "auth_time"@,
        "sub"@ != "exp"@,
        "sub"@ != "iat"@,
        "sub"@ != "auth_time"@,
        "aud"@ != "exp"@,
        "aud"@ != "iat"@,
        "aud"@ != "auth_time"@,
        "nonce"@ != "exp"@,
        "nonce"@ != "iat"@,
        "nonce"@ != "auth_time"@,
{
    reveal_strlit("iss");
    reveal_strlit("sub");
    reveal_strlit("aud");
    reveal_strlit("nonce");
    reveal_strlit("exp");
    reveal_strlit("iat");
    reveal_strlit("auth_time");
    assert("iss"@.len() == 3 && "iss"@[1] == 's');
    assert("sub"@.len() == 3 && "sub"@[0] == 's');
    assert("aud"@.len() == 3 && "aud"@[0] == 'a');
    assert("nonce"@.len() == 5);
    assert("exp"@.len() == 3 && "exp"@[0] == 'e' && "exp"@[1] == 'x');
    assert("iat"@.len() == 3 && "iat"@[0] == 'i' && "iat"@[1] == 'a');
    assert("auth_time"@.len() == 9);
}

impl IdTokenClaims {
    /// The claims as a JSON object, ready to be signed. A claim that is
    /// absent is left out.
    pub fn to_json(&self) -> (object: JsonObject)
        ensures
            json_texts(object) == claim_texts(self@),
            json_numbers(object) == claim_numbers(self@),
            json_others(object) == Set::<Seq<char>>::empty(),
    {
        proof {
            claim_names_differ();
        }
        let mut object = json_object();
        assert(json_texts(object) =~= Map::<Seq<char>, Seq<char>>::empty());
        assert(json_numbers(object) =~= Map::<Seq<char>, int>::empty());
        json_insert_number(&mut object, "exp", self.exp);
        json_insert_number(&mut object, "iat", self.iat);
        match self.auth_time {
            Some(t) => {
                json_insert_number(&mut object, "auth_time", t);
            },
            None => {},
        }
        assert(json_numbers(object) =~= claim_numbers(self@));
        assert(json_texts(object) =~= Map::<Seq<char>, Seq<char>>::empty());
        json_insert_text(&mut object, "iss", self.iss.as_str());
        json_insert_text(&mut object, "sub", self.sub.as_str());
        json_insert_text(&mut object, "aud", self.aud.as_str());
        match &self.nonce {
            Some(nonce) => {
                json_insert_text(&mut object, "nonce", nonce.as_str());
            },
            None => {},
        }
        assert(json_texts(object) =~= claim_texts(self@));
        assert(json_numbers(object) =~= claim_numbers(self@));
        assert(json_others(object) =~= Set::<Seq<char>>::empty());
        object
    }
}

/// The `Authorization` header that a client with the id `user` and the
/// secret `pass` has to send: the word `Basic` and the base64 of
/// `user:pass`.
pub open spec fn basic_credential(user: Seq<char>, pass: Seq<char>) -> Seq<char> {
    "Basic "@ + base64_standard(encode_utf8(user + ":"@ + pass))
}

/// Calculates the value that the `Authorization` header must have for the
/// client `user` with the secret `pass`.
pub fn calc_auth(user: &str, pass: &str) -> (r: String)
    ensures
        r@ == basic_credential(user@, pass@),
{
    let mut txt = user.to_owned();
    txt.append(":");
    txt.append(pass);
    let b64 = encode_base64(txt.as_str().as_bytes());
    str_concat("Basic ", b64.as_str())
}

/// Whether `grant_type` names the one grant that is supported, in whatever
/// case.
pub open spec fn grant_supported(grant_type: Seq<char>) -> bool {
    eq_ignoring_ascii_case(grant_type, "authorization_code"@)
}

/// The error that a failed redemption of a code comes to: a code that was
/// not found is a bad request, any other failure an internal error.
pub open spec fn redemption_failure(e: InternalErrorView) -> AppErrorView {
    match e {
        InternalErrorView::NotFound => bad_request("not found"@),
        _ => AppErrorView::InternalError,
    }
}

/// What stands in the way of the redemption of the code with the record
/// `record` at the instant `now`, if anything. `client` is what the lookup
/// of the record's client has given; it matters only for a code that has
/// not expired.
pub open spec fn redemption(
    p: TokenParamsView,
    authorization: Option<Seq<char>>,
    record: OauthSessionView,
    client: Option<OauthClientView>,
    now: int,
) -> Result<(), AppErrorView> {
    if record.expiration <= now {
        Err(bad_request("Expired code"@))
    } else {
        client_redemption(p, authorization, client)
    }
}

/// What stands in the way of the redemption on the side of the client, if
/// anything: the client must be known, the redirect URI of the request must
/// be one of its registered ones, and the `Authorization` header must be
/// its credential.
pub open spec fn client_redemption(
    p: TokenParamsView,
    authorization: Option<Seq<char>>,
    client: Option<OauthClientView>,
) -> Result<(), AppErrorView> {
    if client is None {
        Err(bad_request("failed to load the client config"@))
    } else if client->0.callback_urls() is None {
        Err(AppErrorView::InternalError)
    } else if !client->0.callback_urls()->0.contains(p.redirect_uri) {
        Err(bad_request("redirect_uri mismatch"@))
    } else if authorization != Some(basic_credential(client->0.id, client->0.secret)) {
        Err(AppErrorView::Unauthorized)
    } else {
        Ok(())
    }
}

/// The record under which the access token `token` is kept.
pub open spec fn token_record(
    record: OauthSessionView,
    token: Seq<char>,
    ttl: int,
    now: int,
) -> OauthTokenView {
    OauthTokenView {
        token,
        token_type: "access"@,
        client_id: record.client_id,
        scopes: Some(record.scopes),
        subject: Some(record.subject),
        expiration: Some(ttl),
        created: now,
    }
}

/// The claims of the ID token for the code with the record `record`, issued
/// at the instant `now`.
pub open spec fn id_claims(
    config: ProviderConfigView,
    record: OauthSessionView,
    now: int,
) -> IdTokenClaimsView {
    IdTokenClaimsView {
        iss: config.issuer,
        sub: record.subject,
        aud: record.client_id,
        exp: expires_at(now, config.token_exp),
        iat: now,
        auth_time: record.auth_time,
        nonce: record.nonce,
    }
}

/// The answer that carries the access token `access_token` and the ID
/// token `id_token`.
pub open spec fn granted(
    access_token: Seq<char>,
    id_token: Seq<char>,
    ttl: int,
) -> TokenResponseView {
    TokenResponseView {
        access_token,
        token_type: "Bearer"@,
        refresh_token: None,
        expires_in: ttl,
        id_token,
    }
}

/// Whether `e` is an error with which the token request `p` may be refused
/// at the instant `now`, where `codes` and `clients` are what the store held
/// when the request came.
///
/// A request for another grant is refused as such. A code that was not
/// there is not found, unless the store did not answer. For a code that was
/// there, the error is the first thing that stands in the way of its
/// redemption, for the client as registered or for a client that the lookup
/// did not give; or it says that the store or the signing has failed.
pub open spec fn refusal(
    p: TokenParamsView,
    authorization: Option<Seq<char>>,
    codes: Map<Seq<char>, OauthSessionView>,
    clients: Map<Seq<char>, OauthClientView>,
    now: int,
    e: AppErrorView,
) -> bool {
    if !grant_supported(p.grant_type) {
        e == bad_request("'grant_type' not supported"@)
    } else if !codes.contains_key(p.code) {
        e == bad_request("not found"@) || e == AppErrorView::InternalError
    } else {
        let record = codes[p.code];
        ||| e == AppErrorView::InternalError
        ||| e == AppErrorView::NotFound
        ||| redemption(p, authorization, record, None, now) == Err::<(), AppErrorView>(e)
        ||| clients.contains_key(record.client_id) && redemption(
            p,
            authorization,
            record,
            Some(clients[record.client_id]),
            now,
        ) == Err::<(), AppErrorView>(e)
    }
}

/// The error with which the token request `p` must be refused at the
/// instant `now` by a reliable store that held `codes`, `clients` and
/// `tokens` when the request came; nothing where the request passes every
/// check and `access_token` is not in use. What is then left to fail is the
/// signing.
pub open spec fn exchange_refusal(
    p: TokenParamsView,
    authorization: Option<Seq<char>>,
    codes: Map<Seq<char>, OauthSessionView>,
    clients: Map<Seq<char>, OauthClientView>,
    tokens: Map<Seq<char>, OauthTokenView>,
    now: int,
    access_token: Seq<char>,
) -> Option<AppErrorView> {
    if !grant_supported(p.grant_type) {
        Some(bad_request("'grant_type' not supported"@))
    } else if !codes.contains_key(p.code) {
        Some(bad_request("not found"@))
    } else {
        let record = codes[p.code];
        match redemption(p, authorization, record, value_at(clients, record.client_id), now) {
            Err(e) => Some(e),
            Ok(_) => if tokens.contains_key(access_token) {
                Some(AppErrorView::InternalError)
            } else {
                None
            },
        }
    }
}

/// The view of an executable answer.
pub open spec fn answer(r: Result<TokenResponse, AppError>) -> Result<
    TokenResponseView,
    AppErrorView,
> {
    match r {
        Ok(response) => Ok(response@),
        Err(e) => Err(e@),
    }
}

/// The ID token for the code with the record `record`, issued at the instant
/// `now` and signed with the key of the PEM text `key_text`: the compact JWS
/// that RS256 makes of the claims [`id_claims`]. `None` where the signing
/// fails.
pub open spec fn id_token_text(
    config: ProviderConfigView,
    record: OauthSessionView,
    now: int,
    key_text: Seq<u8>,
) -> Option<Seq<char>> {
    signed_with(
        claim_texts(id_claims(config, record, now)),
        claim_numbers(id_claims(config, record, now)),
        key_text,
    )
}

/// The answer once the access token is stored, given what the signing of
/// the ID token has come to: the grant with the signed text, or an internal
/// error where there is none.
pub open spec fn signed_answer(
    access_token: Seq<char>,
    signed: Option<Seq<char>>,
    ttl: int,
) -> Result<TokenResponseView, AppErrorView> {
    match signed {
        Some(id_token) => Ok(granted(access_token, id_token, ttl)),
        None => Err(AppErrorView::InternalError),
    }
}

/// Whether a token request on a reliable store has ended as it must, with
/// the answer `answer` and the tokens `tokens_after`: with the error that
/// [`exchange_refusal`] names and the tokens as they were, or else with the
/// access token stored and the grant that carries the ID token signed with
/// the key of `key_text`, or an internal error where the signing fails.
pub open spec fn exchanged(
    p: TokenParamsView,
    authorization: Option<Seq<char>>,
    codes: Map<Seq<char>, OauthSessionView>,
    clients: Map<Seq<char>, OauthClientView>,
    tokens: Map<Seq<char>, OauthTokenView>,
    tokens_after: Map<Seq<char>, OauthTokenView>,
    config: ProviderConfigView,
    key_text: Seq<u8>,
    now: int,
    access_token: Seq<char>,
    answer: Result<TokenResponseView, AppErrorView>,
) -> bool {
    match exchange_refusal(p, authorization, codes, clients, tokens, now, access_token) {
        Some(e) => answer == Err::<TokenResponseView, AppErrorView>(e) && tokens_after == tokens,
        None => answer == signed_answer(
            access_token,
            id_token_text(config, codes[p.code], now, key_text),
            config.token_exp,
        ) && tokens_after == tokens.insert(
            access_token,
            token_record(codes[p.code], access_token, config.token_exp, now),
        ),
    }
}

/// Whether the error `e` says that the code itself was refused: it names
/// what stood in the way of the redemption, not a failure of the store or of
/// the signing.
pub open spec fn names_a_cause(e: AppErrorView) -> bool {
    e != AppErrorView::InternalError && e != AppErrorView::NotFound
}

/// Whether the form asks for the supported grant.
pub fn is_grant_supported(data: &TokenParams) -> (r: bool)
    ensures
        r == grant_supported(data@.grant_type),
{
    str_eq_ignore_ascii_case(data.grant_type.as_str(), "authorization_code")
}

/// The error that goes to the client where the redemption has failed.
pub fn consume_failure(e: &InternalError) -> (r: AppError)
    ensures
        r@ == redemption_failure(e@),
{
    match e {
        InternalError::NotFound => AppError::bad_req("not found"),
        _ => AppError::InternalError,
    }
}

/// Checks the client's request against the client's registration, as
/// [`client_redemption`] says.
pub fn check_client_request(
    data: &TokenParams,
    authorization: Option<&str>,
    lookup: Result<OauthClient, InternalError>,
) -> (r: Result<(), AppError>)
    ensures
        match r {
            Ok(_) => client_redemption(data@, authorization.deep_view(), found(lookup)) is Ok,
            Err(e) => client_redemption(data@, authorization.deep_view(), found(lookup)) == Err::<
                (),
                AppErrorView,
            >(e@),
        },
{
    let client = match lookup {
        Ok(client) => client,
        Err(_) => {
            return Err(AppError::bad_req("failed to load the client config"));
        },
    };
    let callback_urls = match client.callback_urls() {
        Ok(list) => list,
        Err(_) => {
            return Err(AppError::InternalError);
        },
    };
    if !contains(&callback_urls, data.redirect_uri.as_str()) {
        return Err(AppError::bad_req("redirect_uri mismatch"));
    }
    let expected = calc_auth(client.id.as_str(), client.secret.as_str());
    match authorization {
        Some(cred) => {
            if !str_eq_constant_time(cred, expected.as_str()) {
                return Err(AppError::Unauthorized);
            }
        },
        None => {
            return Err(AppError::Unauthorized);
        },
    }
    Ok(())
}

/// Checks the redeemed code and the client's request against each other:
/// the code must not have expired, the client must be known, the redirect
/// URI must be one of its registered ones, and the `Authorization` header
/// must be the client's credential.
pub fn check_redemption(
    data: &TokenParams,
    authorization: Option<&str>,
    record: &OauthSession,
    lookup: Result<OauthClient, InternalError>,
    now: i64,
) -> (r: Result<(), AppError>)
    ensures
        match r {
            Ok(_) => redemption(
                data@,
                authorization.deep_view(),
                record@,
                found(lookup),
                now as int,
            ) is Ok,
            Err(e) => redemption(
                data@,
                authorization.deep_view(),
                record@,
                found(lookup),
                now as int,
            ) == Err::<(), AppErrorView>(e@),
        },
{
    match validate(record.expiration > now, "Expired code") {
        Ok(_) => {},
        Err(e) => {
            return Err(e);
        },
    }
    check_client_request(data, authorization, lookup)
}

/// The record under which the access token `access_token` is kept, as
/// [`token_record`] defines it.
pub fn access_token_record(record: &OauthSession, access_token: &str, ttl: i64, now: i64) -> (r:
    OauthToken)
    ensures
        r@ == token_record(record@, access_token@, ttl as int, now as int),
{
    OauthToken {
        token: access_token.to_owned(),
        token_type: "access".to_owned(),
        client_id: record.client_id.clone(),
        scopes: Some(record.scopes.clone()),
        subject: Some(record.subject.clone()),
        expiration: Some(ttl),
        created: now,
    }
}

/// The claims of the ID token, as [`id_claims`] defines them: the issuer is
/// the configured one, the subject the authenticated user, the audience the
/// client of the code, and the token expires the configured lifetime after
/// its issue.
pub fn id_token_claims(config: &ProviderConfig, record: &OauthSession, now: i64) -> (r:
    IdTokenClaims)
    ensures
        r@ == id_claims(config@, record@, now as int),
{
    IdTokenClaims {
        iss: config.issuer.clone(),
        sub: record.subject.clone(),
        aud: record.client_id.clone(),
        nonce: opt_str_clone(&record.nonce),
        exp: expiry(now, config.token_exp),
        iat: now,
        auth_time: record.auth_time,
    }
}

/// The answer to the client, given what the signing of the ID token has
/// come to: a failed signing is an internal error.
pub fn token_response(
    access_token: String,
    signed: Result<String, jsonwebtoken::errors::Error>,
    ttl: i64,
) -> (r: Result<TokenResponse, AppError>)
    ensures
        answer(r) == signed_answer(access_token@, signed_text(signed), ttl as int),
{
    match signed {
        Ok(id_token) => Ok(
            TokenResponse {
                access_token,
                refresh_token: None,
                token_type: "Bearer".to_owned(),
                expires_in: ttl,
                id_token,
            },
        ),
        Err(_) => Err(AppError::InternalError),
    }
}

/// Stores the access token for the redeemed code, signs the ID token and
/// answers the client. The access token is stored before the ID token is
/// signed, so that no token is handed out that the provider does not know.
///
/// The ID token of an answer is the one that RS256 makes of the claims
/// [`id_claims`] with the provider's key. With a reliable store and an
/// access token that is not in use, the answer is owed wherever the signing
/// gives a token, and is an internal error where it gives none.
pub fn gen_id_token<D: OauthDatabase>(
    db: &mut D,
    keys: &KeyProvider,
    config: &ProviderConfig,
    record: &OauthSession,
    access_token: String,
    now: i64,
) -> (r: Result<TokenResponse, AppError>)
    ensures
        final(db).reliable() == old(db).reliable(),
        final(db).clients() == old(db).clients(),
        final(db).sessions() == old(db).sessions(),
        old(db).reliable() ==> if old(db).tokens().contains_key(access_token@) {
            answer(r) == Err::<TokenResponseView, AppErrorView>(AppErrorView::InternalError)
                && final(db).tokens() == old(db).tokens()
        } else {
            answer(r) == signed_answer(
                access_token@,
                id_token_text(config@, record@, now as int, keys.key_text()),
                config@.token_exp,
            ) && final(db).tokens() == old(db).tokens().insert(
                access_token@,
                token_record(record@, access_token@, config@.token_exp, now as int),
            )
        },
        match r {
            Ok(response) => {
                &&& !old(db).tokens().contains_key(access_token@)
                &&& final(db).tokens() == old(db).tokens().insert(
                    access_token@,
                    token_record(record@, access_token@, config@.token_exp, now as int),
                )
                &&& id_token_text(config@, record@, now as int, keys.key_text()) == Some(
                    response@.id_token,
                )
                &&& is_rs256_jws(response@.id_token)
                &&& response@ == granted(access_token@, response@.id_token, config@.token_exp)
            },
            Err(e) => {
                &&& !names_a_cause(e@)
                &&& final(db).tokens() == old(db).tokens() || final(db).tokens()
                    == old(db).tokens().insert(
                    access_token@,
                    token_record(record@, access_token@, config@.token_exp, now as int),
                )
            },
        },
{
    let token = access_token_record(record, access_token.as_str(), config.token_exp, now);
    match db.save_oauth_token(&token) {
        Ok(_) => {},
        Err(e) => {
            return Err(e.to_user());
        },
    }
    let claims = id_token_claims(config, record, now);
    let signed = keys.sign(&claims.to_json());
    token_response(access_token, signed, config.token_exp)
}

/// Handles a token request at the instant `now`, with `access_token` as
/// the access token to hand out.
///
/// A request for another grant than `authorization_code` is refused and
/// changes nothing. For any other, the code is taken out of the store; what
/// follows is checked against the record that was kept under it. The
/// request is granted only where the code was there and had not expired,
/// the redirect URI is one of the client's, and the `Authorization` header
/// is the client's credential. The access token is then stored under its
/// record and handed out with the signed ID token.
pub fn exchange_code<D: OauthDatabase>(
    data: &TokenParams,
    authorization: Option<&str>,
    db: &mut D,
    keys: &KeyProvider,
    config: &ProviderConfig,
    now: i64,
    access_token: String,
) -> (r: Result<TokenResponse, AppError>)
    ensures
        final(db).reliable() == old(db).reliable(),
        final(db).clients() == old(db).clients(),
        old(db).reliable() ==> exchanged(
            data@,
            authorization.deep_view(),
            old(db).sessions(),
            old(db).clients(),
            old(db).tokens(),
            final(db).tokens(),
            config@,
            keys.key_text(),
            now as int,
            access_token@,
            answer(r),
        ),
        old(db).reliable() && grant_supported(data@.grant_type) ==> final(db).sessions()
            == redeem(old(db).sessions(), data@.code).1,
        !grant_supported(data@.grant_type) ==> (r matches Err(e) && e@ == bad_request(
            "'grant_type' not supported"@,
        )) && final(db).sessions() == old(db).sessions() && final(db).tokens() == old(db).tokens(),
        final(db).sessions() == old(db).sessions() || final(db).sessions() == redeem(
            old(db).sessions(),
            data@.code,
        ).1,
        !old(db).sessions().contains_key(data@.code) ==> r is Err && final(db).tokens()
            == old(db).tokens(),
        match r {
            Ok(response) => {
                let record = old(db).sessions()[data@.code];
                &&& grant_supported(data@.grant_type)
                &&& old(db).sessions().contains_key(data@.code)
                &&& final(db).sessions() == old(db).sessions().remove(data@.code)
                &&& old(db).clients().contains_key(record.client_id)
                &&& redemption(
                    data@,
                    authorization.deep_view(),
                    record,
                    Some(old(db).clients()[record.client_id]),
                    now as int,
                ) is Ok
                &&& !old(db).tokens().contains_key(access_token@)
                &&& final(db).tokens() == old(db).tokens().insert(
                    access_token@,
                    token_record(record, access_token@, config@.token_exp, now as int),
                )
                &&& id_token_text(config@, record, now as int, keys.key_text()) == Some(
                    response@.id_token,
                )
                &&& is_rs256_jws(response@.id_token)
                &&& response@ == granted(access_token@, response@.id_token, config@.token_exp)
            },
            Err(e) => {
                &&& refusal(
                    data@,
                    authorization.deep_view(),
                    old(db).sessions(),
                    old(db).clients(),
                    now as int,
                    e@,
                )
                &&& names_a_cause(e@) && grant_supported(data@.grant_type)
                    && old(db).sessions().contains_key(data@.code) ==> final(db).sessions()
                    == old(db).sessions().remove(data@.code) && final(db).tokens()
                    == old(db).tokens()
                &&& final(db).tokens() == old(db).tokens() || final(db).tokens()
                    == old(db).tokens().insert(
                    access_token@,
                    token_record(
                        old(db).sessions()[data@.code],
                        access_token@,
                        config@.token_exp,
                        now as int,
                    ),
                )
            },
        },
{
    if !is_grant_supported(data) {
        return Err(AppError::bad_req("'grant_type' not supported"));
    }
    let record = match db.consume_oauth_session_by_code(data.code.as_str()) {
        Ok(record) => record,
        Err(e) => {
            return Err(consume_failure(&e));
        },
    };
    match validate(record.expiration > now, "Expired code") {
        Ok(_) => {},
        Err(e) => {
            return Err(e);
        },
    }
    let lookup = db.fetch_client_config(record.client_id.as_str());
    match check_client_request(data, authorization, lookup) {
        Ok(_) => {},
        Err(e) => {
            return Err(e);
        },
    }
    gen_id_token(db, keys, config, &record, access_token, now)
}

/// Whether `token` has the form of an access token: [`ACCESS_TOKEN_LEN`]
/// ASCII letters and digits.
pub open spec fn is_access_token(token: Seq<char>) -> bool {
    token.len() == ACCESS_TOKEN_LEN && forall|i: int|
        0 <= i < token.len() ==> is_ascii_alphanumeric(#[trigger] token[i])
}

/// Handles a token request now, with an access token drawn at random. See
/// [`exchange_code`], which takes the instant and the access token as
/// arguments and says exactly what is stored.
pub fn token_endpoint<D: OauthDatabase>(
    data: &TokenParams,
    authorization: Option<&str>,
    db: &mut D,
    keys: &KeyProvider,
    config: &ProviderConfig,
) -> (r: Result<TokenResponse, AppError>)
    ensures
        final(db).reliable() == old(db).reliable(),
        final(db).clients() == old(db).clients(),
        old(db).reliable() ==> exists|now: int, access_token: Seq<char>|
            is_access_token(access_token) && #[trigger] exchanged(
                data@,
                authorization.deep_view(),
                old(db).sessions(),
                old(db).clients(),
                old(db).tokens(),
                final(db).tokens(),
                config@,
                keys.key_text(),
                now,
                access_token,
                answer(r),
            ),
        old(db).reliable() && grant_supported(data@.grant_type) ==> final(db).sessions()
            == redeem(old(db).sessions(), data@.code).1,
        !grant_supported(data@.grant_type) ==> (r matches Err(e) && e@ == bad_request(
            "'grant_type' not supported"@,
        )) && final(db).sessions() == old(db).sessions() && final(db).tokens() == old(db).tokens(),
        final(db).sessions() == old(db).sessions() || final(db).sessions() == redeem(
            old(db).sessions(),
            data@.code,
        ).1,
        !old(db).sessions().contains_key(data@.code) ==> r is Err && final(db).tokens()
            == old(db).tokens(),
        match r {
            Ok(response) => {
                let record = old(db).sessions()[data@.code];
                &&& grant_supported(data@.grant_type)
                &&& old(db).sessions().contains_key(data@.code)
                &&& final(db).sessions() == old(db).sessions().remove(data@.code)
                &&& old(db).clients().contains_key(record.client_id)
                &&& is_access_token(response@.access_token)
                &&& is_rs256_jws(response@.id_token)
                &&& !old(db).tokens().contains_key(response@.access_token)
                &&& response@ == granted(
                    response@.access_token,
                    response@.id_token,
                    config@.token_exp,
                )
                &&& exists|now: int|
                    #![trigger token_record(record, response@.access_token, config@.token_exp, now)]
                    redemption(
                        data@,
                        authorization.deep_view(),
                        record,
                        Some(old(db).clients()[record.client_id]),
                        now,
                    ) is Ok && id_token_text(config@, record, now, keys.key_text()) == Some(
                        response@.id_token,
                    ) && final(db).tokens() == old(db).tokens().insert(
                        response@.access_token,
                        token_record(record, response@.access_token, config@.token_exp, now),
                    )
            },
            Err(e) => {
                &&& exists|now: int|
                    #[trigger] refusal(
                        data@,
                        authorization.deep_view(),
                        old(db).sessions(),
                        old(db).clients(),
                        now,
                        e@,
                    )
                &&& names_a_cause(e@) && grant_supported(data@.grant_type)
                    && old(db).sessions().contains_key(data@.code) ==> final(db).sessions()
                    == old(db).sessions().remove(data@.code) && final(db).tokens()
                    == old(db).tokens()
            },
        },
{
    let access_token = random_alphanumeric(ACCESS_TOKEN_LEN);
    let now = current_timestamp();
    let ghost token = access_token@;
    let r = exchange_code(data, authorization, db, keys, config, now, access_token);
    proof {
        assert(is_access_token(token));
        if old(db).reliable() {
            assert(exchanged(
                data@,
                authorization.deep_view(),
                old(db).sessions(),
                old(db).clients(),
                old(db).tokens(),
                db.tokens(),
                config@,
                keys.key_text(),
                now as int,
                token,
                answer(r),
            ));
        }
        if r is Err {
            assert(refusal(
                data@,
                authorization.deep_view(),
                old(db).sessions(),
                old(db).clients(),
                now as int,
                r->Err_0@,
            ));
        }
        if r is Ok {
            let record = old(db).sessions()[data@.code];
            assert(r->Ok_0@.access_token == token);
            assert(db.tokens() == old(db).tokens().insert(
                token,
                token_record(record, token, config@.token_exp, now as int),
            ));
        }
    }
    r
}

/// The ID token names the configured issuer, the client of the code as its
/// audience and the authenticated user as its subject, and it expires the
/// configured lifetime after it was issued, as far as that instant can be
/// represented.
pub proof fn id_token_claims_are_bound(
    config: ProviderConfigView,
    record: OauthSessionView,
    now: int,
)
    requires
        i64::MIN <= now + config.token_exp <= i64::MAX,
    ensures
        id_claims(config, record, now).iss == config.issuer,
        id_claims(config, record, now).aud == record.client_id,
        id_claims(config, record, now).sub == record.subject,
        id_claims(config, record, now).exp - id_claims(config, record, now).iat
            == config.token_exp,
{
}

/// Nothing stands in the way of a redemption only where the code has not
/// expired, its client is known, the redirect URI of the request is one of
/// those registered for the client, and the `Authorization` header is the
/// client's credential.
pub proof fn granted_redemption_is_bound(
    p: TokenParamsView,
    authorization: Option<Seq<char>>,
    record: OauthSessionView,
    client: Option<OauthClientView>,
    now: int,
)
    requires
        redemption(p, authorization, record, client, now) is Ok,
    ensures
        record.expiration > now,
        client is Some,
        client->0.callback_urls() matches Some(urls) && urls.contains(p.redirect_uri),
        authorization == Some(basic_credential(client->0.id, client->0.secret)),
{
}

/// Once a token request has taken a code out of the store, every later
/// request for the same code is refused as not found, whatever else it
/// holds and whoever sends it.
pub proof fn redeemed_code_is_refused(
    p: TokenParamsView,
    authorization: Option<Seq<char>>,
    codes: Map<Seq<char>, OauthSessionView>,
    clients: Map<Seq<char>, OauthClientView>,
    tokens: Map<Seq<char>, OauthTokenView>,
    now: int,
    access_token: Seq<char>,
)
    requires
        grant_supported(p.grant_type),
    ensures
        exchange_refusal(
            p,
            authorization,
            redeem(codes, p.code).1,
            clients,
            tokens,
            now,
            access_token,
        ) == Some(bad_request("not found"@)),
{
}

} // verus!
