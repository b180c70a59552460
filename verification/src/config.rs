//! The provider's settings: who it is and how long what it issues lives.

use vstd::prelude::*;
use crate::models::opt_int;
use crate::text::{decimal_i64, parse_decimal, str_eq};

verus! {

/// The lifetime of an authorization code in seconds, where none is set.
pub const DEFAULT_AUTH_CODE_EXP: i64 = 60;

/// The lifetime of a token in seconds, where none is set.
pub const DEFAULT_TOKEN_EXP: i64 = 3600;

/// The settings that the endpoints read.
#[derive(Debug)]
pub struct ProviderConfig {
    /// The issuer: the base URL under which the provider is reached.
    pub issuer: String,
    /// The lifetime of an authorization code, in seconds.
    pub auth_code_exp: i64,
    /// The lifetime of an access token and of an ID token, in seconds.
    pub token_exp: i64,
    /// The scopes that the provider supports, separated by white space.
    pub supported_scopes: String,
}

pub ghost struct ProviderConfigView {
    pub issuer: Seq<char>,
    pub auth_code_exp: int,
    pub token_exp: int,
    pub supported_scopes: Seq<char>,
}

impl View for ProviderConfig {
    type V = ProviderConfigView;

    open spec fn view(&self) -> ProviderConfigView {
        ProviderConfigView {
            issuer: self.issuer@,
            auth_code_exp: self.auth_code_exp as int,
            token_exp: self.token_exp as int,
            supported_scopes: self.supported_scopes@,
        }
    }
}

impl ProviderConfig {
    /// The settings of the issuer `issuer` with every lifetime and the
    /// supported scopes at their defaults.
    pub fn new(issuer: String) -> (c: ProviderConfig)
        ensures
            c@ == (ProviderConfigView {
                issuer: issuer@,
                auth_code_exp: 60,
                token_exp: 3600,
                supported_scopes: "openid profile email phone address"@,
            }),
    {
        ProviderConfig {
            issuer,
            auth_code_exp: DEFAULT_AUTH_CODE_EXP,
            token_exp: DEFAULT_TOKEN_EXP,
            supported_scopes: "openid profile email phone address".to_owned(),
        }
    }
}

/// The instant `ttl` seconds after `now`; where that instant cannot be
/// represented, `now` itself, so that what expires then has expired already.
pub open spec fn expires_at(now: int, ttl: int) -> int {
    if i64::MIN <= now + ttl <= i64::MAX {
        now + ttl
    } else {
        now
    }
}

/// The instant `ttl` seconds after `now`, as [`expires_at`] defines it.
pub fn expiry(now: i64, ttl: i64) -> (at: i64)
    ensures
        at == expires_at(now as int, ttl as int),
{
    match now.checked_add(ttl) {
        Some(at) => at,
        None => now,
    }
}

/// The value `value` of a setting, or `default` where the setting is not
/// set.
pub open spec fn or_default(value: Option<Seq<char>>, default: Seq<char>) -> Seq<char> {
    match value {
        Some(v) => v,
        None => default,
    }
}

/// The value of a setting, or `default` where it is not set.
fn value_or(value: Option<String>, default: &str) -> (r: String)
    ensures
        r@ == or_default(value.deep_view(), default@),
{
    match value {
        Some(v) => v,
        None => default.to_owned(),
    }
}

/// The port to listen on, given the value of `APP_PORT`: 9000 where it is
/// not set.
pub fn port(value: Option<String>) -> (r: String)
    ensures
        r@ == or_default(value.deep_view(), "9000"@),
{
    value_or(value, "9000")
}

/// Whether connections are encrypted, given the value of `APP_PROTOCOL`:
/// only where it is `https`.
pub fn is_protocol_https(value: Option<String>) -> (r: bool)
    ensures
        r == (value.deep_view() == Some("https"@)),
{
    match value {
        Some(v) => str_eq(v.as_str(), "https"),
        None => false,
    }
}

/// Whether cookies are sent over encrypted connections only, given the
/// value of `SECURE_COOKIES`: always, unless it is `false`.
pub fn is_secure_cookies(value: Option<String>) -> (r: bool)
    ensures
        r == (value.deep_view() != Some("false"@)),
{
    match value {
        Some(v) => !str_eq(v.as_str(), "false"),
        None => true,
    }
}

/// The file of the server's certificate, given the value of `SERVER_CERT`.
pub fn server_cert(value: Option<String>) -> (r: String)
    ensures
        r@ == or_default(value.deep_view(), "config/cert.pem"@),
{
    value_or(value, "config/cert.pem")
}

/// The file of the server's key, given the value of `SERVER_KEY`.
pub fn server_key(value: Option<String>) -> (r: String)
    ensures
        r@ == or_default(value.deep_view(), "config/key.pem"@),
{
    value_or(value, "config/key.pem")
}

/// The scopes that the provider supports, given the value of
/// `OAUTH_SCOPES`.
pub fn oauth_supported_scopes(value: Option<String>) -> (r: String)
    ensures
        r@ == or_default(value.deep_view(), "openid profile email phone address"@),
{
    value_or(value, "openid profile email phone address")
}

/// The lifetime that the setting `value` gives, in seconds: `default`
/// where it is not set, and nothing where it is set to anything but a
/// number.
pub open spec fn lifetime(value: Option<Seq<char>>, default: int) -> Option<int> {
    match value {
        Some(v) => decimal_i64(v),
        None => Some(default),
    }
}

/// The lifetime of an authorization code in seconds, given the value of
/// `OIDC_AUTH_CODE_EXP`: 60 where it is not set, and nothing where it is no
/// number.
pub fn oidc_auth_code_exp(value: Option<String>) -> (r: Option<i64>)
    ensures
        opt_int(r) == lifetime(value.deep_view(), 60),
{
    match value {
        Some(v) => parse_decimal(v.as_str()),
        None => Some(DEFAULT_AUTH_CODE_EXP),
    }
}

/// The lifetime of a token in seconds, given the value of
/// `OAUTH_TOKEN_EXP`: 3600 where it is not set, and nothing where it is no
/// number.
pub fn oauth_token_exp(value: Option<String>) -> (r: Option<i64>)
    ensures
        opt_int(r) == lifetime(value.deep_view(), 3600),
{
    match value {
        Some(v) => parse_decimal(v.as_str()),
        None => Some(DEFAULT_TOKEN_EXP),
    }
}

/// What is issued with a positive lifetime expires after it was issued,
/// as far as that instant can be represented.
pub proof fn lifetime_runs_forward(now: int, ttl: int)
    requires
        ttl > 0,
        i64::MIN <= now,
        now + ttl <= i64::MAX,
    ensures
        expires_at(now, ttl) == now + ttl,
        expires_at(now, ttl) > now,
{
}

} // verus!
