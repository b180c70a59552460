//! The provider's metadata, as OpenID Connect Discovery defines it.

use vstd::prelude::*;
use crate::config::{ProviderConfig, ProviderConfigView};
use crate::text::{split_whitespace, str_concat, words};

verus! {

/// The provider's metadata.
#[derive(Debug)]
pub struct OIDCProviderConfig {
    pub issuer: String,
    pub authorization_endpoint: String,
    pub token_endpoint: String,
    pub userinfo_endpoint: Option<String>,
    pub jwks_uri: String,
    pub registration_endpoint: Option<String>,
    pub scopes_supported: Option<Vec<String>>,
    pub response_types_supported: Vec<String>,
    pub response_modes_supported: Option<Vec<String>>,
    pub grant_types_supported: Option<Vec<String>>,
    pub acr_values_supported: Option<Vec<String>>,
    pub subject_types_supported: Vec<String>,
    pub id_token_signing_alg_values_supported: Vec<String>,
    pub claims_supported: Option<Vec<String>>,
}

pub ghost struct OIDCProviderConfigView {
    pub issuer: Seq<char>,
    pub authorization_endpoint: Seq<char>,
    pub token_endpoint: Seq<char>,
    pub userinfo_endpoint: Option<Seq<char>>,
    pub jwks_uri: Seq<char>,
    pub registration_endpoint: Option<Seq<char>>,
    pub scopes_supported: Option<Seq<Seq<char>>>,
    pub response_types_supported: Seq<Seq<char>>,
    pub response_modes_supported: Option<Seq<Seq<char>>>,
    pub grant_types_supported: Option<Seq<Seq<char>>>,
    pub acr_values_supported: Option<Seq<Seq<char>>>,
    pub subject_types_supported: Seq<Seq<char>>,
    pub id_token_signing_alg_values_supported: Seq<Seq<char>>,
    pub claims_supported: Option<Seq<Seq<char>>>,
}

/// An optional list of strings as an optional list of their characters.
pub open spec fn opt_list(list: Option<Vec<String>>) -> Option<Seq<Seq<char>>> {
    match list {
        Some(v) => Some(v.deep_view()),
        None => None,
    }
}

impl View for OIDCProviderConfig {
    type V = OIDCProviderConfigView;

    open spec fn view(&self) -> OIDCProviderConfigView {
        OIDCProviderConfigView {
            issuer: self.issuer@,
            authorization_endpoint: self.authorization_endpoint@,
            token_endpoint: self.token_endpoint@,
            userinfo_endpoint: self.userinfo_endpoint.deep_view(),
            jwks_uri: self.jwks_uri@,
            registration_endpoint: self.registration_endpoint.deep_view(),
            scopes_supported: opt_list(self.scopes_supported),
            response_types_supported: self.response_types_supported.deep_view(),
            response_modes_supported: opt_list(self.response_modes_supported),
            grant_types_supported: opt_list(self.grant_types_supported),
            acr_values_supported: opt_list(self.acr_values_supported),
            subject_types_supported: self.subject_types_supported.deep_view(),
            id_token_signing_alg_values_supported:
                self.id_token_signing_alg_values_supported.deep_view(),
            claims_supported: opt_list(self.claims_supported),
        }
    }
}

/// The signing algorithms that the metadata names.
pub open spec fn signing_algorithms() -> Seq<Seq<char>> {
    seq!["HS256"@, "HS386"@, "HS512"@, "RS256"@, "RS386"@, "RS512"@]
}

/// The metadata of the provider with the settings `config`: the endpoints
/// under the issuer's URL, the configured scopes, and what else the
/// provider supports.
pub open spec fn metadata(config: ProviderConfigView) -> OIDCProviderConfigView {
    OIDCProviderConfigView {
        issuer: config.issuer,
        authorization_endpoint: config.issuer + "/op/authorize"@,
        token_endpoint: config.issuer + "/op/token"@,
        userinfo_endpoint: Some(config.issuer + "/op/userinfo"@),
        jwks_uri: config.issuer + "/op/jwks"@,
        registration_endpoint: None,
        scopes_supported: Some(words(config.supported_scopes)),
        response_types_supported: seq!["code"@],
        response_modes_supported: None,
        grant_types_supported: Some(seq!["authorization_code"@]),
        acr_values_supported: Some(Seq::empty()),
        subject_types_supported: seq!["public"@],
        id_token_signing_alg_values_supported: signing_algorithms(),
        claims_supported: Some(seq!["sub"@]),
    }
}

/// The scopes that the scope string `scopes` names, in order.
pub fn supported_scopes(scopes: &str) -> (r: Vec<String>)
    ensures
        r.deep_view() == words(scopes@),
{
    split_whitespace(scopes)
}

/// The authentication-context classes that the provider supports: none.
pub fn supported_acr_values() -> (r: Vec<String>)
    ensures
        r.deep_view() == Seq::<Seq<char>>::empty(),
{
    let r: Vec<String> = Vec::new();
    assert(r.deep_view() =~= Seq::<Seq<char>>::empty());
    r
}

/// The list that holds `item` and nothing else.
fn one(item: &str) -> (r: Vec<String>)
    ensures
        r.deep_view() == seq![item@],
{
    let mut r: Vec<String> = Vec::new();
    r.push(item.to_owned());
    assert(r.deep_view() =~= seq![item@]);
    r
}

/// The provider's metadata, as [`metadata`] defines it.
pub fn openid_config(config: &ProviderConfig) -> (r: OIDCProviderConfig)
    ensures
        r@ == metadata(config@),
{
    let issuer_url = config.issuer.as_str();
    let mut algorithms: Vec<String> = Vec::new();
    algorithms.push("HS256".to_owned());
    algorithms.push("HS386".to_owned());
    algorithms.push("HS512".to_owned());
    algorithms.push("RS256".to_owned());
    algorithms.push("RS386".to_owned());
    algorithms.push("RS512".to_owned());
    assert(algorithms.deep_view() =~= signing_algorithms());
    OIDCProviderConfig {
        issuer: config.issuer.clone(),
        authorization_endpoint: str_concat(issuer_url, "/op/authorize"),
        token_endpoint: str_concat(issuer_url, "/op/token"),
        userinfo_endpoint: Some(str_concat(issuer_url, "/op/userinfo")),
        jwks_uri: str_concat(issuer_url, "/op/jwks"),
        registration_endpoint: None,
        scopes_supported: Some(supported_scopes(config.supported_scopes.as_str())),
        response_types_supported: one("code"),
        response_modes_supported: None,
        grant_types_supported: Some(one("authorization_code")),
        acr_values_supported: Some(supported_acr_values()),
        subject_types_supported: one("public"),
        id_token_signing_alg_values_supported: algorithms,
        claims_supported: Some(one("sub")),
    }
}

} // verus!
