//! The provider's one RSA key: it signs the ID tokens, and its public half
//! is published as a JSON Web Key set.

use vstd::prelude::*;
use crate::error::{AppError, AppErrorView};
use crate::outside::{
    base64_url_no_pad,
    encode_base64_url,
    is_rs256_jws,
    json_numbers,
    json_others,
    json_texts,
    rs256_jws,
    rsa_private_der,
    rsa_private_key_der,
    rsa_public_components,
    rsa_public_parts,
    sign_rs256,
    JsonObject,
};
use crate::text::opt_str_clone;

verus! {

/// A JSON Web Key. The members `e` and `n` belong to an RSA key, `x`, `y`
/// and `crv` to one on an elliptic curve.
#[derive(Debug)]
pub struct Jwk {
    pub kid: String,
    pub kty: String,
    pub _use: String,
    pub e: Option<String>,
    pub n: Option<String>,
    pub x: Option<String>,
    pub y: Option<String>,
    pub crv: Option<String>,
}

pub ghost struct JwkView {
    pub kid: Seq<char>,
    pub kty: Seq<char>,
    pub _use: Seq<char>,
    pub e: Option<Seq<char>>,
    pub n: Option<Seq<char>>,
    pub x: Option<Seq<char>>,
    pub y: Option<Seq<char>>,
    pub crv: Option<Seq<char>>,
}

impl View for Jwk {
    type V = JwkView;

    open spec fn view(&self) -> JwkView {
        JwkView {
            kid: self.kid@,
            kty: self.kty@,
            _use: self._use@,
            e: self.e.deep_view(),
            n: self.n.deep_view(),
            x: self.x.deep_view(),
            y: self.y.deep_view(),
            crv: self.crv.deep_view(),
        }
    }
}

/// The RSA key for signatures with the id `kid`, the public exponent
/// `exponent` and the modulus `modulus`, both as they are to be published.
pub open spec fn rsa_sig_key(kid: Seq<char>, exponent: Seq<char>, modulus: Seq<char>) -> JwkView {
    JwkView {
        kid,
        kty: "RSA"@,
        _use: "sig"@,
        e: Some(exponent),
        n: Some(modulus),
        x: None,
        y: None,
        crv: None,
    }
}

/// The published form of the key with the public exponent `e` and the
/// modulus `n`, both as big-endian bytes: the key id is `1`, and the two
/// numbers are encoded in base64 with the URL-safe alphabet and no padding.
pub open spec fn published_key(e: Seq<u8>, n: Seq<u8>) -> JwkView {
    rsa_sig_key("1"@, base64_url_no_pad(e), base64_url_no_pad(n))
}

impl Jwk {
    /// An RSA key for signatures.
    pub fn rsa_sig(kid: &str, exponent: &str, modulus: &str) -> (key: Jwk)
        ensures
            key@ == rsa_sig_key(kid@, exponent@, modulus@),
    {
        Jwk {
            kty: "RSA".to_owned(),
            _use: "sig".to_owned(),
            kid: kid.to_owned(),
            e: Some(exponent.to_owned()),
            n: Some(modulus.to_owned()),
            x: None,
            y: None,
            crv: None,
        }
    }
}

impl Clone for Jwk {
    fn clone(&self) -> (r: Self)
        ensures
            r == *self,
    {
        Jwk {
            kid: self.kid.clone(),
            kty: self.kty.clone(),
            _use: self._use.clone(),
            e: opt_str_clone(&self.e),
            n: opt_str_clone(&self.n),
            x: opt_str_clone(&self.x),
            y: opt_str_clone(&self.y),
            crv: opt_str_clone(&self.crv),
        }
    }
}

/// A JSON Web Key set.
#[derive(Debug)]
pub struct Jwks {
    pub keys: Vec<Jwk>,
}

impl View for Jwks {
    type V = Seq<JwkView>;

    open spec fn view(&self) -> Seq<JwkView> {
        self.keys@.map_values(|k: Jwk| k@)
    }
}

/// The key to publish for the public exponent `e` and the modulus `n`.
pub fn public_jwk(e: &[u8], n: &[u8]) -> (key: Jwk)
    ensures
        key@ == published_key(e@, n@),
{
    let exponent = encode_base64_url(e);
    let modulus = encode_base64_url(n);
    Jwk::rsa_sig("1", exponent.as_str(), modulus.as_str())
}

/// The set that holds `key` and nothing else.
pub fn key_set(key: Jwk) -> (set: Jwks)
    ensures
        set@ == seq![key@],
{
    let mut keys: Vec<Jwk> = Vec::new();
    keys.push(key);
    let set = Jwks { keys };
    assert(set@ =~= seq![key@]);
    set
}

/// The longest PEM text that is handed to OpenSSL.
pub const PEM_TEXT_MAX: usize = 2147483647;

/// The key set to publish for the PEM text `pem`: the one key that is made
/// of the public half of the RSA private key that the text holds. `None`
/// where the text holds no such key or is longer than [`PEM_TEXT_MAX`].
pub open spec fn published_set(pem: Seq<u8>) -> Option<Seq<JwkView>> {
    if pem.len() > PEM_TEXT_MAX {
        None
    } else {
        match rsa_public_parts(pem) {
            Some(parts) => Some(seq![published_key(parts.0, parts.1)]),
            None => None,
        }
    }
}

/// The key set to publish for the RSA private key that the PEM text `pem`
/// holds, as [`published_set`] defines it. A text that holds no key is an
/// internal error.
pub fn get_keys(pem: &[u8]) -> (r: Result<Jwks, AppError>)
    ensures
        match r {
            Ok(set) => published_set(pem@) == Some(set@),
            Err(e) => e@ == AppErrorView::InternalError && published_set(pem@) is None,
        },
{
    if pem.len() > PEM_TEXT_MAX {
        return Err(AppError::InternalError);
    }
    match rsa_public_components(pem) {
        Ok((e, n)) => Ok(key_set(public_jwk(e.as_slice(), n.as_slice()))),
        Err(_) => Err(AppError::InternalError),
    }
}

/// Whether the PEM text `pem` holds a key pair that the provider can work
/// with: an RSA private key that OpenSSL reads, in a text of no more than
/// [`PEM_TEXT_MAX`] bytes.
pub open spec fn holds_key_pair(pem: Seq<u8>) -> bool {
    pem.len() <= PEM_TEXT_MAX && rsa_private_der(pem) is Some && rsa_public_parts(pem) is Some
}

/// The compact JWS that RS256 makes of the claims with the string members
/// `texts` and the integer members `numbers`, with the private key of the
/// PEM text `key_text`. `None` where the text holds no key or the signing
/// fails.
pub open spec fn signed_with(
    texts: Map<Seq<char>, Seq<char>>,
    numbers: Map<Seq<char>, int>,
    key_text: Seq<u8>,
) -> Option<Seq<char>> {
    match rsa_private_der(key_text) {
        Some(der) => rs256_jws(texts, numbers, der),
        None => None,
    }
}

/// The provider's key pair: the private key, which signs, and the public
/// half in its published form. Both are read from one PEM text, so that
/// what is signed verifies against what is published.
pub struct KeyProvider {
    text: Ghost<Seq<u8>>,
    der: Vec<u8>,
    jwk: Jwk,
}

impl KeyProvider {
    /// The text holds a key pair; the private key and the published key are
    /// those of the text.
    #[verifier::type_invariant]
    closed spec fn sound(&self) -> bool {
        &&& holds_key_pair(self.text@)
        &&& rsa_private_der(self.text@) == Some(self.der@)
        &&& published_set(self.text@) == Some(seq![self.jwk@])
    }

    /// The PEM text that the key pair was read from.
    pub closed spec fn key_text(&self) -> Seq<u8> {
        self.text@
    }

    /// The public half in its published form.
    pub closed spec fn public_key(&self) -> JwkView {
        self.jwk@
    }

    /// Reads the key pair from the PEM text `pem`. A text that does not hold
    /// a key pair, as [`holds_key_pair`] defines it, is an internal error.
    pub fn from_rsa_pem(pem: &[u8]) -> (r: Result<KeyProvider, AppError>)
        ensures
            match r {
                Ok(keys) => holds_key_pair(pem@) && keys.key_text() == pem@ && published_set(pem@)
                    == Some(seq![keys.public_key()]),
                Err(e) => e@ == AppErrorView::InternalError && !holds_key_pair(pem@),
            },
    {
        if pem.len() > PEM_TEXT_MAX {
            return Err(AppError::InternalError);
        }
        let der = match rsa_private_key_der(pem) {
            Ok(der) => der,
            Err(_) => {
                return Err(AppError::InternalError);
            },
        };
        match rsa_public_components(pem) {
            Ok((e, n)) => {
                let jwk = public_jwk(e.as_slice(), n.as_slice());
                Ok(KeyProvider { text: Ghost(pem@), der, jwk })
            },
            Err(_) => Err(AppError::InternalError),
        }
    }

    /// The key set to publish: the one public key, which is the public half
    /// of the key that signs.
    pub fn jwks(&self) -> (set: Jwks)
        ensures
            set@ == seq![self.public_key()],
            published_set(self.key_text()) == Some(set@),
    {
        proof {
            use_type_invariant(self);
        }
        key_set(self.jwk.clone())
    }

    /// Signs `claims` with the private key and returns the compact JWS (the
    /// RS256 header, a payload, a signature), or the error of the signing.
    /// For claims that are strings and integers only, the token is the one
    /// that RS256 makes of them with this key.
    pub fn sign(&self, claims: &JsonObject) -> (r: Result<String, jsonwebtoken::errors::Error>)
        ensures
            r matches Ok(text) ==> is_rs256_jws(text@),
            json_others(*claims) == Set::<Seq<char>>::empty() ==> signed_text(r) == signed_with(
                json_texts(*claims),
                json_numbers(*claims),
                self.key_text(),
            ),
    {
        proof {
            use_type_invariant(self);
        }
        sign_rs256(claims, self.der.as_slice())
    }
}

/// What a signing has come to: the text, if there is one.
pub open spec fn signed_text(signed: Result<String, jsonwebtoken::errors::Error>) -> Option<
    Seq<char>,
> {
    match signed {
        Ok(text) => Some(text@),
        Err(_) => None,
    }
}

} // verus!
