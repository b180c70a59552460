//! The calls into other crates. Each function here is believed, not proved:
//! its body is the call, its contract says what the called crate documents.
//! Results that are functions of the arguments, but too long to write out,
//! are given a name, so that the callers can say exactly what they return.

use vstd::prelude::*;
use base64::Engine;
use rand::distributions::DistString;

verus! {

/// The error with which `serde_json` refuses a text.
#[verifier::external_type_specification]
#[verifier::external_body]
pub struct ExJsonError(serde_json::Error);

/// The error with which `url` refuses a text.
#[verifier::external_type_specification]
#[verifier::external_body]
pub struct ExUrlParseError(url::ParseError);

/// A JSON object of `serde_json`.
#[verifier::external_type_specification]
#[verifier::external_body]
#[verifier::reject_recursive_types(K)]
#[verifier::reject_recursive_types(V)]
pub struct ExJsonMap<K, V>(serde_json::Map<K, V>);

/// A JSON value of `serde_json`.
#[verifier::external_type_specification]
#[verifier::external_body]
pub struct ExJsonValue(serde_json::Value);

/// The error with which `jsonwebtoken` refuses a key or fails to sign.
#[verifier::external_type_specification]
#[verifier::external_body]
pub struct ExJwtError(jsonwebtoken::errors::Error);

/// The errors that OpenSSL has left behind.
#[verifier::external_type_specification]
#[verifier::external_body]
pub struct ExErrorStack(openssl::error::ErrorStack);

/// A JSON object: members by name.
pub type JsonObject = serde_json::Map<String, serde_json::Value>;

/// The members of the JSON object `object` whose values are strings, by
/// name.
pub uninterp spec fn json_texts(object: JsonObject) -> Map<
    Seq<char>,
    Seq<char>,
>;

/// The members of the JSON object `object` whose values are integers, by
/// name.
pub uninterp spec fn json_numbers(object: JsonObject) -> Map<
    Seq<char>,
    int,
>;

/// The names of the members of the JSON object `object` whose values are
/// neither strings nor integers.
pub uninterp spec fn json_others(object: JsonObject) -> Set<Seq<char>>;

/// The public exponent and the modulus (`e` and `n`, in this order, as
/// big-endian bytes) of the RSA private key that OpenSSL reads from the PEM
/// text `pem` without a passphrase; `None` where it reads none.
pub uninterp spec fn rsa_public_parts(pem: Seq<u8>) -> Option<(Seq<u8>, Seq<u8>)>;

/// The RSA private key that OpenSSL reads from the PEM text `pem` without a
/// passphrase, written out as a DER-encoded PKCS#1 structure; `None` where
/// it reads none.
pub uninterp spec fn rsa_private_der(pem: Seq<u8>) -> Option<Seq<u8>>;

/// The compact JWS that `jsonwebtoken` makes of the claims with the string
/// members `texts` and the integer members `numbers`, signed with RS256 and
/// the RSA private key with the DER encoding `der`; `None` where `der` is
/// no such key or the key does not serve.
pub uninterp spec fn rs256_jws(
    texts: Map<Seq<char>, Seq<char>>,
    numbers: Map<Seq<char>, int>,
    der: Seq<u8>,
) -> Option<Seq<char>>;

/// The longest text, in characters, that is handed to `url` as a base or as
/// a parameter. Within this bound and that on the number of parameters the
/// URL stays far below the length that `url` can hold.
pub const URL_TEXT_MAX: usize = 1048576;

/// The largest number of parameters that is handed to `url`.
pub const URL_PARAMS_MAX: usize = 8;

/// Whether `base` and `params` are within the bounds of [`URL_TEXT_MAX`]
/// and [`URL_PARAMS_MAX`].
pub open spec fn url_fits(base: Seq<char>, params: Seq<(Seq<char>, Seq<char>)>) -> bool {
    &&& base.len() <= URL_TEXT_MAX
    &&& params.len() <= URL_PARAMS_MAX
    &&& forall|i: int|
        0 <= i < params.len() ==> (#[trigger] params[i]).0.len() <= URL_TEXT_MAX
            && params[i].1.len() <= URL_TEXT_MAX
}

/// The list of strings that `text` denotes as a JSON document, where it is a
/// JSON array of strings, and `None` where it is anything else.
pub uninterp spec fn json_string_array(text: Seq<char>) -> Option<Seq<Seq<char>>>;

/// The absolute URL that `base` denotes, with `params` appended to its query
/// as form-encoded pairs in the order given, written out as text; `None` where
/// `base` is no absolute URL.
pub uninterp spec fn url_with_params(
    base: Seq<char>,
    params: Seq<(Seq<char>, Seq<char>)>,
) -> Option<Seq<char>>;

/// The base64 encoding of `bytes` in the standard alphabet, with padding.
pub uninterp spec fn base64_standard(bytes: Seq<u8>) -> Seq<char>;

/// The base64 encoding of `bytes` in the URL-safe alphabet, without padding.
pub uninterp spec fn base64_url_no_pad(bytes: Seq<u8>) -> Seq<char>;

/// The SHA-256 digest of `bytes`, as 64 lower-case hexadecimal digits.
pub uninterp spec fn sha256_hex(bytes: Seq<u8>) -> Seq<char>;

/// Whether `c` belongs to the URL-safe base64 alphabet.
pub open spec fn is_base64_url_char(c: char) -> bool {
    ('A' <= c <= 'Z') || ('a' <= c <= 'z') || ('0' <= c <= '9') || c == '-' || c == '_'
}

/// Whether `s` is base64 in the URL-safe alphabet, without padding.
pub open spec fn is_base64_url(s: Seq<char>) -> bool {
    forall|i: int| 0 <= i < s.len() ==> is_base64_url_char(#[trigger] s[i])
}

/// The first part of every token that is signed with RS256: the header
/// `{"typ":"JWT","alg":"RS256"}` in URL-safe base64.
pub open spec fn rs256_header() -> Seq<char> {
    "eyJ0eXAiOiJKV1QiLCJhbGciOiJSUzI1NiJ9"@
}

/// The compact form of a JWS: header, payload and signature with a dot
/// between them.
pub open spec fn compact_jws(header: Seq<char>, payload: Seq<char>, signature: Seq<char>) -> Seq<
    char,
> {
    header + "."@ + payload + "."@ + signature
}

/// Whether `text` has the form of a token signed with RS256: the RS256
/// header, a payload and a signature, the last two in URL-safe base64, in
/// compact form.
pub open spec fn is_rs256_jws(text: Seq<char>) -> bool {
    exists|payload: Seq<char>, signature: Seq<char>|
        is_base64_url(payload) && is_base64_url(signature) && text == #[trigger] compact_jws(
            rs256_header(),
            payload,
            signature,
        )
}

/// Whether `c` is an ASCII letter or digit.
pub open spec fn is_ascii_alphanumeric(c: char) -> bool {
    ('0' <= c <= '9') || ('a' <= c <= 'z') || ('A' <= c <= 'Z')
}

/// `serde_json::from_str` at the type `Vec<String>`: it accepts exactly the
/// texts that are a JSON array of strings, and returns the strings in order.
#[verifier::external_body]
pub(crate) fn parse_string_array(text: &str) -> (r: Result<Vec<String>, serde_json::Error>)
    ensures
        match r {
            Ok(list) => json_string_array(text@) == Some(list.deep_view()),
            Err(_) => json_string_array(text@) is None,
        },
{
    serde_json::from_str::<Vec<String>>(text)
}

/// `url::Url::parse_with_params`, with the URL written out as text: `base` is
/// parsed as an absolute URL and the pairs are appended to its query in the
/// order of `params`; a `base` that does not parse is an error. The texts
/// are bounded, because `url` panics on a URL of more than `u32::MAX` bytes.
#[verifier::external_body]
pub(crate) fn parse_url_with_params(base: &str, params: &Vec<(String, String)>) -> (r: Result<
    String,
    url::ParseError,
>)
    requires
        url_fits(base@, params.deep_view()),
    ensures
        match r {
            Ok(text) => url_with_params(base@, params.deep_view()) == Some(text@),
            Err(_) => url_with_params(base@, params.deep_view()) is None,
        },
{
    url::Url::parse_with_params(base, params.iter()).map(String::from)
}

/// `base64::encode`: the standard alphabet, with padding. It panics only
/// where the encoded length does not fit in `usize`, which no slice reaches.
#[verifier::external_body]
#[allow(deprecated)]
pub(crate) fn encode_base64(bytes: &[u8]) -> (r: String)
    ensures
        r@ == base64_standard(bytes@),
{
    base64::encode(bytes)
}

/// `Engine::encode` of `base64`'s `BASE64_URL_SAFE_NO_PAD` engine: the
/// URL-safe alphabet, without padding. It panics only where the encoded
/// length does not fit in `usize`, which no slice reaches.
#[verifier::external_body]
pub(crate) fn encode_base64_url(bytes: &[u8]) -> (r: String)
    ensures
        r@ == base64_url_no_pad(bytes@),
{
    base64::prelude::BASE64_URL_SAFE_NO_PAD.encode(bytes)
}

/// `crypto_hash::hex_digest` with SHA-256. It panics only where OpenSSL
/// itself fails, whatever the input.
#[verifier::external_body]
pub(crate) fn sha256_hex_digest(bytes: &[u8]) -> (r: String)
    ensures
        r@ == sha256_hex(bytes@),
{
    crypto_hash::hex_digest(crypto_hash::Algorithm::SHA256, bytes)
}

/// `sample_string` of `rand`'s `Alphanumeric` distribution on the thread's
/// generator: `len` characters, each drawn from the ASCII letters and digits.
/// Which ones is a matter of chance. The length is kept small, so that the
/// text can always be allocated.
#[verifier::external_body]
pub(crate) fn random_alphanumeric(len: usize) -> (r: String)
    requires
        len <= 1024,
    ensures
        r@.len() == len,
        forall|i: int| 0 <= i < r@.len() ==> is_ascii_alphanumeric(#[trigger] r@[i]),
{
    rand::distributions::Alphanumeric.sample_string(&mut rand::thread_rng(), len)
}

/// `serde_json::Map::new`: an object without members.
#[verifier::external_body]
pub(crate) fn json_object() -> (r: JsonObject)
    ensures
        json_texts(r).dom() == Set::<Seq<char>>::empty(),
        json_numbers(r).dom() == Set::<Seq<char>>::empty(),
        json_others(r) == Set::<Seq<char>>::empty(),
{
    serde_json::Map::new()
}

/// `serde_json::Map::insert` with a string as the value: the member `name`
/// is the string `value` from then on, whatever it was before, and the
/// other members are as they were.
#[verifier::external_body]
pub(crate) fn json_insert_text(
    object: &mut JsonObject,
    name: &str,
    value: &str,
)
    ensures
        json_texts(*final(object)) == json_texts(*old(object)).insert(name@, value@),
        json_numbers(*final(object)) == json_numbers(*old(object)).remove(name@),
        json_others(*final(object)) == json_others(*old(object)).remove(name@),
{
    object.insert(name.to_owned(), serde_json::Value::from(value));
}

/// `serde_json::Map::insert` with an integer as the value: the member
/// `name` is the number `value` from then on, whatever it was before, and
/// the other members are as they were.
#[verifier::external_body]
pub(crate) fn json_insert_number(
    object: &mut JsonObject,
    name: &str,
    value: i64,
)
    ensures
        json_numbers(*final(object)) == json_numbers(*old(object)).insert(name@, value as int),
        json_texts(*final(object)) == json_texts(*old(object)).remove(name@),
        json_others(*final(object)) == json_others(*old(object)).remove(name@),
{
    object.insert(name.to_owned(), serde_json::Value::from(value));
}

/// `jsonwebtoken::encode` with a header for RS256 and the key that
/// `EncodingKey::from_rsa_der` makes of `der`: the compact JWS of the claims
/// `claims`, or an error where `der` is no RSA private key or the key does
/// not serve. The token is the encoded header, the encoded claims and the
/// encoded signature, joined by dots. For claims that are strings and
/// integers only, which token it is depends on these and on the key alone.
#[verifier::external_body]
pub(crate) fn sign_rs256(claims: &JsonObject, der: &[u8]) -> (r: Result<
    String,
    jsonwebtoken::errors::Error,
>)
    ensures
        r matches Ok(text) ==> is_rs256_jws(text@),
        json_others(*claims) == Set::<Seq<char>>::empty() ==> (match r {
            Ok(text) => rs256_jws(json_texts(*claims), json_numbers(*claims), der@) == Some(text@),
            Err(_) => rs256_jws(json_texts(*claims), json_numbers(*claims), der@) is None,
        }),
{
    let key = jsonwebtoken::EncodingKey::from_rsa_der(der);
    jsonwebtoken::encode(&jsonwebtoken::Header::new(jsonwebtoken::Algorithm::RS256), claims, &key)
}

/// `openssl::rsa::Rsa::private_key_from_pem_passphrase` with the empty
/// passphrase, so that OpenSSL never asks for one, and `private_key_to_der`
/// of the key that was read: the key as a DER-encoded PKCS#1 structure; an
/// error where OpenSSL reads no RSA private key from the text. The text is
/// bounded, because OpenSSL's buffer holds no more.
#[verifier::external_body]
pub(crate) fn rsa_private_key_der(pem: &[u8]) -> (r: Result<Vec<u8>, openssl::error::ErrorStack>)
    requires
        pem@.len() <= i32::MAX,
    ensures
        match r {
            Ok(der) => rsa_private_der(pem@) == Some(der@),
            Err(_) => rsa_private_der(pem@) is None,
        },
{
    openssl::rsa::Rsa::private_key_from_pem_passphrase(pem, &[])?.private_key_to_der()
}

/// `openssl::rsa::Rsa::private_key_from_pem_passphrase` with the empty
/// passphrase, so that OpenSSL never asks for one, and with the key's public
/// exponent and modulus (`e` and `n`) taken out as big-endian bytes, in this
/// order; an error where OpenSSL reads no RSA private key from the text.
/// The text is bounded, because OpenSSL's buffer holds no more.
#[verifier::external_body]
pub(crate) fn rsa_public_components(pem: &[u8]) -> (r: Result<
    (Vec<u8>, Vec<u8>),
    openssl::error::ErrorStack,
>)
    requires
        pem@.len() <= i32::MAX,
    ensures
        match r {
            Ok(parts) => rsa_public_parts(pem@) == Some((parts.0@, parts.1@)),
            Err(_) => rsa_public_parts(pem@) is None,
        },
{
    let rsa = openssl::rsa::Rsa::private_key_from_pem_passphrase(pem, &[])?;
    Ok((rsa.e().to_vec(), rsa.n().to_vec()))
}

/// `chrono::Utc::now`, as seconds since the epoch. It panics where the
/// system's clock stands before 1970.
#[verifier::external_body]
pub(crate) fn current_timestamp() -> i64 {
    chrono::Utc::now().timestamp()
}

} // verus!
