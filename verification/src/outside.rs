//! Contracts for the calls that leave this crate. Nothing here is proved:
//! each item states what is relied on from the library that it calls.

use crate::jwt::{Claims, ClaimsView, RawClaims, RawClaimsView};
use vstd::prelude::*;

verus! {

/// The error of `bcrypt`, carried through unread.
#[verifier::external_type_specification]
#[verifier::external_body]
pub struct ExBcryptError(bcrypt::BcryptError);

/// The error of `jsonwebtoken`, carried through unread.
#[verifier::external_type_specification]
#[verifier::external_body]
pub struct ExJwtError(jsonwebtoken::errors::Error);

/// The error that `ring` reports when no key pair could be generated.
#[verifier::external_type_specification]
#[verifier::external_body]
pub struct ExKeyGenerationError(ring::error::Unspecified);

/// The error that `ring` reports for a key document that it does not accept.
#[verifier::external_type_specification]
#[verifier::external_body]
pub struct ExKeyRejected(ring::error::KeyRejected);

/// The error of `serde_json`, carried through unread.
#[verifier::external_type_specification]
#[verifier::external_body]
pub struct ExJsonError(serde_json::Error);

/// What `bcrypt::verify` answers for a password and a stored hash: `None`
/// where it reports an error (a malformed hash).
pub uninterp spec fn bcrypt_verdict(password: Seq<char>, hash: Seq<char>) -> Option<bool>;

/// What `jsonwebtoken::encode` returns for a claim set under an HS256 header
/// and a shared secret: `None` where it reports an error.
pub uninterp spec fn hs256_token(claims: ClaimsView, secret: Seq<char>) -> Option<Seq<char>>;

/// What `jsonwebtoken::decode` reads from a token under a shared secret when
/// only HS256 is allowed and the expiry is left to the caller: `None` where
/// the token is malformed, is signed otherwise or carries an audience.
pub uninterp spec fn hs256_claims(token: Seq<char>, secret: Seq<char>) -> Option<RawClaimsView>;

/// What `base64`'s URL-safe engine without padding writes for a run of bytes.
pub uninterp spec fn base64url(bytes: Seq<u8>) -> Seq<char>;

/// What `serde_json::from_str` reads from a text as a list of strings:
/// `None` where the text is not a JSON array of strings.
pub uninterp spec fn json_string_list(text: Seq<char>) -> Option<Seq<Seq<char>>>;

/// The texts of a run of strings.
pub open spec fn texts(items: Seq<String>) -> Seq<Seq<char>> {
    Seq::new(items.len(), |i: int| items[i]@)
}

/// `bcrypt::hash` at the default cost. The salt is drawn at random, so the
/// hash itself is not determined by the password; relied on is only that
/// `bcrypt::verify` accepts the password against the hash that comes back.
#[verifier::external_body]
pub(crate) fn bcrypt_hash(password: &str) -> (r: Result<String, bcrypt::BcryptError>)
    ensures
        r matches Ok(h) ==> bcrypt_verdict(password@, h@) == Some(true),
{
    bcrypt::hash(password, bcrypt::DEFAULT_COST)
}

/// `bcrypt::verify`: its answer depends on the password and the hash alone.
#[verifier::external_body]
pub(crate) fn bcrypt_verify(password: &str, hash: &str) -> (r: Result<bool, bcrypt::BcryptError>)
    ensures
        bcrypt_verdict(password@, hash@) == (match r {
            Ok(b) => Some(b),
            Err(_) => None,
        }),
{
    bcrypt::verify(password, hash)
}

/// `jsonwebtoken::encode` with the default (HS256) header. Relied on: the
/// token depends on the claims and the secret alone; it is never empty, as
/// its three parts are joined by dots; and decoding it under the same secret
/// gives back the four claims that went in.
#[verifier::external_body]
pub(crate) fn jwt_encode(claims: &Claims, secret: &str) -> (r: Result<
    String,
    jsonwebtoken::errors::Error,
>)
    ensures
        hs256_token(claims@, secret@) == (match r {
            Ok(t) => Some(t@),
            Err(_) => None,
        }),
        r matches Ok(t) ==> t@.len() > 0,
        r matches Ok(t) ==> hs256_claims(t@, secret@) == Some(claims@.complete()),
{
    let mut body = serde_json::Map::new();
    body.insert("sub".to_string(), serde_json::Value::from(claims.sub.as_str()));
    body.insert("exp".to_string(), serde_json::Value::from(claims.exp));
    body.insert("iat".to_string(), serde_json::Value::from(claims.iat));
    body.insert("token_type".to_string(), serde_json::Value::from(claims.token_type.as_str()));
    let key = jsonwebtoken::EncodingKey::from_secret(secret.as_bytes());
    jsonwebtoken::encode(&jsonwebtoken::Header::default(), &body, &key)
}

/// `jsonwebtoken::decode` with HS256 as the only algorithm allowed and the
/// library's own expiry check switched off. Each claim is handed on as it was
/// found: absent where the token lacks it or holds another type.
#[verifier::external_body]
pub(crate) fn jwt_decode(token: &str, secret: &str) -> (r: Result<
    RawClaims,
    jsonwebtoken::errors::Error,
>)
    ensures
        hs256_claims(token@, secret@) == (match r {
            Ok(c) => Some(c@),
            Err(_) => None,
        }),
{
    let mut validation = jsonwebtoken::Validation::new(jsonwebtoken::Algorithm::HS256);
    validation.validate_exp = false;
    validation.required_spec_claims.clear();
    let key = jsonwebtoken::DecodingKey::from_secret(secret.as_bytes());
    let data = jsonwebtoken::decode::<serde_json::Value>(token, &key, &validation)?;
    Ok(RawClaims {
        sub: data.claims["sub"].as_str().map(String::from),
        exp: data.claims["exp"].as_i64(),
        iat: data.claims["iat"].as_i64(),
        token_type: data.claims["token_type"].as_str().map(String::from),
    })
}

/// `chrono::Utc::now`, in whole seconds since the epoch. Nothing is promised
/// of a clock.
#[verifier::external_body]
pub(crate) fn unix_now() -> i64 {
    chrono::Utc::now().timestamp()
}

/// `uuid::Uuid::new_v4`, written out as text. Nothing is promised of a
/// random identifier.
#[verifier::external_body]
pub(crate) fn new_uuid() -> String {
    uuid::Uuid::new_v4().to_string()
}

/// `chrono::Utc::now`, written as RFC 3339 text. Nothing is promised of a
/// clock.
#[verifier::external_body]
pub(crate) fn current_rfc3339() -> String {
    chrono::Utc::now().to_rfc3339()
}

/// `base64::Engine::encode` on the URL-safe engine without padding: the text
/// depends on the bytes alone. Inputs whose encoded length could leave the
/// range of a length are left out.
#[verifier::external_body]
pub(crate) fn base64url_encode(bytes: &[u8]) -> (r: String)
    requires
        bytes@.len() <= 0x2000_0000,
    ensures
        r@ == base64url(bytes@),
{
    base64::Engine::encode(&base64::engine::general_purpose::URL_SAFE_NO_PAD, bytes)
}

/// `rand::Rng::gen` on the thread's generator, for thirty-two bytes.
#[verifier::external_body]
pub(crate) fn random_bytes() -> (r: Vec<u8>)
    ensures
        r@.len() == 32,
{
    rand::Rng::gen::<[u8; 32]>(&mut rand::thread_rng()).to_vec()
}

/// `ring`'s `Ed25519KeyPair::generate_pkcs8` on the system's generator: a
/// fresh key pair as a PKCS#8 document.
#[verifier::external_body]
pub(crate) fn ed25519_generate() -> (r: Result<Vec<u8>, ring::error::Unspecified>) {
    let rng = ring::rand::SystemRandom::new();
    let document = ring::signature::Ed25519KeyPair::generate_pkcs8(&rng)?;
    Ok(document.as_ref().to_vec())
}

/// `ring`'s `Ed25519KeyPair::from_pkcs8`, then the pair's public key, which
/// has thirty-two bytes.
#[verifier::external_body]
pub(crate) fn ed25519_public_key(pkcs8: &[u8]) -> (r: Result<Vec<u8>, ring::error::KeyRejected>)
    ensures
        r matches Ok(k) ==> k@.len() == 32,
{
    let pair = ring::signature::Ed25519KeyPair::from_pkcs8(pkcs8)?;
    Ok(ring::signature::KeyPair::public_key(&pair).as_ref().to_vec())
}

/// `serde_json::from_str` for a list of strings: what it reads depends on the
/// text alone.
#[verifier::external_body]
pub(crate) fn parse_string_list(text: &str) -> (r: Result<Vec<String>, serde_json::Error>)
    ensures
        json_string_list(text@) == (match r {
            Ok(v) => Some(texts(v@)),
            Err(_) => None,
        }),
{
    serde_json::from_str::<Vec<String>>(text)
}

} // verus!
