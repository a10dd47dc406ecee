//! The three things asked of the `jsonwebtoken` crate: reading a token's
//! header, checking an RS256 signature, and making an HS256 signature. Each
//! is a function of its arguments alone, so each result has a name that
//! contracts elsewhere can speak of.

use crate::model::{opt_text, HeaderView, KeycloakJwtHeader};
use vstd::prelude::*;

verus! {

/// The header that `jsonwebtoken::decode_header` reads from `token`, or
/// `None` where it reports an error.
pub uninterp spec fn jose_header(token: Seq<char>) -> Option<HeaderView>;

/// Whether `jsonwebtoken::crypto::verify` accepts `signature` for `message`
/// under RS256 and the RSA key with the base64url components `modulus` and
/// `exponent`; `None` where the components or the signature cannot be
/// decoded.
pub uninterp spec fn rs256_verdict(
    signature: Seq<char>,
    message: Seq<char>,
    modulus: Seq<char>,
    exponent: Seq<char>,
) -> Option<bool>;

/// The signature that `jsonwebtoken::crypto::sign` makes of `message` under
/// HS256 and the shared `secret`, as base64url text; `None` where it reports
/// an error.
pub uninterp spec fn hs256_signature(message: Seq<char>, secret: Seq<char>) -> Option<Seq<char>>;

/// Reads the header of `token`.
///
/// Trusted: calls `jsonwebtoken::decode_header` and copies the algorithm's
/// name, `typ` and `kid` out of its result. The contract claims only that
/// the outcome is the one named by [`jose_header`].
#[verifier::external_body]
pub(crate) fn decode_header(token: &str) -> (r: Option<KeycloakJwtHeader>)
    ensures
        r is Some <==> jose_header(token@) is Some,
        r matches Some(h) ==> jose_header(token@) == Some(h@),
{
    let header = jsonwebtoken::decode_header(token).ok()?;
    Some(KeycloakJwtHeader { alg: format!("{:?}", header.alg), typ: header.typ, kid: header.kid })
}

/// Checks an RS256 signature against a key given by its components.
///
/// Trusted: builds the key with `jsonwebtoken::DecodingKey::from_rsa_components`
/// and calls `jsonwebtoken::crypto::verify` with `Algorithm::RS256`. The
/// contract claims only that the outcome is the one named by
/// [`rs256_verdict`].
#[verifier::external_body]
pub(crate) fn verify_rs256(signature: &str, message: &str, modulus: &str, exponent: &str) -> (r:
    Option<bool>)
    ensures
        r == rs256_verdict(signature@, message@, modulus@, exponent@),
{
    let key = jsonwebtoken::DecodingKey::from_rsa_components(modulus, exponent).ok()?;
    jsonwebtoken::crypto::verify(
        signature,
        message.as_bytes(),
        &key,
        jsonwebtoken::Algorithm::RS256,
    ).ok()
}

/// Signs `message` under HS256 with a shared secret.
///
/// Trusted: builds the key with `jsonwebtoken::EncodingKey::from_secret` and
/// calls `jsonwebtoken::crypto::sign` with `Algorithm::HS256`. The contract
/// claims only that the outcome is the one named by [`hs256_signature`].
#[verifier::external_body]
pub(crate) fn sign_hs256(message: &str, secret: &str) -> (r: Option<String>)
    ensures
        opt_text(r) == hs256_signature(message@, secret@),
{
    let key = jsonwebtoken::EncodingKey::from_secret(secret.as_bytes());
    jsonwebtoken::crypto::sign(message.as_bytes(), &key, jsonwebtoken::Algorithm::HS256).ok()
}

} // verus!
