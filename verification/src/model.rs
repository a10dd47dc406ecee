//! The documents exchanged with the identity provider and the values the
//! gateway derives from them.

use std::collections::HashMap;
use vstd::prelude::*;

verus! {

/// The character sequence of an optional string.
pub open spec fn opt_text(value: Option<String>) -> Option<Seq<char>> {
    match value {
        Some(s) => Some(s@),
        None => None,
    }
}

/// A username and password, alive for one login call only.
#[derive(Clone, Debug, PartialEq, Eq)]
pub struct Credentials {
    pub username: String,
    pub password: String,
}

/// The body of a successful answer of the token endpoint.
#[derive(Clone, Debug, PartialEq, Eq)]
pub struct KeycloakTokenResponse {
    pub access_token: String,
    pub token_type: String,
    pub expires_in: u64,
    pub refresh_token: Option<String>,
}

/// The body of a successful answer of the user-info endpoint.
#[derive(Clone, Debug, PartialEq, Eq)]
pub struct KeycloakUserInfo {
    pub sub: String,
    pub preferred_username: String,
    pub email: Option<String>,
    pub name: Option<String>,
    pub given_name: Option<String>,
    pub family_name: Option<String>,
}

/// The part of a token's header that validation reads.
#[derive(Clone, Debug, PartialEq, Eq)]
pub struct KeycloakJwtHeader {
    pub alg: String,
    pub typ: Option<String>,
    pub kid: Option<String>,
}

/// A header as plain character sequences.
pub struct HeaderView {
    pub alg: Seq<char>,
    pub typ: Option<Seq<char>>,
    pub kid: Option<Seq<char>>,
}

impl View for KeycloakJwtHeader {
    type V = HeaderView;

    open spec fn view(&self) -> HeaderView {
        HeaderView { alg: self.alg@, typ: opt_text(self.typ), kid: opt_text(self.kid) }
    }
}

/// Realm-wide roles of a token's subject.
#[derive(Clone, Debug, PartialEq, Eq)]
pub struct RealmAccess {
    pub roles: Vec<String>,
}

/// Roles of a token's subject on one resource.
#[derive(Clone, Debug, PartialEq, Eq)]
pub struct ResourceAccess {
    pub roles: Vec<String>,
}

/// The claims of a validated token. Only validation produces one.
///
/// The subject, issuer, audience and the two times are always there; every
/// other claim is handed on as the token had it, or not at all.
#[derive(Clone, Debug, PartialEq, Eq)]
pub struct KeycloakJwtPayload {
    pub sub: String,
    pub iss: String,
    pub aud: String,
    pub exp: u64,
    pub iat: u64,
    pub auth_time: Option<u64>,
    pub session_state: Option<String>,
    pub acr: Option<String>,
    pub realm_access: Option<RealmAccess>,
    pub resource_access: Option<HashMap<String, ResourceAccess>>,
    pub scope: Option<String>,
    pub sid: Option<String>,
    pub email_verified: Option<bool>,
    pub name: Option<String>,
    pub preferred_username: Option<String>,
    pub given_name: Option<String>,
    pub family_name: Option<String>,
    pub email: Option<String>,
}

/// What a token's payload holds before anything is known of it: every
/// claim may be absent, and claims that are not listed here are dropped.
#[derive(Clone, Debug, PartialEq, Eq)]
pub struct UnverifiedClaims {
    pub sub: Option<String>,
    pub iss: Option<String>,
    pub aud: Option<String>,
    pub exp: Option<u64>,
    pub iat: Option<u64>,
    pub auth_time: Option<u64>,
    pub session_state: Option<String>,
    pub acr: Option<String>,
    pub realm_access: Option<RealmAccess>,
    pub resource_access: Option<HashMap<String, ResourceAccess>>,
    pub scope: Option<String>,
    pub sid: Option<String>,
    pub email_verified: Option<bool>,
    pub name: Option<String>,
    pub preferred_username: Option<String>,
    pub given_name: Option<String>,
    pub family_name: Option<String>,
    pub email: Option<String>,
}

/// One JSON Web Key of the identity provider.
#[derive(Debug, PartialEq, Eq)]
pub struct KeycloakKey {
    pub kid: String,
    pub kty: String,
    pub alg: String,
    pub key_use: String,
    pub n: String,
    pub e: String,
}

/// The identity provider's published key set.
#[derive(Clone, Debug, PartialEq, Eq)]
pub struct KeycloakCerts {
    pub keys: Vec<KeycloakKey>,
}

/// Who a login was for. A view derived per request, never stored.
#[derive(Clone, Debug, PartialEq, Eq)]
pub struct Identity {
    /// The subject's UUID as a 128-bit number.
    pub subject_id: u128,
    pub username: String,
    pub email: Option<String>,
    pub display_name: Option<String>,
}

/// What a successful login hands to its caller.
#[derive(Clone, Debug, PartialEq, Eq)]
pub struct Session {
    pub token: String,
    pub identity: Identity,
}

/// The terminal outcome of a login or of a gated request.
#[derive(Clone, Debug, PartialEq, Eq)]
pub enum AuthDecision<T> {
    /// The caller is who the attached value says.
    Authenticated(T),
    /// The caller was refused, for the given reason.
    Rejected(crate::error::AuthError),
    /// No decision could be reached, for the given reason.
    Unavailable(crate::error::AuthError),
}

impl Clone for KeycloakKey {
    fn clone(&self) -> (r: Self)
        ensures
            r == *self,
    {
        KeycloakKey {
            kid: self.kid.clone(),
            kty: self.kty.clone(),
            alg: self.alg.clone(),
            key_use: self.key_use.clone(),
            n: self.n.clone(),
            e: self.e.clone(),
        }
    }
}

} // verus!
