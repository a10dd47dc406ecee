//! Failure kinds shared by every component of the gateway.

use vstd::prelude::*;

verus! {

/// Why an authentication step failed.
///
/// The first two kinds describe the conversation with the identity provider
/// and are recoverable; the others are terminal.
#[derive(Clone, Copy, Debug, PartialEq, Eq, Structural)]
pub enum AuthError {
    /// The identity provider could not be reached, timed out, or answered
    /// with a body that could not be read.
    TransportError,
    /// The identity provider answered with a status outside 200..=299.
    UpstreamRejected,
    /// The token, its header or its claims could not be parsed, or a
    /// required claim is absent.
    MalformedToken,
    /// The token declares an algorithm other than the single allowed one.
    AlgorithmNotAllowed,
    /// The signature does not verify under the selected key.
    InvalidSignature,
    /// The token's `exp` lies in the past, beyond the tolerated skew.
    Expired,
    /// The token's `iat` lies in the future, beyond the tolerated skew.
    NotYetValid,
    /// The token's `iss` is not the expected issuer.
    IssuerMismatch,
    /// The token's `aud` is not the expected audience.
    AudienceMismatch,
    /// No key of the key set can be selected for the token.
    KeyNotFound,
    /// The request carries no usable bearer credential.
    Unauthenticated,
    /// The local development account did not match.
    InvalidCredentials,
}

impl AuthError {
    /// The kinds after which another attempt, or the fallback chain, is
    /// worth trying.
    pub open spec fn recoverable(self) -> bool {
        self == AuthError::TransportError || self == AuthError::UpstreamRejected
    }

    /// Whether the failure is recoverable.
    pub fn is_recoverable(&self) -> (r: bool)
        ensures
            r == self.recoverable(),
    {
        match self {
            AuthError::TransportError => true,
            AuthError::UpstreamRejected => true,
            _ => false,
        }
    }
}

} // verus!
