//! Token validation as a sequence of checks that stops at the first one
//! that fails: header, algorithm, signature, time window, issuer, audience,
//! and last the presence of the required claims.

use crate::error::AuthError;
use crate::model::{HeaderView, KeycloakJwtHeader, KeycloakJwtPayload, UnverifiedClaims};
use crate::text::str_eq;
use vstd::prelude::*;

verus! {

/// Seconds by which the clocks of the provider and of this service may
/// differ.
pub const CLOCK_SKEW_SECONDS: u64 = 60;

/// The name of the single signature algorithm that is accepted.
pub open spec fn allowed_algorithm() -> Seq<char> {
    "RS256"@
}

/// A token that expires at `exp` is no longer good at `now`.
pub open spec fn expired(exp: u64, now: u64, leeway: u64) -> bool {
    exp + leeway <= now
}

/// A token issued at `iat` is not good yet at `now`.
pub open spec fn not_yet_valid(iat: u64, now: u64, leeway: u64) -> bool {
    iat > now + leeway
}

/// The claims of a payload in which the five required claims are present:
/// `sub`, `iss`, `aud`, `exp` and `iat`; `None` where one is absent. Every
/// other claim is handed on as it is.
pub open spec fn assembled(c: UnverifiedClaims) -> Option<KeycloakJwtPayload> {
    if c.sub is Some && c.iss is Some && c.aud is Some && c.exp is Some && c.iat is Some {
        Some(
            KeycloakJwtPayload {
                sub: c.sub->0,
                iss: c.iss->0,
                aud: c.aud->0,
                exp: c.exp->0,
                iat: c.iat->0,
                auth_time: c.auth_time,
                session_state: c.session_state,
                acr: c.acr,
                realm_access: c.realm_access,
                resource_access: c.resource_access,
                scope: c.scope,
                sid: c.sid,
                email_verified: c.email_verified,
                name: c.name,
                preferred_username: c.preferred_username,
                given_name: c.given_name,
                family_name: c.family_name,
                email: c.email,
            },
        )
    } else {
        None
    }
}

/// What the checks on a payload's claims come to, in their order: the time
/// window, the issuer, the audience, then completeness.
pub open spec fn claims_verdict(
    c: UnverifiedClaims,
    now: u64,
    leeway: u64,
    issuer: Seq<char>,
    audience: Seq<char>,
) -> Result<KeycloakJwtPayload, AuthError> {
    if c.exp is None {
        Err(AuthError::MalformedToken)
    } else if expired(c.exp->0, now, leeway) {
        Err(AuthError::Expired)
    } else if c.iat is None {
        Err(AuthError::MalformedToken)
    } else if not_yet_valid(c.iat->0, now, leeway) {
        Err(AuthError::NotYetValid)
    } else if c.iss is None {
        Err(AuthError::MalformedToken)
    } else if (c.iss->0)@ != issuer {
        Err(AuthError::IssuerMismatch)
    } else if c.aud is None {
        Err(AuthError::MalformedToken)
    } else if (c.aud->0)@ != audience {
        Err(AuthError::AudienceMismatch)
    } else {
        match assembled(c) {
            Some(claims) => Ok(claims),
            None => Err(AuthError::MalformedToken),
        }
    }
}

/// What validation comes to, given what was read from the token: its
/// header (`None` where it cannot be parsed), whether its signature
/// verifies under the selected key, and its payload (`None` where it
/// cannot be parsed).
pub open spec fn token_verdict(
    header: Option<HeaderView>,
    signature_ok: bool,
    claims: Option<UnverifiedClaims>,
    now: u64,
    leeway: u64,
    issuer: Seq<char>,
    audience: Seq<char>,
) -> Result<KeycloakJwtPayload, AuthError> {
    match header {
        None => Err(AuthError::MalformedToken),
        Some(header) => if header.alg != allowed_algorithm() {
            Err(AuthError::AlgorithmNotAllowed)
        } else if !signature_ok {
            Err(AuthError::InvalidSignature)
        } else {
            match claims {
                None => Err(AuthError::MalformedToken),
                Some(c) => claims_verdict(c, now, leeway, issuer, audience),
            }
        },
    }
}

/// The header of an optional header.
pub open spec fn opt_header(header: Option<&KeycloakJwtHeader>) -> Option<HeaderView> {
    match header {
        Some(h) => Some(h@),
        None => None,
    }
}

/// Whether `header` declares the accepted algorithm.
pub fn algorithm_allowed(header: &KeycloakJwtHeader) -> (r: bool)
    ensures
        r == (header.alg@ == allowed_algorithm()),
{
    str_eq(header.alg.as_str(), "RS256")
}

/// Whether a token that expires at `exp` is no longer good at `now`.
pub fn is_expired(exp: u64, now: u64, leeway: u64) -> (r: bool)
    ensures
        r == expired(exp, now, leeway),
{
    exp <= now && now - exp >= leeway
}

/// Whether a token issued at `iat` is not good yet at `now`.
pub fn is_not_yet_valid(iat: u64, now: u64, leeway: u64) -> (r: bool)
    ensures
        r == not_yet_valid(iat, now, leeway),
{
    iat > now && iat - now > leeway
}

/// Turns a payload into claims, if the five required claims are present.
pub fn assemble(c: UnverifiedClaims) -> (r: Option<KeycloakJwtPayload>)
    ensures
        r == assembled(c),
{
    let UnverifiedClaims {
        sub,
        iss,
        aud,
        exp,
        iat,
        auth_time,
        session_state,
        acr,
        realm_access,
        resource_access,
        scope,
        sid,
        email_verified,
        name,
        preferred_username,
        given_name,
        family_name,
        email,
    } = c;
    match (sub, iss, aud, exp, iat) {
        (Some(sub), Some(iss), Some(aud), Some(exp), Some(iat)) => Some(
            KeycloakJwtPayload {
                sub,
                iss,
                aud,
                exp,
                iat,
                auth_time,
                session_state,
                acr,
                realm_access,
                resource_access,
                scope,
                sid,
                email_verified,
                name,
                preferred_username,
                given_name,
                family_name,
                email,
            },
        ),
        _ => None,
    }
}

/// Checks a payload's claims against the clock and the expected issuer and
/// audience, and hands them on if all is well.
pub fn check_claims(c: UnverifiedClaims, now: u64, leeway: u64, issuer: &str, audience: &str) -> (r:
    Result<KeycloakJwtPayload, AuthError>)
    ensures
        r == claims_verdict(c, now, leeway, issuer@, audience@),
{
    match c.exp {
        None => {
            return Err(AuthError::MalformedToken);
        },
        Some(exp) => {
            if is_expired(exp, now, leeway) {
                return Err(AuthError::Expired);
            }
        },
    }
    match c.iat {
        None => {
            return Err(AuthError::MalformedToken);
        },
        Some(iat) => {
            if is_not_yet_valid(iat, now, leeway) {
                return Err(AuthError::NotYetValid);
            }
        },
    }
    match &c.iss {
        None => {
            return Err(AuthError::MalformedToken);
        },
        Some(iss) => {
            if !str_eq(iss.as_str(), issuer) {
                return Err(AuthError::IssuerMismatch);
            }
        },
    }
    match &c.aud {
        None => {
            return Err(AuthError::MalformedToken);
        },
        Some(aud) => {
            if !str_eq(aud.as_str(), audience) {
                return Err(AuthError::AudienceMismatch);
            }
        },
    }
    match assemble(c) {
        Some(claims) => Ok(claims),
        None => Err(AuthError::MalformedToken),
    }
}

/// Validates a token from what was read from it.
pub fn decide_token(
    header: Option<&KeycloakJwtHeader>,
    signature_ok: bool,
    claims: Option<UnverifiedClaims>,
    now: u64,
    leeway: u64,
    issuer: &str,
    audience: &str,
) -> (r: Result<KeycloakJwtPayload, AuthError>)
    ensures
        r == token_verdict(opt_header(header), signature_ok, claims, now, leeway, issuer@, audience@),
{
    match header {
        None => Err(AuthError::MalformedToken),
        Some(header) => {
            if !algorithm_allowed(header) {
                Err(AuthError::AlgorithmNotAllowed)
            } else if !signature_ok {
                Err(AuthError::InvalidSignature)
            } else {
                match claims {
                    None => Err(AuthError::MalformedToken),
                    Some(c) => check_claims(c, now, leeway, issuer, audience),
                }
            }
        },
    }
}

/// A token that is accepted has passed every check: its header declares
/// the accepted algorithm, its signature verifies, the time `now` lies in
/// its window, its issuer and audience are the expected ones, and the
/// claims handed on are those of its payload.
pub proof fn lemma_accepted_token_passed_every_check(
    header: Option<HeaderView>,
    signature_ok: bool,
    claims: Option<UnverifiedClaims>,
    now: u64,
    leeway: u64,
    issuer: Seq<char>,
    audience: Seq<char>,
)
    requires
        token_verdict(header, signature_ok, claims, now, leeway, issuer, audience) is Ok,
    ensures
        header matches Some(h) && h.alg == allowed_algorithm(),
        signature_ok,
        claims matches Some(c) && Some(
            token_verdict(header, signature_ok, claims, now, leeway, issuer, audience)->Ok_0,
        ) == assembled(c),
        ({
            let accepted = token_verdict(
                header,
                signature_ok,
                claims,
                now,
                leeway,
                issuer,
                audience,
            )->Ok_0;
            &&& !expired(accepted.exp, now, leeway)
            &&& !not_yet_valid(accepted.iat, now, leeway)
            &&& accepted.iss@ == issuer
            &&& accepted.aud@ == audience
        }),
{
}

/// A token whose `exp` is past is never accepted, whatever its header says
/// and whether or not its signature verifies.
pub proof fn lemma_expired_token_never_accepted(
    header: Option<HeaderView>,
    signature_ok: bool,
    c: UnverifiedClaims,
    now: u64,
    leeway: u64,
    issuer: Seq<char>,
    audience: Seq<char>,
)
    requires
        c.exp matches Some(exp) && expired(exp, now, leeway),
    ensures
        token_verdict(header, signature_ok, Some(c), now, leeway, issuer, audience) is Err,
{
}

/// A token whose `exp` is past, and whose header and signature have passed,
/// is refused as `Expired`, whatever else its claims hold.
pub proof fn lemma_expired_token_reported(
    header: HeaderView,
    c: UnverifiedClaims,
    now: u64,
    leeway: u64,
    issuer: Seq<char>,
    audience: Seq<char>,
)
    requires
        header.alg == allowed_algorithm(),
        c.exp matches Some(exp) && expired(exp, now, leeway),
    ensures
        token_verdict(Some(header), true, Some(c), now, leeway, issuer, audience) == Err::<
            KeycloakJwtPayload,
            AuthError,
        >(AuthError::Expired),
{
}

/// A token that declares any algorithm but the accepted one is refused as
/// `AlgorithmNotAllowed`, whatever its signature and claims; one whose
/// header cannot be read is refused as `MalformedToken`.
pub proof fn lemma_algorithm_is_fixed(
    header: Option<HeaderView>,
    signature_ok: bool,
    claims: Option<UnverifiedClaims>,
    now: u64,
    leeway: u64,
    issuer: Seq<char>,
    audience: Seq<char>,
)
    ensures
        header matches Some(h) && h.alg != allowed_algorithm() ==> token_verdict(
            header,
            signature_ok,
            claims,
            now,
            leeway,
            issuer,
            audience,
        ) == Err::<KeycloakJwtPayload, AuthError>(AuthError::AlgorithmNotAllowed),
        header is None ==> token_verdict(
            header,
            signature_ok,
            claims,
            now,
            leeway,
            issuer,
            audience,
        ) == Err::<KeycloakJwtPayload, AuthError>(AuthError::MalformedToken),
{
}

/// Validating the same token at two times at which it is accepted yields
/// the same claims.
pub proof fn lemma_validation_is_repeatable(
    header: Option<HeaderView>,
    signature_ok: bool,
    claims: Option<UnverifiedClaims>,
    first: u64,
    second: u64,
    leeway: u64,
    issuer: Seq<char>,
    audience: Seq<char>,
)
    requires
        token_verdict(header, signature_ok, claims, first, leeway, issuer, audience) is Ok,
        token_verdict(header, signature_ok, claims, second, leeway, issuer, audience) is Ok,
    ensures
        token_verdict(header, signature_ok, claims, first, leeway, issuer, audience)
            == token_verdict(header, signature_ok, claims, second, leeway, issuer, audience),
{
}

} // verus!
