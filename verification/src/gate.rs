//! What stands in front of every inbound request: which paths pass without a
//! credential, what counts as a bearer credential, and what a request is
//! answered with once its token has been judged.

use crate::client::{authentication_of, ClientView, KeycloakClient};
use crate::error::AuthError;
use crate::keys::{opt_str, MissingKidPolicy};
use crate::model::{AuthDecision, KeycloakCerts, KeycloakJwtPayload, UnverifiedClaims};
use crate::text::{contains_str, has_prefix, lists, strip_prefix};
use vstd::prelude::*;

verus! {

/// The status that answers every refused request.
pub const UNAUTHENTICATED_STATUS: u16 = 401;

/// What opens the value of an `Authorization` header that carries a bearer
/// token.
pub open spec fn bearer_prefix() -> Seq<char> {
    "Bearer "@
}

/// What is made of a request before any token is validated.
#[derive(Clone, Copy, Debug, PartialEq, Eq)]
pub enum Screening<'a> {
    /// The path is exempt: the request passes as it is.
    Exempt,
    /// The request carries this bearer token, which is yet to be validated.
    Bearer(&'a str),
    /// The request is refused.
    Refused(AuthError),
}

/// A screening as plain values.
pub enum ScreeningView {
    Exempt,
    Bearer(Seq<char>),
    Refused(AuthError),
}

impl<'a> View for Screening<'a> {
    type V = ScreeningView;

    open spec fn view(&self) -> ScreeningView {
        match *self {
            Screening::Exempt => ScreeningView::Exempt,
            Screening::Bearer(token) => ScreeningView::Bearer(token@),
            Screening::Refused(reason) => ScreeningView::Refused(reason),
        }
    }
}

/// What is made of a request to `path` with the given
/// `Authorization` header: exempt paths pass; any other request needs a
/// header that is `Bearer `, then a token that is not empty.
pub open spec fn screened(
    exempt: Seq<String>,
    path: Seq<char>,
    authorization: Option<Seq<char>>,
) -> ScreeningView {
    if lists(exempt, path) {
        ScreeningView::Exempt
    } else {
        match authorization {
            None => ScreeningView::Refused(AuthError::Unauthenticated),
            Some(value) => if has_prefix(value, bearer_prefix()) && value.len()
                > bearer_prefix().len() {
                ScreeningView::Bearer(value.skip(bearer_prefix().len() as int))
            } else {
                ScreeningView::Refused(AuthError::Unauthenticated)
            },
        }
    }
}

/// What is decided of a bearer token, given the realm's signing keys or
/// the reason why there are none: without keys no decision is reached; with
/// them the token is authenticated against them.
pub open spec fn gate_decision(
    client: ClientView,
    token: Seq<char>,
    keys: Result<&KeycloakCerts, AuthError>,
    policy: MissingKidPolicy,
    claims: Option<UnverifiedClaims>,
    now: u64,
) -> AuthDecision<KeycloakJwtPayload> {
    match keys {
        Err(reason) => AuthDecision::Unavailable(reason),
        Ok(certs) => match authentication_of(client, token, certs.keys@, policy, claims, now) {
            Ok(claims) => AuthDecision::Authenticated(claims),
            Err(reason) => AuthDecision::Rejected(reason),
        },
    }
}

/// The status that a decision is answered with; `None` where the request
/// goes on to its handler.
pub open spec fn refusal_status<T>(decision: AuthDecision<T>) -> Option<u16> {
    match decision {
        AuthDecision::Authenticated(_) => None,
        AuthDecision::Rejected(_) => Some(UNAUTHENTICATED_STATUS),
        AuthDecision::Unavailable(_) => Some(UNAUTHENTICATED_STATUS),
    }
}

/// The request screen, with the paths that it lets pass without a credential.
#[derive(Clone, Debug, PartialEq, Eq)]
pub struct RequestGate {
    pub exempt_paths: Vec<String>,
}

impl RequestGate {
    /// A screen that exempts the given paths.
    pub fn new(exempt_paths: Vec<String>) -> (r: Self)
        ensures
            r.exempt_paths == exempt_paths,
    {
        RequestGate { exempt_paths }
    }

    /// Screens a request: `path` is the path of its URI, `authorization`
    /// the value of its `Authorization` header, if it has one that is text.
    pub fn screen<'a>(&self, path: &str, authorization: Option<&'a str>) -> (r: Screening<'a>)
        ensures
            r@ == screened(self.exempt_paths@, path@, opt_str(authorization)),
    {
        if contains_str(&self.exempt_paths, path) {
            return Screening::Exempt;
        }
        match authorization {
            None => Screening::Refused(AuthError::Unauthenticated),
            Some(value) => match strip_prefix(value, "Bearer ") {
                None => Screening::Refused(AuthError::Unauthenticated),
                Some(token) => {
                    if token.is_empty() {
                        Screening::Refused(AuthError::Unauthenticated)
                    } else {
                        Screening::Bearer(token)
                    }
                },
            },
        }
    }

    /// Decides a request that carries the bearer token `token`. `keys` are
    /// the realm's signing keys, or the reason why they could not be had;
    /// `claims` is the token's payload as it was read, `now` the time in
    /// seconds since the epoch.
    pub fn decide(
        &self,
        client: &KeycloakClient,
        token: &str,
        keys: Result<&KeycloakCerts, AuthError>,
        policy: MissingKidPolicy,
        claims: Option<UnverifiedClaims>,
        now: u64,
    ) -> (r: AuthDecision<KeycloakJwtPayload>)
        ensures
            r == gate_decision(client@, token@, keys, policy, claims, now),
    {
        match keys {
            Err(reason) => AuthDecision::Unavailable(reason),
            Ok(certs) => match client.authenticate(token, certs, policy, claims, now) {
                Ok(claims) => AuthDecision::Authenticated(claims),
                Err(reason) => AuthDecision::Rejected(reason),
            },
        }
    }
}

impl<T> AuthDecision<T> {
    /// The status that this decision is answered with; `None` where the
    /// request goes on to its handler. Every refusal is answered alike,
    /// whatever its reason.
    pub fn status(&self) -> (r: Option<u16>)
        ensures
            r == refusal_status(*self),
    {
        match self {
            AuthDecision::Authenticated(_) => None,
            AuthDecision::Rejected(_) => Some(UNAUTHENTICATED_STATUS),
            AuthDecision::Unavailable(_) => Some(UNAUTHENTICATED_STATUS),
        }
    }
}

} // verus!
