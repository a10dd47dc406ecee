//! The login fallback chain as a state machine. The caller performs what a
//! state waits for (a call to the identity provider, the signing of a local
//! token) and reports the result as an event; every decision is taken here.

use crate::error::AuthError;
use crate::framing::{check_hs256, hs256_accepts};
use crate::jose::{decode_header, jose_header};
use crate::text::str_eq;
use crate::identity::{
    enriched_identity,
    fresh_uuid,
    is_random_uuid,
    parse_uuid,
    synthesized_identity,
    uuid_value,
};
use crate::model::{
    AuthDecision,
    Credentials,
    Identity,
    KeycloakTokenResponse,
    KeycloakUserInfo,
    Session,
};
use vstd::prelude::*;

verus! {

/// How a deployment wants logins handled.
#[derive(Clone, Debug, PartialEq, Eq)]
pub struct LoginPolicy {
    /// Whether the local development account may stand in for an identity
    /// provider that fails. Off unless a deployment opts in.
    pub allow_local_fallback: bool,
    /// The development account's name.
    pub local_username: String,
    /// The development account's password.
    pub local_password: String,
    /// The service's own key, under which local tokens are signed (HS256).
    pub signing_secret: String,
    /// How often a credential exchange is tried again after a transport
    /// failure before the chain moves on.
    pub transport_retries: u8,
}

/// Where a login stands.
#[derive(Clone, Debug, PartialEq, Eq)]
pub enum LoginState {
    /// Waiting for the credential exchange with the identity provider.
    TryIdp { retries_left: u8 },
    /// The provider issued `token`; waiting for the user-info lookup.
    EnrichIdentity { token: KeycloakTokenResponse },
    /// The development account matched; waiting for a locally signed token
    /// for the subject `subject_id`.
    FallbackLocal { subject_id: u128 },
    /// Decided.
    Done(AuthDecision<Session>),
}

/// What the caller reports back.
#[derive(Clone, Debug, PartialEq, Eq)]
pub enum LoginEvent {
    /// The provider exchanged the credentials for a token.
    TokenIssued(KeycloakTokenResponse),
    /// The credential exchange failed.
    ExchangeFailed(AuthError),
    /// The provider described the token's user.
    UserInfoFetched(KeycloakUserInfo),
    /// The user-info lookup failed.
    UserInfoFailed(AuthError),
    /// The service signed a local token.
    LocalTokenSigned(String),
    /// The service could not sign a local token.
    LocalTokenFailed,
}

/// What a state waits for.
#[derive(Clone, Copy, Debug, PartialEq, Eq, Structural)]
pub enum LoginAction {
    /// Exchange the credentials at the provider's token endpoint.
    ExchangeCredentials,
    /// Look the user up with the issued access token.
    FetchUserInfo,
    /// Sign a token for the subject with the service's own key.
    SignLocalToken,
    /// Nothing: hand the decision to the caller.
    Finish,
}

/// What the outside world contributes to one step: the UUID read from a
/// user-info document's `sub`, a random UUID, and whether a local token
/// verifies under the service's key.
#[derive(Clone, Copy, Debug, PartialEq, Eq)]
pub struct StepInputs {
    pub parsed_subject: Option<u128>,
    pub fresh_subject: u128,
    pub locally_signed: bool,
}

/// What a state waits for.
pub open spec fn pending_action(state: LoginState) -> LoginAction {
    match state {
        LoginState::TryIdp { .. } => LoginAction::ExchangeCredentials,
        LoginState::EnrichIdentity { .. } => LoginAction::FetchUserInfo,
        LoginState::FallbackLocal { .. } => LoginAction::SignLocalToken,
        LoginState::Done(_) => LoginAction::Finish,
    }
}

/// The credentials are those of the development account.
pub open spec fn local_account_matches(policy: LoginPolicy, credentials: Credentials) -> bool {
    credentials.username@ == policy.local_username@ && credentials.password@
        == policy.local_password@
}

/// Where a failed credential exchange leads: to another try after a
/// transport failure, while tries are left; to the development account
/// where the deployment allows it; otherwise to a decision, which is
/// `Unavailable` where the provider could not be reached and `Rejected`
/// where it refused.
pub open spec fn after_exchange_failure(
    policy: LoginPolicy,
    credentials: Credentials,
    retries_left: u8,
    error: AuthError,
    fresh_subject: u128,
) -> LoginState {
    if error == AuthError::TransportError && retries_left > 0 {
        LoginState::TryIdp { retries_left: (retries_left - 1) as u8 }
    } else if policy.allow_local_fallback && error.recoverable() {
        if local_account_matches(policy, credentials) {
            LoginState::FallbackLocal { subject_id: fresh_subject }
        } else {
            LoginState::Done(AuthDecision::Rejected(AuthError::InvalidCredentials))
        }
    } else if error == AuthError::TransportError {
        LoginState::Done(AuthDecision::Unavailable(AuthError::TransportError))
    } else {
        LoginState::Done(AuthDecision::Rejected(error))
    }
}

/// The state that follows `state` on `event`. An event that the state does
/// not wait for leaves it as it is.
pub open spec fn login_next(
    policy: LoginPolicy,
    credentials: Credentials,
    state: LoginState,
    event: LoginEvent,
    inputs: StepInputs,
) -> LoginState {
    match (state, event) {
        (LoginState::TryIdp { .. }, LoginEvent::TokenIssued(token)) => LoginState::EnrichIdentity {
            token,
        },
        (
            LoginState::TryIdp { retries_left },
            LoginEvent::ExchangeFailed(error),
        ) => after_exchange_failure(
            policy,
            credentials,
            retries_left,
            error,
            inputs.fresh_subject,
        ),
        (
            LoginState::EnrichIdentity { token },
            LoginEvent::UserInfoFetched(info),
        ) => LoginState::Done(
            AuthDecision::Authenticated(
                Session {
                    token: token.access_token,
                    identity: enriched_identity(info, inputs.parsed_subject, inputs.fresh_subject),
                },
            ),
        ),
        (LoginState::EnrichIdentity { token }, LoginEvent::UserInfoFailed(_)) => LoginState::Done(
            AuthDecision::Authenticated(
                Session {
                    token: token.access_token,
                    identity: synthesized_identity(credentials.username, inputs.fresh_subject),
                },
            ),
        ),
        (LoginState::FallbackLocal { subject_id }, LoginEvent::LocalTokenSigned(token)) => {
            if inputs.locally_signed {
                LoginState::Done(
                    AuthDecision::Authenticated(
                        Session {
                            token,
                            identity: synthesized_identity(credentials.username, subject_id),
                        },
                    ),
                )
            } else {
                LoginState::Done(AuthDecision::Unavailable(AuthError::InvalidSignature))
            }
        },
        (LoginState::FallbackLocal { .. }, LoginEvent::LocalTokenFailed) => LoginState::Done(
            AuthDecision::Unavailable(AuthError::InvalidSignature),
        ),
        (state, _) => state,
    }
}

/// The name of the algorithm under which the service signs its own tokens.
pub open spec fn local_algorithm() -> Seq<char> {
    "HS256"@
}

/// `token` is a token of the service's own making: its header can be read
/// and declares HS256, and its signature is the one that `secret` makes.
pub open spec fn locally_signed(token: Seq<char>, secret: Seq<char>) -> bool {
    &&& jose_header(token) matches Some(header)
    &&& header.alg == local_algorithm()
    &&& hs256_accepts(token, secret)
}

/// Whether `token` is a token of the service's own making.
pub fn is_locally_signed(token: &str, secret: &str) -> (r: bool)
    ensures
        r == locally_signed(token@, secret@),
{
    match decode_header(token) {
        Some(header) => str_eq(header.alg.as_str(), "HS256") && check_hs256(token, secret),
        None => false,
    }
}

/// What the outside world says of `event`, given the random UUID `fresh`.
pub open spec fn inputs_for(policy: LoginPolicy, event: LoginEvent, fresh: u128) -> StepInputs {
    StepInputs {
        parsed_subject: match event {
            LoginEvent::UserInfoFetched(info) => uuid_value(info.sub@),
            _ => None,
        },
        fresh_subject: fresh,
        locally_signed: match event {
            LoginEvent::LocalTokenSigned(token) => locally_signed(token@, policy.signing_secret@),
            _ => false,
        },
    }
}

/// The state waits for an event of this kind.
pub open spec fn awaited(state: LoginState, event: LoginEvent) -> bool {
    match state {
        LoginState::TryIdp { .. } => event is TokenIssued || event is ExchangeFailed,
        LoginState::EnrichIdentity { .. } => event is UserInfoFetched || event is UserInfoFailed,
        LoginState::FallbackLocal { .. } => event is LocalTokenSigned || event is LocalTokenFailed,
        LoginState::Done(_) => false,
    }
}

/// An upper bound on the events that a login still waits for.
pub open spec fn steps_left(state: LoginState) -> nat {
    match state {
        LoginState::TryIdp { retries_left } => (retries_left + 3) as nat,
        LoginState::EnrichIdentity { .. } => 1,
        LoginState::FallbackLocal { .. } => 1,
        LoginState::Done(_) => 0,
    }
}

/// A decision is final: no event changes it.
pub proof fn lemma_decision_is_final(
    policy: LoginPolicy,
    credentials: Credentials,
    decision: AuthDecision<Session>,
    event: LoginEvent,
    inputs: StepInputs,
)
    ensures
        login_next(policy, credentials, LoginState::Done(decision), event, inputs)
            == LoginState::Done(decision),
{
}

/// Every login ends: an awaited event brings the decision closer, and any
/// other event changes nothing.
pub proof fn lemma_login_makes_progress(
    policy: LoginPolicy,
    credentials: Credentials,
    state: LoginState,
    event: LoginEvent,
    inputs: StepInputs,
)
    ensures
        awaited(state, event) ==> steps_left(
            login_next(policy, credentials, state, event, inputs),
        ) < steps_left(state),
        !awaited(state, event) ==> login_next(policy, credentials, state, event, inputs) == state,
{
}

/// Once the provider has issued a token the login succeeds with that very
/// token, whether the user-info lookup succeeds or not; where it fails, the
/// identity is made up from the submitted username.
pub proof fn lemma_issued_token_is_preserved(
    policy: LoginPolicy,
    credentials: Credentials,
    token: KeycloakTokenResponse,
    event: LoginEvent,
    inputs: StepInputs,
)
    requires
        event is UserInfoFetched || event is UserInfoFailed,
    ensures
        login_next(policy, credentials, LoginState::EnrichIdentity { token }, event, inputs)
            matches LoginState::Done(AuthDecision::Authenticated(session)) && session.token
            == token.access_token && (event is UserInfoFailed ==> session.identity
            == synthesized_identity(credentials.username, inputs.fresh_subject)),
{
}

/// Without the opt-in the development account is never consulted.
pub proof fn lemma_fallback_needs_opt_in(
    policy: LoginPolicy,
    credentials: Credentials,
    state: LoginState,
    event: LoginEvent,
    inputs: StepInputs,
)
    requires
        !policy.allow_local_fallback,
        !(state is FallbackLocal),
    ensures
        !(login_next(policy, credentials, state, event, inputs) is FallbackLocal),
{
}

/// A login that the development account carries succeeds only with a token
/// that verifies under the service's own key.
pub proof fn lemma_local_session_is_signed(
    policy: LoginPolicy,
    credentials: Credentials,
    subject_id: u128,
    event: LoginEvent,
    inputs: StepInputs,
)
    requires
        login_next(
            policy,
            credentials,
            LoginState::FallbackLocal { subject_id },
            event,
            inputs,
        ) matches LoginState::Done(AuthDecision::Authenticated(_)),
    ensures
        inputs.locally_signed,
        event is LocalTokenSigned,
        login_next(policy, credentials, LoginState::FallbackLocal { subject_id }, event, inputs)
            == LoginState::Done(
            AuthDecision::Authenticated(
                Session {
                    token: event->LocalTokenSigned_0,
                    identity: synthesized_identity(credentials.username, subject_id),
                },
            ),
        ),
{
}

impl LoginState {
    /// What this state waits for.
    pub fn pending(&self) -> (r: LoginAction)
        ensures
            r == pending_action(*self),
    {
        match self {
            LoginState::TryIdp { .. } => LoginAction::ExchangeCredentials,
            LoginState::EnrichIdentity { .. } => LoginAction::FetchUserInfo,
            LoginState::FallbackLocal { .. } => LoginAction::SignLocalToken,
            LoginState::Done(_) => LoginAction::Finish,
        }
    }
}

impl LoginPolicy {
    /// The state a login begins in.
    pub fn start(&self) -> (r: LoginState)
        ensures
            r == (LoginState::TryIdp { retries_left: self.transport_retries }),
    {
        LoginState::TryIdp { retries_left: self.transport_retries }
    }

    /// Whether `credentials` are those of the development account.
    pub fn matches_local_account(&self, credentials: &Credentials) -> (r: bool)
        ensures
            r == local_account_matches(*self, *credentials),
    {
        credentials.username == self.local_username && credentials.password == self.local_password
    }

    /// Where a failed credential exchange leads.
    fn exchange_failed(
        &self,
        credentials: &Credentials,
        retries_left: u8,
        error: AuthError,
        fresh_subject: u128,
    ) -> (r: LoginState)
        ensures
            r == after_exchange_failure(*self, *credentials, retries_left, error, fresh_subject),
    {
        if error == AuthError::TransportError && retries_left > 0 {
            LoginState::TryIdp { retries_left: retries_left - 1 }
        } else if self.allow_local_fallback && error.is_recoverable() {
            if self.matches_local_account(credentials) {
                LoginState::FallbackLocal { subject_id: fresh_subject }
            } else {
                LoginState::Done(AuthDecision::Rejected(AuthError::InvalidCredentials))
            }
        } else if error == AuthError::TransportError {
            LoginState::Done(AuthDecision::Unavailable(AuthError::TransportError))
        } else {
            LoginState::Done(AuthDecision::Rejected(error))
        }
    }

    /// Takes one step of the chain, with everything the outside world
    /// contributes given in `inputs`.
    pub fn advance(
        &self,
        credentials: &Credentials,
        state: LoginState,
        event: LoginEvent,
        inputs: StepInputs,
    ) -> (r: LoginState)
        ensures
            r == login_next(*self, *credentials, state, event, inputs),
    {
        match (state, event) {
            (LoginState::TryIdp { .. }, LoginEvent::TokenIssued(token)) => {
                LoginState::EnrichIdentity { token }
            },
            (LoginState::TryIdp { retries_left }, LoginEvent::ExchangeFailed(error)) => {
                self.exchange_failed(credentials, retries_left, error, inputs.fresh_subject)
            },
            (LoginState::EnrichIdentity { token }, LoginEvent::UserInfoFetched(info)) => {
                let identity = Identity::from_user_info(
                    info,
                    inputs.parsed_subject,
                    inputs.fresh_subject,
                );
                LoginState::Done(
                    AuthDecision::Authenticated(Session { token: token.access_token, identity }),
                )
            },
            (LoginState::EnrichIdentity { token }, LoginEvent::UserInfoFailed(_)) => {
                let identity = Identity::synthesized(
                    credentials.username.clone(),
                    inputs.fresh_subject,
                );
                LoginState::Done(
                    AuthDecision::Authenticated(Session { token: token.access_token, identity }),
                )
            },
            (LoginState::FallbackLocal { subject_id }, LoginEvent::LocalTokenSigned(token)) => {
                if inputs.locally_signed {
                    let identity = Identity::synthesized(credentials.username.clone(), subject_id);
                    LoginState::Done(AuthDecision::Authenticated(Session { token, identity }))
                } else {
                    LoginState::Done(AuthDecision::Unavailable(AuthError::InvalidSignature))
                }
            },
            (LoginState::FallbackLocal { .. }, LoginEvent::LocalTokenFailed) => {
                LoginState::Done(AuthDecision::Unavailable(AuthError::InvalidSignature))
            },
            (state, _) => state,
        }
    }

    /// Takes one step of the chain: reads the UUID of a fetched user's
    /// `sub`, checks a local token against the service's key, draws a
    /// random UUID, and advances with what came back.
    pub fn step(&self, credentials: &Credentials, state: LoginState, event: LoginEvent) -> (r:
        LoginState)
        ensures
            exists|fresh: u128| #[trigger]
                is_random_uuid(fresh) && r == login_next(
                    *self,
                    *credentials,
                    state,
                    event,
                    inputs_for(*self, event, fresh),
                ),
    {
        let parsed_subject = match &event {
            LoginEvent::UserInfoFetched(info) => parse_uuid(info.sub.as_str()),
            _ => None,
        };
        let locally_signed = match &event {
            LoginEvent::LocalTokenSigned(token) => is_locally_signed(
                token.as_str(),
                self.signing_secret.as_str(),
            ),
            _ => false,
        };
        let fresh_subject = fresh_uuid();
        let inputs = StepInputs { parsed_subject, fresh_subject, locally_signed };
        assert(inputs == inputs_for(*self, event, fresh_subject));
        self.advance(credentials, state, event, inputs)
    }
}

} // verus!
