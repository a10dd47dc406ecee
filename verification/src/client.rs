//! The identity provider's client, without the wire: it says what to send
//! to each endpoint, settles what came back, and validates tokens against
//! the realm it is configured for.

use crate::error::AuthError;
use crate::framing::{check_rs256, rs256_accepts};
use crate::jose::{decode_header, jose_header};
use crate::keys::{
    kid_absent,
    lemma_selection_by_kid,
    opt_str,
    selected_key,
    MissingKidPolicy,
};
use crate::model::{
    opt_text,
    KeycloakCerts,
    KeycloakJwtHeader,
    KeycloakJwtPayload,
    KeycloakKey,
    KeycloakTokenResponse,
    KeycloakUserInfo,
    UnverifiedClaims,
};
use crate::text::join;
use crate::validate::{
    algorithm_allowed,
    allowed_algorithm,
    decide_token,
    expired,
    token_verdict,
    CLOCK_SKEW_SECONDS,
};
use vstd::prelude::*;

verus! {

/// How a request is sent.
#[derive(Clone, Copy, Debug, PartialEq, Eq, Structural)]
pub enum HttpMethod {
    /// `GET`, without a body.
    Get,
    /// `POST`, with the form fields url-encoded as the body.
    PostForm,
}

/// One request to the identity provider, ready to be sent.
#[derive(Clone, Debug, PartialEq, Eq)]
pub struct IdpRequest {
    pub method: HttpMethod,
    pub url: String,
    /// The form fields, in the order in which they are to be written.
    pub form: Vec<(String, String)>,
    /// The bearer credential of the `Authorization` header, if any.
    pub bearer: Option<String>,
    /// How long to wait for the answer before giving up, in seconds.
    pub timeout_seconds: u64,
}

/// What came of sending a request whose answer is a `T`.
#[derive(Clone, Debug, PartialEq, Eq)]
pub enum IdpReply<T> {
    /// No answer: the network failed or the time ran out.
    Unreachable { detail: String },
    /// An answer with its status and body, and the body as a `T` where it
    /// could be read as one.
    Answered { status: u16, body: String, parsed: Option<T> },
}

/// A failed conversation with the identity provider.
#[derive(Clone, Debug, PartialEq, Eq)]
pub struct IdpFailure {
    pub kind: AuthError,
    /// Text for the log: the provider's error body, or what went wrong.
    pub detail: String,
}

/// A failure as plain values.
pub struct FailureView {
    pub kind: AuthError,
    pub detail: Seq<char>,
}

impl View for IdpFailure {
    type V = FailureView;

    open spec fn view(&self) -> FailureView {
        FailureView { kind: self.kind, detail: self.detail@ }
    }
}

/// A client's configuration as plain values.
pub struct ClientView {
    pub base_url: Seq<char>,
    pub realm: Seq<char>,
    pub client_id: Seq<char>,
    pub client_secret: Option<Seq<char>>,
}

/// The connection configuration of one realm of the identity provider.
#[derive(Clone, Debug, PartialEq, Eq)]
pub struct KeycloakClient {
    base_url: String,
    realm: String,
    client_id: String,
    client_secret: Option<String>,
}

impl View for KeycloakClient {
    type V = ClientView;

    closed spec fn view(&self) -> ClientView {
        ClientView {
            base_url: self.base_url@,
            realm: self.realm@,
            client_id: self.client_id@,
            client_secret: opt_text(self.client_secret),
        }
    }
}

/// How long any call to the identity provider may take, in seconds.
pub const IDP_TIMEOUT_SECONDS: u64 = 5;

/// The status is one of success.
pub open spec fn is_success(status: u16) -> bool {
    200 <= status < 300
}

/// The issuer of a realm's tokens.
pub open spec fn realm_url(base_url: Seq<char>, realm: Seq<char>) -> Seq<char> {
    base_url + "/realms/"@ + realm
}

/// The address of a realm's OpenID Connect endpoint `leaf`.
pub open spec fn endpoint_url(base_url: Seq<char>, realm: Seq<char>, leaf: Seq<char>) -> Seq<char> {
    realm_url(base_url, realm) + "/protocol/openid-connect/"@ + leaf
}

/// The fields of a form as plain values.
pub open spec fn form_text(form: Seq<(String, String)>) -> Seq<(Seq<char>, Seq<char>)> {
    Seq::new(form.len(), |i: int| (form[i].0@, form[i].1@))
}

/// The form of a password-grant token request.
pub open spec fn token_form(
    client_id: Seq<char>,
    client_secret: Option<Seq<char>>,
    username: Seq<char>,
    password: Seq<char>,
) -> Seq<(Seq<char>, Seq<char>)> {
    let fixed = seq![
        ("grant_type"@, "password"@),
        ("client_id"@, client_id),
        ("username"@, username),
        ("password"@, password),
    ];
    match client_secret {
        Some(secret) => fixed.push(("client_secret"@, secret)),
        None => fixed,
    }
}

/// What an answer settles to: the parsed body of a successful answer;
/// `UpstreamRejected` with the provider's body after `prefix` for any other
/// status; `TransportError` where there was no answer or its body could not
/// be read.
pub open spec fn settled<T>(reply: IdpReply<T>, prefix: Seq<char>) -> Result<T, FailureView> {
    match reply {
        IdpReply::Unreachable { detail } => Err(
            FailureView { kind: AuthError::TransportError, detail: detail@ },
        ),
        IdpReply::Answered { status, body, parsed } => if !is_success(status) {
            Err(FailureView { kind: AuthError::UpstreamRejected, detail: prefix + body@ })
        } else {
            match parsed {
                Some(value) => Ok(value),
                None => Err(FailureView { kind: AuthError::TransportError, detail: body@ }),
            }
        },
    }
}

/// A result with its failure as plain values.
pub open spec fn failure_view<T>(r: Result<T, IdpFailure>) -> Result<T, FailureView> {
    match r {
        Ok(value) => Ok(value),
        Err(failure) => Err(failure@),
    }
}

/// Whether `status` is one of success.
pub fn status_is_success(status: u16) -> (r: bool)
    ensures
        r == is_success(status),
{
    200 <= status && status < 300
}

/// Settles an answer; `prefix` opens the detail of a rejection.
pub fn settle<T>(reply: IdpReply<T>, prefix: &str) -> (r: Result<T, IdpFailure>)
    ensures
        failure_view(r) == settled(reply, prefix@),
{
    match reply {
        IdpReply::Unreachable { detail } => Err(
            IdpFailure { kind: AuthError::TransportError, detail },
        ),
        IdpReply::Answered { status, body, parsed } => {
            if !status_is_success(status) {
                let detail = join(prefix, body.as_str());
                Err(IdpFailure { kind: AuthError::UpstreamRejected, detail })
            } else {
                match parsed {
                    Some(value) => Ok(value),
                    None => Err(IdpFailure { kind: AuthError::TransportError, detail: body }),
                }
            }
        },
    }
}

/// What validating `token` against the key `(modulus, exponent)` comes to
/// for a client: the issuer is the realm's address, the audience is the
/// client's id.
pub open spec fn validation_of(
    client: ClientView,
    token: Seq<char>,
    modulus: Seq<char>,
    exponent: Seq<char>,
    claims: Option<UnverifiedClaims>,
    now: u64,
) -> Result<KeycloakJwtPayload, AuthError> {
    token_verdict(
        jose_header(token),
        rs256_accepts(token, modulus, exponent),
        claims,
        now,
        CLOCK_SKEW_SECONDS,
        realm_url(client.base_url, client.realm),
        client.client_id,
    )
}

/// What authenticating `token` against a key set comes to: the header is
/// read, the key it names is selected, and the token is validated against
/// that key.
pub open spec fn authentication_of(
    client: ClientView,
    token: Seq<char>,
    keys: Seq<KeycloakKey>,
    policy: MissingKidPolicy,
    claims: Option<UnverifiedClaims>,
    now: u64,
) -> Result<KeycloakJwtPayload, AuthError> {
    match jose_header(token) {
        None => Err(AuthError::MalformedToken),
        Some(header) => match selected_key(keys, header.kid, policy) {
            None => Err(AuthError::KeyNotFound),
            Some(i) => validation_of(client, token, keys[i].n@, keys[i].e@, claims, now),
        },
    }
}

/// A token whose header names a key that the key set does not hold is
/// refused as `KeyNotFound`.
pub proof fn lemma_unknown_key_is_refused(
    client: ClientView,
    token: Seq<char>,
    keys: Seq<KeycloakKey>,
    policy: MissingKidPolicy,
    claims: Option<UnverifiedClaims>,
    now: u64,
)
    requires
        jose_header(token) matches Some(header) && header.kid matches Some(kid) && kid_absent(
            keys,
            kid,
        ),
    ensures
        authentication_of(client, token, keys, policy, claims, now) == Err::<
            KeycloakJwtPayload,
            AuthError,
        >(AuthError::KeyNotFound),
{
    lemma_selection_by_kid(keys, jose_header(token)->0.kid->0);
}

/// No false accept: a token is accepted only if its header declares the
/// accepted algorithm and its signature verifies under a key of the set,
/// which is the key that the header names where it names one.
pub proof fn lemma_accepted_token_is_signed_by_selected_key(
    client: ClientView,
    token: Seq<char>,
    keys: Seq<KeycloakKey>,
    policy: MissingKidPolicy,
    claims: Option<UnverifiedClaims>,
    now: u64,
)
    requires
        authentication_of(client, token, keys, policy, claims, now) is Ok,
    ensures
        jose_header(token) matches Some(header) && header.alg == allowed_algorithm() && exists|
            i: int,
        |
            {
                &&& 0 <= i < keys.len()
                &&& #[trigger] rs256_accepts(token, keys[i].n@, keys[i].e@)
                &&& header.kid matches Some(kid) ==> keys[i].kid@ == kid
            },
{
    let header = jose_header(token)->0;
    let i = selected_key(keys, header.kid, policy)->0;
    if header.kid is Some {
        lemma_selection_by_kid(keys, header.kid->0);
    }
    assert(0 <= i < keys.len());
    assert(rs256_accepts(token, keys[i].n@, keys[i].e@));
}

/// A token whose `exp` is past is never accepted, whatever key set it is
/// held against.
pub proof fn lemma_expired_token_is_refused(
    client: ClientView,
    token: Seq<char>,
    keys: Seq<KeycloakKey>,
    policy: MissingKidPolicy,
    c: UnverifiedClaims,
    now: u64,
)
    requires
        c.exp matches Some(exp) && expired(exp, now, CLOCK_SKEW_SECONDS),
    ensures
        authentication_of(client, token, keys, policy, Some(c), now) is Err,
{
}

/// Authenticating the same token against the same key set at two times at
/// which it is accepted yields the same claims.
pub proof fn lemma_authentication_is_repeatable(
    client: ClientView,
    token: Seq<char>,
    keys: Seq<KeycloakKey>,
    policy: MissingKidPolicy,
    claims: Option<UnverifiedClaims>,
    first: u64,
    second: u64,
)
    requires
        authentication_of(client, token, keys, policy, claims, first) is Ok,
        authentication_of(client, token, keys, policy, claims, second) is Ok,
    ensures
        authentication_of(client, token, keys, policy, claims, first) == authentication_of(
            client,
            token,
            keys,
            policy,
            claims,
            second,
        ),
{
}

impl KeycloakClient {
    /// A client for the realm `realm` of the provider at `base_url`, acting
    /// as `client_id`.
    pub fn new(
        base_url: String,
        realm: String,
        client_id: String,
        client_secret: Option<String>,
    ) -> (r: Self)
        ensures
            r@ == (ClientView {
                base_url: base_url@,
                realm: realm@,
                client_id: client_id@,
                client_secret: opt_text(client_secret),
            }),
    {
        KeycloakClient { base_url, realm, client_id, client_secret }
    }

    /// The issuer that the realm's tokens must name.
    pub fn issuer(&self) -> (r: String)
        ensures
            r@ == realm_url(self@.base_url, self@.realm),
    {
        let mut url = join(self.base_url.as_str(), "/realms/");
        url.append(self.realm.as_str());
        url
    }

    /// The audience that the realm's tokens must name.
    pub fn audience(&self) -> (r: &str)
        ensures
            r@ == self@.client_id,
    {
        self.client_id.as_str()
    }

    /// The address of the realm's endpoint `leaf`.
    fn endpoint(&self, leaf: &str) -> (r: String)
        ensures
            r@ == endpoint_url(self@.base_url, self@.realm, leaf@),
    {
        let mut url = self.issuer();
        url.append("/protocol/openid-connect/");
        url.append(leaf);
        url
    }

    /// The request that exchanges a user's credentials for a token: a
    /// password grant, posted as a form to the token endpoint.
    pub fn token_request(&self, username: &str, password: &str) -> (r: IdpRequest)
        ensures
            r.method == HttpMethod::PostForm,
            r.url@ == endpoint_url(self@.base_url, self@.realm, "token"@),
            form_text(r.form@) == token_form(
                self@.client_id,
                self@.client_secret,
                username@,
                password@,
            ),
            r.bearer is None,
            r.timeout_seconds == IDP_TIMEOUT_SECONDS,
    {
        let mut form: Vec<(String, String)> = Vec::new();
        form.push((String::from_str("grant_type"), String::from_str("password")));
        form.push((String::from_str("client_id"), self.client_id.clone()));
        form.push((String::from_str("username"), String::from_str(username)));
        form.push((String::from_str("password"), String::from_str(password)));
        match &self.client_secret {
            Some(secret) => {
                form.push((String::from_str("client_secret"), secret.clone()));
            },
            None => {},
        }
        assert(form_text(form@) =~= token_form(
            self@.client_id,
            self@.client_secret,
            username@,
            password@,
        ));
        IdpRequest {
            method: HttpMethod::PostForm,
            url: self.endpoint("token"),
            form,
            bearer: None,
            timeout_seconds: IDP_TIMEOUT_SECONDS,
        }
    }

    /// The request that looks up the user of `access_token`.
    pub fn user_info_request(&self, access_token: &str) -> (r: IdpRequest)
        ensures
            r.method == HttpMethod::Get,
            r.url@ == endpoint_url(self@.base_url, self@.realm, "userinfo"@),
            r.form@.len() == 0,
            opt_text(r.bearer) == Some(access_token@),
            r.timeout_seconds == IDP_TIMEOUT_SECONDS,
    {
        IdpRequest {
            method: HttpMethod::Get,
            url: self.endpoint("userinfo"),
            form: Vec::new(),
            bearer: Some(String::from_str(access_token)),
            timeout_seconds: IDP_TIMEOUT_SECONDS,
        }
    }

    /// The request that fetches the realm's signing keys.
    pub fn certs_request(&self) -> (r: IdpRequest)
        ensures
            r.method == HttpMethod::Get,
            r.url@ == endpoint_url(self@.base_url, self@.realm, "certs"@),
            r.form@.len() == 0,
            r.bearer is None,
            r.timeout_seconds == IDP_TIMEOUT_SECONDS,
    {
        IdpRequest {
            method: HttpMethod::Get,
            url: self.endpoint("certs"),
            form: Vec::new(),
            bearer: None,
            timeout_seconds: IDP_TIMEOUT_SECONDS,
        }
    }

    /// Settles the answer to a token request.
    pub fn get_token(&self, reply: IdpReply<KeycloakTokenResponse>) -> (r: Result<
        KeycloakTokenResponse,
        IdpFailure,
    >)
        ensures
            failure_view(r) == settled(reply, "Keycloak token request failed: "@),
    {
        settle(reply, "Keycloak token request failed: ")
    }

    /// Settles the answer to a user-info request.
    pub fn get_user_info(&self, reply: IdpReply<KeycloakUserInfo>) -> (r: Result<
        KeycloakUserInfo,
        IdpFailure,
    >)
        ensures
            failure_view(r) == settled(reply, "Keycloak userinfo request failed: "@),
    {
        settle(reply, "Keycloak userinfo request failed: ")
    }

    /// Settles the answer to a request for the signing keys.
    pub fn get_signing_keys(&self, reply: IdpReply<KeycloakCerts>) -> (r: Result<
        KeycloakCerts,
        IdpFailure,
    >)
        ensures
            failure_view(r) == settled(reply, "Keycloak certs request failed: "@),
    {
        settle(reply, "Keycloak certs request failed: ")
    }

    /// Settles the answer to a request for the signing keys and selects the
    /// key for a token whose header names `kid`.
    ///
    /// Fails as [`get_signing_keys`](Self::get_signing_keys) does, and with
    /// `KeyNotFound` where the key set answers but no key can be selected.
    pub fn get_public_key(
        &self,
        reply: IdpReply<KeycloakCerts>,
        kid: Option<&str>,
        policy: MissingKidPolicy,
    ) -> (r: Result<KeycloakKey, IdpFailure>)
        ensures
            match settled(reply, "Keycloak certs request failed: "@) {
                Err(failure) => failure_view(r) == Err::<KeycloakKey, FailureView>(failure),
                Ok(certs) => match selected_key(certs.keys@, opt_str(kid), policy) {
                    Some(i) => r == Ok::<KeycloakKey, IdpFailure>(certs.keys@[i]),
                    None => failure_view(r) == Err::<KeycloakKey, FailureView>(
                        FailureView {
                            kind: AuthError::KeyNotFound,
                            detail: "No public keys found"@,
                        },
                    ),
                },
            },
    {
        match self.get_signing_keys(reply) {
            Err(failure) => Err(failure),
            Ok(certs) => match certs.select_key(kid, policy) {
                Ok(key) => Ok(key.clone()),
                Err(_) => Err(
                    IdpFailure {
                        kind: AuthError::KeyNotFound,
                        detail: String::from_str("No public keys found"),
                    },
                ),
            },
        }
    }

    /// Validates `token` against `key`, whose header `header` has been read
    /// already.
    fn validate_parsed(
        &self,
        header: &KeycloakJwtHeader,
        token: &str,
        key: &KeycloakKey,
        claims: Option<UnverifiedClaims>,
        now: u64,
    ) -> (r: Result<KeycloakJwtPayload, AuthError>)
        requires
            jose_header(token@) == Some(header@),
        ensures
            r == validation_of(self@, token@, key.n@, key.e@, claims, now),
    {
        if !algorithm_allowed(header) {
            return Err(AuthError::AlgorithmNotAllowed);
        }
        let signature_ok = check_rs256(token, key.n.as_str(), key.e.as_str());
        let issuer = self.issuer();
        decide_token(
            Some(header),
            signature_ok,
            claims,
            now,
            CLOCK_SKEW_SECONDS,
            issuer.as_str(),
            self.audience(),
        )
    }

    /// Validates `token` against `key` at the time `now` (seconds since the
    /// epoch). `claims` is the token's payload as it was read, `None` where
    /// it could not be read.
    ///
    /// The checks run in order and stop at the first that fails: the header
    /// parses (`MalformedToken`), it declares RS256 (`AlgorithmNotAllowed`),
    /// the signature verifies under `key` (`InvalidSignature`), the payload
    /// was read (`MalformedToken`), `exp` is present and not past
    /// (`Expired`), `iat` is present and not ahead (`NotYetValid`), `iss` is
    /// the realm's address (`IssuerMismatch`), `aud` is the client's id
    /// (`AudienceMismatch`), and `sub` is present (`MalformedToken`). On
    /// success the claims are handed on unchanged.
    pub fn validate_token(
        &self,
        token: &str,
        key: &KeycloakKey,
        claims: Option<UnverifiedClaims>,
        now: u64,
    ) -> (r: Result<KeycloakJwtPayload, AuthError>)
        ensures
            r == validation_of(self@, token@, key.n@, key.e@, claims, now),
    {
        match decode_header(token) {
            None => Err(AuthError::MalformedToken),
            Some(header) => self.validate_parsed(&header, token, key, claims, now),
        }
    }

    /// Authenticates `token` against the key set `certs`: reads the header,
    /// selects the key it names (`KeyNotFound` where none can be selected),
    /// and validates the token against that key as
    /// [`validate_token`](Self::validate_token) does.
    pub fn authenticate(
        &self,
        token: &str,
        certs: &KeycloakCerts,
        policy: MissingKidPolicy,
        claims: Option<UnverifiedClaims>,
        now: u64,
    ) -> (r: Result<KeycloakJwtPayload, AuthError>)
        ensures
            r == authentication_of(self@, token@, certs.keys@, policy, claims, now),
    {
        match decode_header(token) {
            None => Err(AuthError::MalformedToken),
            Some(header) => {
                let kid = match &header.kid {
                    Some(kid) => Some(kid.as_str()),
                    None => None,
                };
                match certs.select_key(kid, policy) {
                    Err(_) => Err(AuthError::KeyNotFound),
                    Ok(key) => self.validate_parsed(&header, token, key, claims, now),
                }
            },
        }
    }
}

} // verus!
