use keycloak_auth::cache::{CacheAdvice, JwksCache};
use keycloak_auth::client::{IdpReply, KeycloakClient};
use keycloak_auth::error::AuthError;
use keycloak_auth::framing::{check_rs256, split_signature};
use keycloak_auth::gate::{RequestGate, Screening, UNAUTHENTICATED_STATUS};
use keycloak_auth::keys::MissingKidPolicy;
use keycloak_auth::model::{
    AuthDecision, KeycloakCerts, KeycloakJwtHeader, KeycloakJwtPayload, KeycloakKey, RealmAccess,
    ResourceAccess, UnverifiedClaims,
};
use keycloak_auth::validate::{
    algorithm_allowed, assemble, check_claims, decide_token, is_expired, is_not_yet_valid,
    CLOCK_SKEW_SECONDS,
};
use std::collections::HashMap;

// Two RSA keys (2048 bits) as base64url components.
const KEY_1_MODULUS: &str = "\
    tC7siA-h3qHRaU8Ywl49mNnXEE_9aS6oI9moFo9TzUGXxmQs7RjoBbF8psEyIwpvyYI5E3wXPgqYuoBD\
    qGVwovbzvgBZsautuZJ5PkyJcSQEoP-m0ODWGLOgdtobGCAqpXnSteEOt33rW5fvft82V_26DM5C537g\
    0_S3UUUTA5EmDwBvjSNsBJ-tRviVNat-9OKoAD3B-1e2ZBSyZmZX2YGat1HxpfJZREiS6qjyJk0T8PnI\
    79olfZHh0iAYcUpL4Yz0AoCUIvSmdjA2vhDuCYwXsCGkAR7NjLzMeWZdMkr5oRmPiu7lwxFmOckRbsBA\
    0R1oJ1YnMnhv12HC292lgQ";
const KEY_1_EXPONENT: &str = "AQAB";
const KEY_2_MODULUS: &str = "\
    yb3I39cU_s-8n62sZoW-VvjAAwV5Bynz-fe7XVdxWCbxAmTPVTOK6Giz-wql3MTKzEmPafgK0ZgoDxed\
    NlOJM8tDWLom9dcxXoBvv_xey9C9ZYC-JF5pvDBzmJE05o1PKS7EViuf2hMDNOpjjKy4jRSS4ZLb2BaZ\
    3I9LCpKoaW5CMJI_S4SljsEcBYq-FsDrzMQ6EKe_vGRGUUtpT3hMD-NjyN4GRkm5krQc1P4yGIvcmkNG\
    yW9r1m-E0kWA2NU970PaJdEXAzDLaIC3mFm1ugf4wZg93is13Yb7Gne26z4FN3gYQSvETyAVlCdMQwWK\
    FBz-VjoBfgg3mIQBVOxjtw";
const KEY_2_EXPONENT: &str = "AQAB";

// Header segments: {"alg":"RS256","typ":"JWT","kid":"key-1"} and its variations.
const HEADER_RS256_KEY_1: &str = "eyJhbGciOiJSUzI1NiIsInR5cCI6IkpXVCIsImtpZCI6ImtleS0xIn0";
const HEADER_RS256_NO_KID: &str = "eyJhbGciOiJSUzI1NiIsInR5cCI6IkpXVCJ9";
const HEADER_RS256_KEY_2: &str = "eyJhbGciOiJSUzI1NiIsInR5cCI6IkpXVCIsImtpZCI6ImtleS0yIn0";
const HEADER_HS256_KEY_1: &str = "eyJhbGciOiJIUzI1NiIsInR5cCI6IkpXVCIsImtpZCI6ImtleS0xIn0";
const HEADER_NONE: &str = "eyJhbGciOiJub25lIiwidHlwIjoiSldUIn0";
const HEADER_RS384_KEY_1: &str = "eyJhbGciOiJSUzM4NCIsInR5cCI6IkpXVCIsImtpZCI6ImtleS0xIn0";

// Payload segments: the claims of `claims(2_000_000_000)` and of `claims(1_700_000_100)`.
const PAYLOAD_CURRENT: &str = "\
    eyJzdWIiOiI3ZjFjMmE5ZS0zYjRkLTRjNWUtOGY2MC0xMTIyMzM0NDU1NjYiLCJpc3MiOiJodHRwOi8v\
    a2V5Y2xvYWsubG9jYWw6ODA4MC9yZWFsbXMvY2xvdWQtZ2F1bnRsZXQiLCJhdWQiOiJydXN0LWFwaSIs\
    ImV4cCI6MjAwMDAwMDAwMCwiaWF0IjoxNzAwMDAwMDAwLCJhdXRoX3RpbWUiOjE3MDAwMDAwMDAsInNl\
    c3Npb25fc3RhdGUiOiJzZXNzLTEiLCJhY3IiOiIxIiwicmVhbG1fYWNjZXNzIjp7InJvbGVzIjpbInVz\
    ZXIiLCJhZG1pbiJdfSwic2NvcGUiOiJvcGVuaWQgcHJvZmlsZSBlbWFpbCIsInNpZCI6InNpZC0xIiwi\
    ZW1haWxfdmVyaWZpZWQiOnRydWUsInByZWZlcnJlZF91c2VybmFtZSI6ImFsaWNlIiwiZW1haWwiOiJh\
    bGljZUBleGFtcGxlLmNvbSJ9";
const PAYLOAD_EXPIRED: &str = "\
    eyJzdWIiOiI3ZjFjMmE5ZS0zYjRkLTRjNWUtOGY2MC0xMTIyMzM0NDU1NjYiLCJpc3MiOiJodHRwOi8v\
    a2V5Y2xvYWsubG9jYWw6ODA4MC9yZWFsbXMvY2xvdWQtZ2F1bnRsZXQiLCJhdWQiOiJydXN0LWFwaSIs\
    ImV4cCI6MTcwMDAwMDEwMCwiaWF0IjoxNzAwMDAwMDAwLCJhdXRoX3RpbWUiOjE3MDAwMDAwMDAsInNl\
    c3Npb25fc3RhdGUiOiJzZXNzLTEiLCJhY3IiOiIxIiwicmVhbG1fYWNjZXNzIjp7InJvbGVzIjpbInVz\
    ZXIiLCJhZG1pbiJdfSwic2NvcGUiOiJvcGVuaWQgcHJvZmlsZSBlbWFpbCIsInNpZCI6InNpZC0xIiwi\
    ZW1haWxfdmVyaWZpZWQiOnRydWUsInByZWZlcnJlZF91c2VybmFtZSI6ImFsaWNlIiwiZW1haWwiOiJh\
    bGljZUBleGFtcGxlLmNvbSJ9";

// RS256 signatures. Each is named by the key, the header and the payload it was made for.
const SIGNATURE_KEY_1_OVER_KEY_1_CURRENT: &str = "\
    qo2Z19vP-D5B1c0tuzEhSn1QEDIBOyPUETin72NfGKxeaTe2Mp6jAIDijiRFeWNEiAOpBRAqw27WspDZ\
    2caPK1IEUDTR-syMBDU0ka8k_oQdtJBzTsqKqZjWeQcWrIXub-ZC-96u695KpOgNhtA82v1tr52nwJma\
    uJBLpSoatTpnM3o-5roHC-ar5Uz6b2PkGVL2Kzs0ISwGsQIM-A-Q8pVXF4Aw5XDl7bdBsQC663GCUGIi\
    RJNd5-iMCfU4NYXTWGqOFLkzoKQtfDSGK5x8I3fEetJNd4Y3V84Yt4GrwZC6oMMgirEJMY8gkhJszzb0\
    0k-Rrk8JIqlduO9_gqTDzQ";
const SIGNATURE_KEY_1_OVER_NO_KID_CURRENT: &str = "\
    mBzbUZuZBQAMqTPRkSR-dDijxQRHJjm5lWL_D0C4q6zoTsXYaZe_IWPXUSHVzD5e5RyLn8MSf7qvIajO\
    60aLbloqtFFx_pqqQaXPFD8iPwm5kzUeR9L1TuYveViSkBSz0N9rtdUKqZcPyVjm2_nkb0J07_f1Ugw4\
    Bb7O18rE4WJao4IhKDlraibsJ_Tc154ZV3JqpF-czzi8Qe-1g-_ZYd3e725j3EXCVeSnGlbYBM5Y1bAk\
    XCNnJNGc91ZDad0q2g2TLtfOUmb3buAEf5bMLzEJnyobfvUrLf7udrBh-pWtFJHVABljryWuo99P8nYm\
    af7lYW24EL9UtpVsp3bJcg";
const SIGNATURE_KEY_1_OVER_KEY_1_EXPIRED: &str = "\
    KDdX1NyK-_FGJy6f-mBGPa7cfHG3duTdF1Gsn1f1R0fNyZ-qksGWGA9cI3QkDnkYWBCq9pZcvGkmxgPN\
    YSiGFGlFWdU2KioA2i-kynNjFuOg6TUn-l56ygsXS8q295G8TUM_XGUiHG9MReNAXQLy0SB6BvZFhUO_\
    pXijDbXMVQJIrcgKTPtkxYoMBogNoRSgPjjH4N59Vid3WY4EsAFgh1JAQZ-SIK_f1-bl5XMB6ZqpXfz4\
    gpLB29FUlLLp9_uHgswZeGMWAB_YrEGwkFbK3vKD_UGNXlx9ZPoAm965qN3hkmrCjEeXkiw2uO5F_hJz\
    OT5-szmt-Ly41cIUE6TkSA";
const SIGNATURE_KEY_2_OVER_KEY_1_CURRENT: &str = "\
    lJq49UeTTZ3a5YmInKJPUG4WTYjwdSITDO8vQUcc6nNv1cxqhPeDetHg59oIkwWjNGbPz9s_6EcukObe\
    a3dYqFUwkBb3s-6SMGnE0fSxafiA-EHxub-VrkVKAzPi8jsJYFQaQbeHBcnAWTnbpyt726S6N-o3QsR6\
    48_CVP8s6pvUMmpvV8U84u1hJN9hPeqXg6vngSzO_Y3aumkEPZSFwKRE6VR16V2aPZ6xSDxZSh9XbbuX\
    Qp5ObxKuEReLIHHytC748hZFiV0GyE-SLLItA7za4Y_xCvh1E4NNPH7peyTVo8xdRgzo7Z7kHYjgNiXh\
    7Oeu57U8_vGc51sp-odFrg";
const SIGNATURE_KEY_2_OVER_KEY_2_CURRENT: &str = "\
    GRgcdwvNGKdpcKtjT7I7nn133G0P13Sex8pI4rDYPe6BDdTvsO0AIE01RSqdmbzXEvCNKYAAVDSW1NVT\
    HoLw_jdbKa95ck40oSgv1paicHomxvJw6itQ1K_50tVZrPrV5VY5GHJrYz_hXAlzQskm1a9YpQFfpZOB\
    p2_MxJYzCqL1k6QgODZyiLb_BBdNT-HXx665zLfPyc0OJckk8L2TsxSp3vi36q4ZdVj_iGqp0P15QsH5\
    t0J5EtvSel6Sjho4zYU5hwK2JJsN3ylhHJaSuJ0ugPHzlfky8SH0KANcXEOa2-CySriZhp0_9dgt2NWh\
    oqjBgFXFEc3x_3uvQ2Hqmg";
const SIGNATURE_KEY_1_OVER_HS256_CURRENT: &str = "\
    psLws3VWg2Z9ER6ODBHHyRxI1jebuDOlkqb5pjRf8kWSTNT9lrw1OScMRuyWfC_WrVxAN83oXDDkyYjY\
    akpcy8rukOHTOktJBc-BBjaAe-SVVxf5OrLN5yDfkHYQ7uiZBLsRZ5cEzZszcdc7oWnE8PfOP617omiJ\
    bWTOuE07WY-v22_EHNKA4dsN_9X8ED15DD4WAQbp-L9IjQDRqzmWHtsZaLKpOVDLp3q8QJAsGh9mebnn\
    TfOYB9nxXUH46tR6OH1C6xWfMd3S66i441lgmTG8iqQXi0J_N9l631aeI2tkDv2brjOvfcYndYT4k0Cf\
    SsfNzdu-7TheT__vwQ9cLg";
const SIGNATURE_KEY_1_OVER_RS384_CURRENT: &str = "\
    nbD8dqyPh8_doxJF7ny__Ejqh1jlkCBC8mwLgYObPC9uaIz5WulqUHOqi8u5YxBUD4MhsT8zC1Er49oJ\
    dDnl5OvyFg-ziCsGnwvjkciNEJMn14psGgsckl-vowJF3Jz1XjwX43fqvcL7GAqJgQWQAiD1N1d3unb8\
    Zj1Ne2sbbLB5sw20o9axdzYqBgNvtT7Ji084xqJbCHJVUJ-QV3jd8xX9Mw5OUcQxI30QUdUpuYEA7240\
    Y84ZlMwbKhjle4JuPyssJv95LSiiDNV5rVErKKO9GXQoWs3otm37S6jV9fW1bc-eN_wE9yzK-8SWLu_W\
    2vfgE5gia-9IUE9QyXi_YQ";

const ISSUER: &str = "http://keycloak.local:8080/realms/cloud-gauntlet";
const AFTER_ISSUE: u64 = 1_800_000_000;

fn token(header: &str, payload: &str, signature: &str) -> String {
    format!("{}.{}.{}", header, payload, signature)
}

fn client() -> KeycloakClient {
    KeycloakClient::new(
        "http://keycloak.local:8080".to_string(),
        "cloud-gauntlet".to_string(),
        "rust-api".to_string(),
        None,
    )
}

fn key(kid: &str, modulus: &str, exponent: &str) -> KeycloakKey {
    KeycloakKey {
        kid: kid.to_string(),
        kty: "RSA".to_string(),
        alg: "RS256".to_string(),
        key_use: "sig".to_string(),
        n: modulus.to_string(),
        e: exponent.to_string(),
    }
}

fn key_1() -> KeycloakKey {
    key("key-1", KEY_1_MODULUS, KEY_1_EXPONENT)
}

fn key_2() -> KeycloakKey {
    key("key-2", KEY_2_MODULUS, KEY_2_EXPONENT)
}

fn claims(exp: u64) -> UnverifiedClaims {
    UnverifiedClaims {
        sub: Some("7f1c2a9e-3b4d-4c5e-8f60-112233445566".to_string()),
        iss: Some(ISSUER.to_string()),
        aud: Some("rust-api".to_string()),
        exp: Some(exp),
        iat: Some(1_700_000_000),
        auth_time: Some(1_700_000_000),
        session_state: Some("sess-1".to_string()),
        acr: Some("1".to_string()),
        realm_access: Some(RealmAccess { roles: vec!["user".to_string(), "admin".to_string()] }),
        resource_access: None,
        scope: Some("openid profile email".to_string()),
        sid: Some("sid-1".to_string()),
        email_verified: Some(true),
        name: None,
        preferred_username: Some("alice".to_string()),
        given_name: None,
        family_name: None,
        email: Some("alice@example.com".to_string()),
    }
}

fn accepted_claims(exp: u64) -> KeycloakJwtPayload {
    KeycloakJwtPayload {
        sub: "7f1c2a9e-3b4d-4c5e-8f60-112233445566".to_string(),
        iss: ISSUER.to_string(),
        aud: "rust-api".to_string(),
        exp,
        iat: 1_700_000_000,
        auth_time: Some(1_700_000_000),
        session_state: Some("sess-1".to_string()),
        acr: Some("1".to_string()),
        realm_access: Some(RealmAccess { roles: vec!["user".to_string(), "admin".to_string()] }),
        resource_access: None,
        scope: Some("openid profile email".to_string()),
        sid: Some("sid-1".to_string()),
        email_verified: Some(true),
        name: None,
        preferred_username: Some("alice".to_string()),
        given_name: None,
        family_name: None,
        email: Some("alice@example.com".to_string()),
    }
}

fn current_token() -> String {
    token(HEADER_RS256_KEY_1, PAYLOAD_CURRENT, SIGNATURE_KEY_1_OVER_KEY_1_CURRENT)
}

fn expired_token() -> String {
    token(HEADER_RS256_KEY_1, PAYLOAD_EXPIRED, SIGNATURE_KEY_1_OVER_KEY_1_EXPIRED)
}

fn header(alg: &str, kid: Option<&str>) -> KeycloakJwtHeader {
    KeycloakJwtHeader {
        alg: alg.to_string(),
        typ: Some("JWT".to_string()),
        kid: kid.map(|k| k.to_string()),
    }
}

#[test]
fn a_token_signed_by_the_key_is_accepted_with_its_claims() {
    let r = client().validate_token(
        &current_token(),
        &key_1(),
        Some(claims(2_000_000_000)),
        AFTER_ISSUE,
    );
    assert_eq!(r, Ok(accepted_claims(2_000_000_000)));
}

#[test]
fn validating_twice_yields_the_same_claims() {
    let c = client();
    let first = c.validate_token(&current_token(), &key_1(), Some(claims(2_000_000_000)), AFTER_ISSUE);
    let second =
        c.validate_token(&current_token(), &key_1(), Some(claims(2_000_000_000)), AFTER_ISSUE + 500);
    assert!(first.is_ok());
    assert_eq!(first, second);
}

#[test]
fn an_expired_token_with_a_good_signature_is_reported_as_expired() {
    let r = client().validate_token(
        &expired_token(),
        &key_1(),
        Some(claims(1_700_000_100)),
        AFTER_ISSUE,
    );
    assert_eq!(r, Err(AuthError::Expired));
}

#[test]
fn expiry_allows_for_sixty_seconds_of_skew() {
    let c = client();
    let at = |now: u64| c.validate_token(&expired_token(), &key_1(), Some(claims(1_700_000_100)), now);
    assert_eq!(at(1_700_000_099), Ok(accepted_claims(1_700_000_100)));
    assert_eq!(at(1_700_000_100), Ok(accepted_claims(1_700_000_100)));
    assert_eq!(at(1_700_000_159), Ok(accepted_claims(1_700_000_100)));
    assert_eq!(at(1_700_000_160), Err(AuthError::Expired));
    assert_eq!(at(u64::MAX), Err(AuthError::Expired));
}

#[test]
fn a_token_issued_in_the_future_is_not_yet_valid() {
    let c = client();
    let at = |now: u64| c.validate_token(&current_token(), &key_1(), Some(claims(2_000_000_000)), now);
    assert_eq!(at(1_699_999_939), Err(AuthError::NotYetValid));
    assert_eq!(at(1_699_999_940), Ok(accepted_claims(2_000_000_000)));
    assert_eq!(at(0), Err(AuthError::NotYetValid));
}

#[test]
fn a_signature_of_another_key_is_invalid() {
    let forged = token(HEADER_RS256_KEY_1, PAYLOAD_CURRENT, SIGNATURE_KEY_2_OVER_KEY_1_CURRENT);
    let r = client().validate_token(&forged, &key_1(), Some(claims(2_000_000_000)), AFTER_ISSUE);
    assert_eq!(r, Err(AuthError::InvalidSignature));
    let r = client().validate_token(&forged, &key_2(), Some(claims(2_000_000_000)), AFTER_ISSUE);
    assert_eq!(r, Ok(accepted_claims(2_000_000_000)));
}

#[test]
fn a_signature_over_another_payload_is_invalid() {
    let swapped = token(HEADER_RS256_KEY_1, PAYLOAD_CURRENT, SIGNATURE_KEY_1_OVER_KEY_1_EXPIRED);
    let r = client().validate_token(&swapped, &key_1(), Some(claims(2_000_000_000)), AFTER_ISSUE);
    assert_eq!(r, Err(AuthError::InvalidSignature));
}

#[test]
fn a_signature_that_is_not_base64_is_invalid() {
    let broken = token(HEADER_RS256_KEY_1, PAYLOAD_CURRENT, "not base64!");
    let r = client().validate_token(&broken, &key_1(), Some(claims(2_000_000_000)), AFTER_ISSUE);
    assert_eq!(r, Err(AuthError::InvalidSignature));
}

#[test]
fn a_key_that_is_not_base64_verifies_nothing() {
    let r = client().validate_token(
        &current_token(),
        &key("key-1", "***", KEY_1_EXPONENT),
        Some(claims(2_000_000_000)),
        AFTER_ISSUE,
    );
    assert_eq!(r, Err(AuthError::InvalidSignature));
}

#[test]
fn an_expired_token_with_a_bad_signature_is_reported_as_invalid_signature() {
    let forged = token(HEADER_RS256_KEY_1, PAYLOAD_EXPIRED, SIGNATURE_KEY_2_OVER_KEY_1_CURRENT);
    let r = client().validate_token(&forged, &key_1(), Some(claims(1_700_000_100)), AFTER_ISSUE);
    assert_eq!(r, Err(AuthError::InvalidSignature));
}

#[test]
fn another_declared_algorithm_is_refused() {
    let hs = token(HEADER_HS256_KEY_1, PAYLOAD_CURRENT, SIGNATURE_KEY_1_OVER_HS256_CURRENT);
    let r = client().validate_token(&hs, &key_1(), Some(claims(2_000_000_000)), AFTER_ISSUE);
    assert_eq!(r, Err(AuthError::AlgorithmNotAllowed));
    let rs384 = token(HEADER_RS384_KEY_1, PAYLOAD_CURRENT, SIGNATURE_KEY_1_OVER_RS384_CURRENT);
    let r = client().validate_token(&rs384, &key_1(), Some(claims(2_000_000_000)), AFTER_ISSUE);
    assert_eq!(r, Err(AuthError::AlgorithmNotAllowed));
}

#[test]
fn the_algorithm_none_is_refused() {
    let unsigned = token(HEADER_NONE, PAYLOAD_CURRENT, "");
    let r = client().validate_token(&unsigned, &key_1(), Some(claims(2_000_000_000)), AFTER_ISSUE);
    assert_eq!(r, Err(AuthError::MalformedToken));
}

#[test]
fn text_that_is_no_token_is_malformed() {
    let c = client();
    for text in ["", "abc", "a.b", "a.b.c", "..", "not a token at all"] {
        let r = c.validate_token(text, &key_1(), Some(claims(2_000_000_000)), AFTER_ISSUE);
        assert_eq!(r, Err(AuthError::MalformedToken), "{:?}", text);
    }
}

#[test]
fn a_payload_that_could_not_be_read_is_malformed() {
    let r = client().validate_token(&current_token(), &key_1(), None, AFTER_ISSUE);
    assert_eq!(r, Err(AuthError::MalformedToken));
}

#[test]
fn another_issuer_is_a_mismatch() {
    let other_realm = KeycloakClient::new(
        "http://keycloak.local:8080".to_string(),
        "another".to_string(),
        "rust-api".to_string(),
        None,
    );
    let r =
        other_realm.validate_token(&current_token(), &key_1(), Some(claims(2_000_000_000)), AFTER_ISSUE);
    assert_eq!(r, Err(AuthError::IssuerMismatch));
}

#[test]
fn another_audience_is_a_mismatch() {
    let other_client = KeycloakClient::new(
        "http://keycloak.local:8080".to_string(),
        "cloud-gauntlet".to_string(),
        "another-api".to_string(),
        None,
    );
    let r =
        other_client.validate_token(&current_token(), &key_1(), Some(claims(2_000_000_000)), AFTER_ISSUE);
    assert_eq!(r, Err(AuthError::AudienceMismatch));
}

#[test]
fn authenticate_selects_the_key_that_the_header_names() {
    let certs = KeycloakCerts { keys: vec![key_2(), key_1()] };
    let r = client().authenticate(
        &current_token(),
        &certs,
        MissingKidPolicy::Reject,
        Some(claims(2_000_000_000)),
        AFTER_ISSUE,
    );
    assert_eq!(r, Ok(accepted_claims(2_000_000_000)));
}

#[test]
fn a_token_of_a_key_that_the_set_lacks_is_refused_as_key_not_found() {
    let certs = KeycloakCerts { keys: vec![key_1()] };
    let foreign = token(HEADER_RS256_KEY_2, PAYLOAD_CURRENT, SIGNATURE_KEY_2_OVER_KEY_2_CURRENT);
    let r = client().authenticate(
        &foreign,
        &certs,
        MissingKidPolicy::SoleKey,
        Some(claims(2_000_000_000)),
        AFTER_ISSUE,
    );
    assert_eq!(r, Err(AuthError::KeyNotFound));
    let empty = KeycloakCerts { keys: vec![] };
    let r = client().authenticate(
        &current_token(),
        &empty,
        MissingKidPolicy::SoleKey,
        Some(claims(2_000_000_000)),
        AFTER_ISSUE,
    );
    assert_eq!(r, Err(AuthError::KeyNotFound));
}

#[test]
fn a_token_of_another_key_under_a_known_name_is_refused_as_invalid_signature() {
    let certs = KeycloakCerts { keys: vec![key_1()] };
    let forged = token(HEADER_RS256_KEY_1, PAYLOAD_CURRENT, SIGNATURE_KEY_2_OVER_KEY_1_CURRENT);
    let r = client().authenticate(
        &forged,
        &certs,
        MissingKidPolicy::SoleKey,
        Some(claims(2_000_000_000)),
        AFTER_ISSUE,
    );
    assert_eq!(r, Err(AuthError::InvalidSignature));
}

#[test]
fn a_token_without_a_key_name_goes_by_the_policy() {
    let unnamed = token(HEADER_RS256_NO_KID, PAYLOAD_CURRENT, SIGNATURE_KEY_1_OVER_NO_KID_CURRENT);
    let one = KeycloakCerts { keys: vec![key_1()] };
    let two = KeycloakCerts { keys: vec![key_1(), key_2()] };
    let c = client();
    let run = |certs: &KeycloakCerts, policy: MissingKidPolicy| {
        c.authenticate(&unnamed, certs, policy, Some(claims(2_000_000_000)), AFTER_ISSUE)
    };
    assert_eq!(run(&one, MissingKidPolicy::SoleKey), Ok(accepted_claims(2_000_000_000)));
    assert_eq!(run(&one, MissingKidPolicy::Reject), Err(AuthError::KeyNotFound));
    assert_eq!(run(&two, MissingKidPolicy::SoleKey), Err(AuthError::KeyNotFound));
    assert_eq!(run(&two, MissingKidPolicy::Reject), Err(AuthError::KeyNotFound));
}

#[test]
fn authenticate_refuses_text_that_is_no_token() {
    let certs = KeycloakCerts { keys: vec![key_1()] };
    let r = client().authenticate(
        "a.b.c",
        &certs,
        MissingKidPolicy::SoleKey,
        Some(claims(2_000_000_000)),
        AFTER_ISSUE,
    );
    assert_eq!(r, Err(AuthError::MalformedToken));
}

#[test]
fn the_checks_of_decide_token_run_in_order() {
    let rs256 = header("RS256", Some("key-1"));
    let hs256 = header("HS256", Some("key-1"));
    let run = |h: Option<&KeycloakJwtHeader>, signed: bool, c: Option<UnverifiedClaims>| {
        decide_token(h, signed, c, AFTER_ISSUE, 60, ISSUER, "rust-api")
    };
    assert_eq!(run(None, true, Some(claims(2_000_000_000))), Err(AuthError::MalformedToken));
    assert_eq!(run(Some(&hs256), true, Some(claims(2_000_000_000))), Err(AuthError::AlgorithmNotAllowed));
    assert_eq!(run(Some(&hs256), false, None), Err(AuthError::AlgorithmNotAllowed));
    assert_eq!(run(Some(&rs256), false, Some(claims(2_000_000_000))), Err(AuthError::InvalidSignature));
    assert_eq!(run(Some(&rs256), false, Some(claims(1))), Err(AuthError::InvalidSignature));
    assert_eq!(run(Some(&rs256), true, None), Err(AuthError::MalformedToken));
    assert_eq!(run(Some(&rs256), true, Some(claims(1))), Err(AuthError::Expired));
    assert_eq!(run(Some(&rs256), true, Some(claims(2_000_000_000))), Ok(accepted_claims(2_000_000_000)));
}

#[test]
fn the_algorithm_name_is_compared_exactly() {
    for name in ["none", "None", "", "rs256", "RS256 ", "RS25", "RS2567", "HS256", "PS256", "ES256"] {
        let h = header(name, None);
        assert!(!algorithm_allowed(&h), "{:?}", name);
        let r = decide_token(Some(&h), true, Some(claims(2_000_000_000)), AFTER_ISSUE, 60, ISSUER, "rust-api");
        assert_eq!(r, Err(AuthError::AlgorithmNotAllowed), "{:?}", name);
    }
    assert!(algorithm_allowed(&header("RS256", None)));
}

#[test]
fn the_checks_on_claims_run_in_order() {
    let run = |c: UnverifiedClaims, now: u64| check_claims(c, now, 60, ISSUER, "rust-api");
    let mut c = claims(100);
    c.iat = None;
    c.iss = None;
    c.aud = None;
    c.sub = None;
    assert_eq!(run(c, 160), Err(AuthError::Expired));

    let mut c = claims(2_000_000_000);
    c.exp = None;
    assert_eq!(run(c, AFTER_ISSUE), Err(AuthError::MalformedToken));

    let mut c = claims(2_000_000_000);
    c.iss = Some("elsewhere".to_string());
    c.aud = Some("elsewhere".to_string());
    assert_eq!(run(c.clone(), 0), Err(AuthError::NotYetValid));
    assert_eq!(run(c, AFTER_ISSUE), Err(AuthError::IssuerMismatch));

    let mut c = claims(2_000_000_000);
    c.iat = None;
    assert_eq!(run(c, AFTER_ISSUE), Err(AuthError::MalformedToken));

    let mut c = claims(2_000_000_000);
    c.iss = None;
    assert_eq!(run(c, AFTER_ISSUE), Err(AuthError::MalformedToken));

    let mut c = claims(2_000_000_000);
    c.aud = Some("rust-api2".to_string());
    c.sub = None;
    assert_eq!(run(c, AFTER_ISSUE), Err(AuthError::AudienceMismatch));

    let mut c = claims(2_000_000_000);
    c.aud = None;
    assert_eq!(run(c, AFTER_ISSUE), Err(AuthError::MalformedToken));
}

#[test]
fn the_five_required_claims_must_be_present() {
    let strip: [fn(&mut UnverifiedClaims); 5] = [
        |c| c.sub = None,
        |c| c.iss = None,
        |c| c.aud = None,
        |c| c.exp = None,
        |c| c.iat = None,
    ];
    for remove in strip {
        let mut c = claims(2_000_000_000);
        remove(&mut c);
        assert_eq!(assemble(c.clone()), None);
        assert_eq!(check_claims(c, AFTER_ISSUE, 60, ISSUER, "rust-api"), Err(AuthError::MalformedToken));
    }
    assert_eq!(assemble(claims(5)), Some(accepted_claims(5)));
}

#[test]
fn optional_claims_may_be_absent_and_are_handed_on_as_they_are() {
    let mut c = claims(2_000_000_000);
    c.auth_time = None;
    c.session_state = None;
    c.acr = None;
    c.scope = None;
    c.sid = None;
    c.realm_access = None;
    c.email_verified = None;
    c.preferred_username = None;
    c.email = None;
    let mut resources = HashMap::new();
    resources.insert("account".to_string(), ResourceAccess { roles: vec!["view-profile".to_string()] });
    c.resource_access = Some(resources.clone());
    c.given_name = Some("Alice".to_string());
    let mut expected = accepted_claims(2_000_000_000);
    expected.auth_time = None;
    expected.session_state = None;
    expected.acr = None;
    expected.scope = None;
    expected.sid = None;
    expected.realm_access = None;
    expected.email_verified = None;
    expected.preferred_username = None;
    expected.email = None;
    expected.resource_access = Some(resources);
    expected.given_name = Some("Alice".to_string());
    assert_eq!(assemble(c.clone()), Some(expected.clone()));
    assert_eq!(check_claims(c, AFTER_ISSUE, 60, ISSUER, "rust-api"), Ok(expected));
}

#[test]
fn the_time_window_is_exact_and_does_not_overflow() {
    assert!(is_expired(100, 160, 60));
    assert!(!is_expired(100, 159, 60));
    assert!(is_expired(100, 100, 0));
    assert!(!is_expired(101, 100, 0));
    assert!(!is_expired(u64::MAX, u64::MAX, 60));
    assert!(is_expired(u64::MAX, u64::MAX, 0));
    assert!(is_expired(0, u64::MAX, u64::MAX));
    assert!(!is_expired(1, u64::MAX, u64::MAX));
    assert!(is_not_yet_valid(161, 100, 60));
    assert!(!is_not_yet_valid(160, 100, 60));
    assert!(!is_not_yet_valid(100, 100, 0));
    assert!(is_not_yet_valid(101, 100, 0));
    assert!(!is_not_yet_valid(u64::MAX, u64::MAX, 60));
    assert!(!is_not_yet_valid(u64::MAX, 0, u64::MAX));
    assert!(is_not_yet_valid(u64::MAX, 0, u64::MAX - 1));
    assert_eq!(CLOCK_SKEW_SECONDS, 60);
}

#[test]
fn a_token_splits_at_its_last_dot() {
    assert_eq!(split_signature("a.b.c"), Some(("a.b", "c")));
    assert_eq!(split_signature("a.b."), Some(("a.b", "")));
    assert_eq!(split_signature(".c"), Some(("", "c")));
    assert_eq!(split_signature("."), Some(("", "")));
    assert_eq!(split_signature("abc"), None);
    assert_eq!(split_signature(""), None);
}

#[test]
fn signature_checks_go_by_the_whole_token() {
    assert!(check_rs256(&current_token(), KEY_1_MODULUS, KEY_1_EXPONENT));
    assert!(!check_rs256(&current_token(), KEY_2_MODULUS, KEY_2_EXPONENT));
    assert!(!check_rs256(&current_token(), KEY_1_MODULUS, "AQAC"));
    assert!(!check_rs256("no dots", KEY_1_MODULUS, KEY_1_EXPONENT));
    assert!(!check_rs256(&format!("{}x", current_token()), KEY_1_MODULUS, KEY_1_EXPONENT));
}

#[test]
fn the_gate_answers_an_expired_token_with_unauthenticated() {
    let gate = RequestGate::new(vec!["/health".to_string()]);
    let header_value = format!("Bearer {}", expired_token());
    let bearer = match gate.screen("/api/tasks", Some(&header_value)) {
        Screening::Bearer(t) => t,
        other => panic!("{:?}", other),
    };
    assert_eq!(bearer, expired_token());
    let keys = KeycloakCerts { keys: vec![key_1()] };
    let decision = gate.decide(
        &client(),
        bearer,
        Ok(&keys),
        MissingKidPolicy::Reject,
        Some(claims(1_700_000_100)),
        AFTER_ISSUE,
    );
    assert_eq!(decision, AuthDecision::Rejected(AuthError::Expired));
    assert_eq!(decision.status(), Some(401));
}

#[test]
fn the_gate_lets_a_valid_token_through_with_its_claims() {
    let gate = RequestGate::new(vec![]);
    let keys = KeycloakCerts { keys: vec![key_1(), key_2()] };
    let decision = gate.decide(
        &client(),
        &current_token(),
        Ok(&keys),
        MissingKidPolicy::Reject,
        Some(claims(2_000_000_000)),
        AFTER_ISSUE,
    );
    assert_eq!(decision, AuthDecision::Authenticated(accepted_claims(2_000_000_000)));
    assert_eq!(decision.status(), None);
}

#[test]
fn the_gate_reaches_no_decision_without_keys() {
    let gate = RequestGate::new(vec![]);
    let c = client();
    let run = |reply: IdpReply<KeycloakCerts>| {
        let keys = c.get_signing_keys(reply);
        gate.decide(
            &c,
            &current_token(),
            keys.as_ref().map_err(|failure| failure.kind),
            MissingKidPolicy::Reject,
            Some(claims(2_000_000_000)),
            AFTER_ISSUE,
        )
    };
    let down = run(IdpReply::Unreachable { detail: "timed out".to_string() });
    assert_eq!(down, AuthDecision::Unavailable(AuthError::TransportError));
    assert_eq!(down.status(), Some(401));
    let refused = run(IdpReply::Answered { status: 500, body: "boom".to_string(), parsed: None });
    assert_eq!(refused, AuthDecision::Unavailable(AuthError::UpstreamRejected));
    let unreadable = run(IdpReply::Answered { status: 200, body: "<html>".to_string(), parsed: None });
    assert_eq!(unreadable, AuthDecision::Unavailable(AuthError::TransportError));
    let answered = run(IdpReply::Answered {
        status: 200,
        body: String::new(),
        parsed: Some(KeycloakCerts { keys: vec![key_1()] }),
    });
    assert_eq!(answered, AuthDecision::Authenticated(accepted_claims(2_000_000_000)));
}

#[test]
fn the_cache_goes_by_the_key_that_a_token_names() {
    let mut cache = JwksCache::new("cloud-gauntlet".to_string(), 300);
    assert_eq!(cache.advise_for_token(&current_token(), 1000), CacheAdvice::Fetch);
    assert!(cache.try_begin_refresh());
    cache.complete_refresh(Some(KeycloakCerts { keys: vec![key_1()] }), 1000);
    assert_eq!(cache.advise_for_token(&current_token(), 1001), CacheAdvice::UseCached);
    let foreign = token(HEADER_RS256_KEY_2, PAYLOAD_CURRENT, SIGNATURE_KEY_2_OVER_KEY_2_CURRENT);
    assert_eq!(cache.advise_for_token(&foreign, 1001), CacheAdvice::Fetch);
    let unnamed = token(HEADER_RS256_NO_KID, PAYLOAD_CURRENT, SIGNATURE_KEY_1_OVER_NO_KID_CURRENT);
    assert_eq!(cache.advise_for_token(&unnamed, 1001), CacheAdvice::UseCached);
    assert_eq!(cache.advise_for_token("no token", 1001), CacheAdvice::UseCached);
    assert_eq!(cache.advise_for_token(&current_token(), 1300), CacheAdvice::Fetch);
}

#[test]
fn every_refusal_is_answered_alike() {
    let reasons = [
        AuthError::TransportError,
        AuthError::UpstreamRejected,
        AuthError::MalformedToken,
        AuthError::AlgorithmNotAllowed,
        AuthError::InvalidSignature,
        AuthError::Expired,
        AuthError::NotYetValid,
        AuthError::IssuerMismatch,
        AuthError::AudienceMismatch,
        AuthError::KeyNotFound,
        AuthError::Unauthenticated,
        AuthError::InvalidCredentials,
    ];
    for reason in reasons {
        assert_eq!(AuthDecision::<KeycloakJwtPayload>::Rejected(reason).status(), Some(401));
        assert_eq!(AuthDecision::<KeycloakJwtPayload>::Unavailable(reason).status(), Some(401));
        assert_eq!(UNAUTHENTICATED_STATUS, 401);
    }
}
