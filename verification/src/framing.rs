//! How a compact token falls apart: everything before its last dot is what
//! was signed, everything after it is the signature.

use crate::jose::{hs256_signature, rs256_verdict, sign_hs256, verify_rs256};
use crate::text::{rsplit_once_dot, str_eq};
use vstd::prelude::*;

verus! {

/// The position of the last `.` of `s`, or -1 where it has none.
pub open spec fn last_dot(s: Seq<char>) -> int
    decreases s.len(),
{
    if s.len() == 0 {
        -1
    } else if s.last() == '.' {
        s.len() - 1
    } else {
        last_dot(s.drop_last())
    }
}

/// The part of a token that its signature covers.
pub open spec fn signed_part(token: Seq<char>) -> Seq<char> {
    token.take(last_dot(token))
}

/// The signature segment of a token.
pub open spec fn signature_part(token: Seq<char>) -> Seq<char> {
    token.skip(last_dot(token) + 1)
}

/// `last_dot` is -1 exactly on sequences without a dot, and otherwise
/// points at a dot with none after it.
pub proof fn lemma_last_dot(s: Seq<char>)
    ensures
        -1 <= last_dot(s) < s.len(),
        last_dot(s) >= 0 <==> s.contains('.'),
        last_dot(s) >= 0 ==> s[last_dot(s)] == '.',
        forall|i: int| last_dot(s) < i < s.len() ==> s[i] != '.',
    decreases s.len(),
{
    if s.len() == 0 {
    } else if s.last() == '.' {
        assert(s[s.len() - 1] == '.');
    } else {
        let front = s.drop_last();
        lemma_last_dot(front);
        if last_dot(front) >= 0 {
            assert(s[last_dot(front)] == '.');
        }
        if s.contains('.') {
            let i = choose|i: int| 0 <= i < s.len() && s[i] == '.';
            assert(front[i] == '.');
        }
        assert forall|i: int| last_dot(s) < i < s.len() implies s[i] != '.' by {
            if i < front.len() {
                assert(front[i] == s[i]);
            }
        }
    }
}

/// A sequence written as `head`, a dot and a dot-free `tail` has its last
/// dot right after `head`.
pub proof fn lemma_split_at_last_dot(s: Seq<char>, head: Seq<char>, tail: Seq<char>)
    requires
        s == head + seq!['.'] + tail,
        !tail.contains('.'),
    ensures
        last_dot(s) == head.len(),
        signed_part(s) == head,
        signature_part(s) == tail,
{
    lemma_last_dot(s);
    let p = head.len() as int;
    assert(s[p] == '.');
    if last_dot(s) > p {
        let i = last_dot(s);
        assert(s[i] == tail[i - p - 1]);
        assert(tail.contains('.'));
    }
    assert(signed_part(s) =~= head);
    assert(signature_part(s) =~= tail);
}

/// Splits `token` at its last dot into the signed part and the signature.
pub fn split_signature<'a>(token: &'a str) -> (r: Option<(&'a str, &'a str)>)
    ensures
        r is Some <==> token@.contains('.'),
        r matches Some((message, signature)) ==> message@ == signed_part(token@) && signature@
            == signature_part(token@),
{
    match rsplit_once_dot(token) {
        Some((head, tail)) => {
            proof {
                lemma_split_at_last_dot(token@, head@, tail@);
            }
            Some((head, tail))
        },
        None => None,
    }
}

/// `token` carries a signature that verifies under RS256 and the RSA key
/// with the given base64url components.
pub open spec fn rs256_accepts(token: Seq<char>, modulus: Seq<char>, exponent: Seq<char>) -> bool {
    token.contains('.') && rs256_verdict(
        signature_part(token),
        signed_part(token),
        modulus,
        exponent,
    ) == Some(true)
}

/// `token` carries the signature that HS256 and `secret` make of its signed
/// part.
pub open spec fn hs256_accepts(token: Seq<char>, secret: Seq<char>) -> bool {
    token.contains('.') && hs256_signature(signed_part(token), secret) == Some(
        signature_part(token),
    )
}

/// Whether `token` is signed under RS256 by the key `(modulus, exponent)`.
pub fn check_rs256(token: &str, modulus: &str, exponent: &str) -> (r: bool)
    ensures
        r == rs256_accepts(token@, modulus@, exponent@),
{
    match split_signature(token) {
        Some((message, signature)) => {
            match verify_rs256(signature, message, modulus, exponent) {
                Some(accepted) => accepted,
                None => false,
            }
        },
        None => false,
    }
}

/// Whether `token` is signed under HS256 by `secret`.
pub fn check_hs256(token: &str, secret: &str) -> (r: bool)
    ensures
        r == hs256_accepts(token@, secret@),
{
    match split_signature(token) {
        Some((message, signature)) => {
            match sign_hs256(message, secret) {
                Some(expected) => str_eq(expected.as_str(), signature),
                None => false,
            }
        },
        None => false,
    }
}

} // verus!
