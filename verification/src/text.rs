//! Text primitives the gateway is built from: comparison, prefix removal,
//! splitting at the last dot and concatenation, each stated over the
//! character sequence of a string.

use vstd::prelude::*;

verus! {

/// `text` begins with `prefix`.
pub open spec fn has_prefix(text: Seq<char>, prefix: Seq<char>) -> bool {
    prefix.len() <= text.len() && text.subrange(0, prefix.len() as int) == prefix
}

/// Equality of two string slices.
///
/// Trusted: calls `str`'s `==` and claims that it compares the two
/// character sequences.
#[verifier::external_body]
pub(crate) fn str_eq(a: &str, b: &str) -> (r: bool)
    ensures
        r == (a@ == b@),
{
    a == b
}

/// What is left of `text` once a leading `prefix` is removed.
///
/// Trusted: calls `str::strip_prefix` and claims what its documentation
/// says: `Some` exactly when `text` begins with `prefix`, and then the
/// remainder after it.
#[verifier::external_body]
pub(crate) fn strip_prefix<'a>(text: &'a str, prefix: &str) -> (r: Option<&'a str>)
    ensures
        r is Some <==> has_prefix(text@, prefix@),
        r matches Some(rest) ==> rest@ == text@.skip(prefix@.len() as int),
{
    text.strip_prefix(prefix)
}

/// The two sides of the last `.` of `text`.
///
/// Trusted: calls `str::rsplit_once` with `'.'` and claims what its
/// documentation says: `None` exactly when `text` holds no dot; otherwise
/// the part before the last dot and the part after it, which holds none.
#[verifier::external_body]
pub(crate) fn rsplit_once_dot<'a>(text: &'a str) -> (r: Option<(&'a str, &'a str)>)
    ensures
        r is Some <==> text@.contains('.'),
        r matches Some((head, tail)) ==> text@ == head@ + seq!['.'] + tail@ && !tail@.contains(
            '.',
        ),
{
    text.rsplit_once('.')
}

/// `a` followed by `b`, as a new string.
pub fn join(a: &str, b: &str) -> (r: String)
    ensures
        r@ == a@ + b@,
{
    let mut out = String::from_str(a);
    out.append(b);
    out
}

/// Whether some element of `list` equals `wanted`.
pub open spec fn lists(list: Seq<String>, wanted: Seq<char>) -> bool {
    exists|i: int| 0 <= i < list.len() && (#[trigger] list[i])@ == wanted
}

/// Whether `list` holds `wanted`.
pub fn contains_str(list: &Vec<String>, wanted: &str) -> (r: bool)
    ensures
        r == lists(list@, wanted@),
{
    let mut i: usize = 0;
    while i < list.len()
        invariant
            i <= list.len(),
            forall|j: int| 0 <= j < i ==> (#[trigger] list@[j])@ != wanted@,
        decreases list.len() - i,
    {
        if str_eq(list[i].as_str(), wanted) {
            return true;
        }
        i += 1;
    }
    false
}

} // verus!
