//! Choosing the signing key for a token out of the provider's key set.

use crate::error::AuthError;
use crate::model::{KeycloakCerts, KeycloakKey};
use crate::text::str_eq;
use vstd::prelude::*;

verus! {

/// What to do with a token whose header names no key.
#[derive(Clone, Copy, Debug, PartialEq, Eq, Structural)]
pub enum MissingKidPolicy {
    /// Select nothing.
    Reject,
    /// Select the set's key if it has exactly one, nothing otherwise.
    SoleKey,
}

/// `i` is the first position in `keys` of a key whose id is `kid`.
pub open spec fn is_first_with_kid(keys: Seq<KeycloakKey>, kid: Seq<char>, i: int) -> bool {
    &&& 0 <= i < keys.len()
    &&& keys[i].kid@ == kid
    &&& forall|j: int| 0 <= j < i ==> (#[trigger] keys[j]).kid@ != kid
}

/// The first position in `keys` of a key whose id is `kid`, if there is one.
pub open spec fn first_with_kid(keys: Seq<KeycloakKey>, kid: Seq<char>) -> Option<int> {
    if exists|i: int| is_first_with_kid(keys, kid, i) {
        Some(choose|i: int| is_first_with_kid(keys, kid, i))
    } else {
        None
    }
}

/// The position of the key selected for a token that names `kid`. A named
/// key is selected by its id alone; without a name the policy decides, and
/// never picks among several keys.
pub open spec fn selected_key(
    keys: Seq<KeycloakKey>,
    kid: Option<Seq<char>>,
    policy: MissingKidPolicy,
) -> Option<int> {
    match kid {
        Some(kid) => first_with_kid(keys, kid),
        None => if policy == MissingKidPolicy::SoleKey && keys.len() == 1 {
            Some(0int)
        } else {
            None
        },
    }
}

/// The character sequence of an optional string slice.
pub open spec fn opt_str(value: Option<&str>) -> Option<Seq<char>> {
    match value {
        Some(s) => Some(s@),
        None => None,
    }
}

/// No key of `keys` has the id `kid`.
pub open spec fn kid_absent(keys: Seq<KeycloakKey>, kid: Seq<char>) -> bool {
    forall|j: int| 0 <= j < keys.len() ==> (#[trigger] keys[j]).kid@ != kid
}

/// A first position is the only first position.
pub proof fn lemma_first_is_unique(keys: Seq<KeycloakKey>, kid: Seq<char>, i: int)
    requires
        is_first_with_kid(keys, kid, i),
    ensures
        first_with_kid(keys, kid) == Some(i),
{
    let c = choose|c: int| is_first_with_kid(keys, kid, c);
    if c < i {
        assert(keys[c].kid@ != kid);
    } else if i < c {
        assert(keys[i].kid@ != kid);
    }
}

/// Nothing is selected by an id that no key has, and what is selected by an
/// id has that id.
pub proof fn lemma_selection_by_kid(keys: Seq<KeycloakKey>, kid: Seq<char>)
    ensures
        kid_absent(keys, kid) <==> first_with_kid(keys, kid) is None,
        first_with_kid(keys, kid) matches Some(i) ==> is_first_with_kid(keys, kid, i),
{
    if kid_absent(keys, kid) {
        assert forall|i: int| !is_first_with_kid(keys, kid, i) by {
            if 0 <= i < keys.len() {
                assert(keys[i].kid@ != kid);
            }
        }
    } else {
        let j = choose|j: int| 0 <= j < keys.len() && (#[trigger] keys[j]).kid@ == kid;
        lemma_first_exists(keys, kid, j);
    }
}

/// If some key up to position `upto` has the id, a first one exists.
proof fn lemma_first_exists(keys: Seq<KeycloakKey>, kid: Seq<char>, upto: int)
    requires
        0 <= upto < keys.len(),
        keys[upto].kid@ == kid,
    ensures
        exists|i: int| is_first_with_kid(keys, kid, i),
    decreases upto,
{
    if forall|j: int| 0 <= j < upto ==> (#[trigger] keys[j]).kid@ != kid {
        assert(is_first_with_kid(keys, kid, upto));
    } else {
        let j = choose|j: int| 0 <= j < upto && (#[trigger] keys[j]).kid@ == kid;
        lemma_first_exists(keys, kid, j);
    }
}

impl KeycloakCerts {
    /// Selects the key for a token whose header names `kid`.
    ///
    /// Succeeds exactly when [`selected_key`] names a position, with the key
    /// at that position; fails with `KeyNotFound` otherwise.
    pub fn select_key(&self, kid: Option<&str>, policy: MissingKidPolicy) -> (r: Result<
        &KeycloakKey,
        AuthError,
    >)
        ensures
            match r {
                Ok(key) => {
                    &&& selected_key(self.keys@, opt_str(kid), policy) matches Some(i)
                    &&& 0 <= i < self.keys.len()
                    &&& *key == self.keys@[i]
                },
                Err(e) => {
                    &&& e == AuthError::KeyNotFound
                    &&& selected_key(self.keys@, opt_str(kid), policy) is None
                },
            },
    {
        match kid {
            Some(wanted) => {
                let mut i: usize = 0;
                while i < self.keys.len()
                    invariant
                        i <= self.keys.len(),
                        kid == Some(wanted),
                        forall|j: int| 0 <= j < i ==> (#[trigger] self.keys@[j]).kid@ != wanted@,
                    decreases self.keys.len() - i,
                {
                    if str_eq(self.keys[i].kid.as_str(), wanted) {
                        proof {
                            lemma_first_is_unique(self.keys@, wanted@, i as int);
                        }
                        return Ok(&self.keys[i]);
                    }
                    i += 1;
                }
                proof {
                    assert(kid_absent(self.keys@, wanted@));
                    lemma_selection_by_kid(self.keys@, wanted@);
                }
                Err(AuthError::KeyNotFound)
            },
            None => {
                if policy == MissingKidPolicy::SoleKey && self.keys.len() == 1 {
                    Ok(&self.keys[0])
                } else {
                    Err(AuthError::KeyNotFound)
                }
            },
        }
    }
}

} // verus!
