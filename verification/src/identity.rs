//! Identities: the subject's UUID, read from text or drawn at random, and
//! the two ways an identity comes to be.

use crate::model::{Identity, KeycloakUserInfo};
use vstd::prelude::*;

verus! {

/// The 128-bit value of the UUID that `uuid::Uuid::parse_str` reads from
/// `text`, or `None` where it reports an error.
pub uninterp spec fn uuid_value(text: Seq<char>) -> Option<u128>;

/// The version and variant bits of a 128-bit UUID.
pub const UUID_FORM_MASK: u128 = 0x0000_0000_0000_f000_c000_0000_0000_0000;

/// Those bits as a random (version 4, RFC variant) UUID has them.
pub const UUID_RANDOM_FORM: u128 = 0x0000_0000_0000_4000_8000_0000_0000_0000;

/// `id` has the form of a random UUID.
pub open spec fn is_random_uuid(id: u128) -> bool {
    id & UUID_FORM_MASK == UUID_RANDOM_FORM
}

/// Reads a UUID from text.
///
/// Trusted: calls `uuid::Uuid::parse_str` and takes the result's
/// `as_u128`. The contract claims only that the outcome is the one named
/// by [`uuid_value`].
#[verifier::external_body]
pub(crate) fn parse_uuid(text: &str) -> (r: Option<u128>)
    ensures
        r == uuid_value(text@),
{
    match uuid::Uuid::parse_str(text) {
        Ok(id) => Some(id.as_u128()),
        Err(_) => None,
    }
}

/// Draws a random UUID.
///
/// Trusted: calls `uuid::Uuid::new_v4` and takes the result's `as_u128`.
/// The contract claims what holds of every draw: the version and variant
/// bits that `new_v4` sets.
#[verifier::external_body]
pub(crate) fn fresh_uuid() -> (r: u128)
    ensures
        is_random_uuid(r),
{
    uuid::Uuid::new_v4().as_u128()
}

/// The subject id of a user whose provider-side id is `parsed`, with
/// `fresh` standing in where the provider's id is no UUID.
pub open spec fn subject_id_of(parsed: Option<u128>, fresh: u128) -> u128 {
    match parsed {
        Some(id) => id,
        None => fresh,
    }
}

/// The identity that a user-info document describes.
pub open spec fn enriched_identity(info: KeycloakUserInfo, parsed: Option<u128>, fresh: u128)
    -> Identity {
    Identity {
        subject_id: subject_id_of(parsed, fresh),
        username: info.preferred_username,
        email: info.email,
        display_name: info.name,
    }
}

/// The identity made up for a user of whom only the name is known.
pub open spec fn synthesized_identity(username: String, subject_id: u128) -> Identity {
    Identity { subject_id, username, email: None, display_name: None }
}

impl Identity {
    /// Builds the identity that `info` describes. `parsed` is the UUID read
    /// from `info.sub`, if it is one; `fresh` is used otherwise.
    pub fn from_user_info(info: KeycloakUserInfo, parsed: Option<u128>, fresh: u128) -> (r:
        Identity)
        ensures
            r == enriched_identity(info, parsed, fresh),
    {
        let subject_id = match parsed {
            Some(id) => id,
            None => fresh,
        };
        Identity {
            subject_id,
            username: info.preferred_username,
            email: info.email,
            display_name: info.name,
        }
    }

    /// Makes up an identity from a username alone.
    pub fn synthesized(username: String, subject_id: u128) -> (r: Identity)
        ensures
            r == synthesized_identity(username, subject_id),
    {
        Identity { subject_id, username, email: None, display_name: None }
    }
}

} // verus!
