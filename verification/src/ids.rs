//! Identifier types used across the client and the authorization framework.
//!
//! Access tokens and user identifiers are 128-bit values (UUIDs on the wire);
//! this crate carries them as plain `u128` values so that uniqueness and
//! lookup logic can be stated and proved directly. Application identifiers are
//! only ever embedded into outbound requests, so they are carried as their
//! canonical text form.

use vstd::prelude::*;

verus! {

/// A stable, externally visible identifier for a user, distinct from any
/// internal sequential identifier. Never reused across users.
#[derive(Debug, Clone, Copy, PartialEq, Eq, Structural, Hash)]
pub struct UserPublicId {
    /// The 128-bit value of the identifier.
    pub value: u128,
}

/// The public identifier of the integrating application, in its canonical
/// hyphenated text form, as configured on the identity service.
#[derive(Debug, Clone)]
pub struct AppPublicId {
    /// Canonical text of the identifier.
    pub text: String,
}

/// The 128-bit value that UUID text denotes, or nothing when the text is not
/// UUID text. What counts as UUID text is the uuid parser's business; this
/// crate relies only on the reading being a function of the characters.
pub uninterp spec fn parsed_uuid(s: Seq<char>) -> Option<u128>;

/// Relies on uuid::Uuid::parse_str: reads a UUID from hexadecimal-digit text
/// with optional hyphens; the result depends on the characters alone.
#[verifier::external_body]
pub(crate) fn parse_uuid_text(s: &str) -> (r: Option<u128>)
    ensures
        r == parsed_uuid(s@),
{
    match uuid::Uuid::parse_str(s) {
        Ok(u) => Some(u.as_u128()),
        Err(_) => None,
    }
}

} // verus!
