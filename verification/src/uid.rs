//! Identifiers for new pastes: random version-4 UUIDs in their canonical
//! text form.
//!
//! Two identifiers may collide, however rarely; only the table decides
//! whether one is free.

use vstd::prelude::*;

verus! {

/// A lower-case hexadecimal digit.
pub open spec fn is_hex_digit(c: char) -> bool {
    let u = c as u32;
    0x30 <= u <= 0x39 || 0x61 <= u <= 0x66
}

/// The canonical text of a version-4 UUID: 36 characters, hyphens after the
/// 8th, 12th, 16th and 20th digit, lower-case hexadecimal digits elsewhere,
/// the version digit `4` and a variant digit among `8`, `9`, `a`, `b`.
pub open spec fn is_uid(s: Seq<char>) -> bool {
    &&& s.len() == 36
    &&& forall|i: int|
        0 <= i < 36 ==> if i == 8 || i == 13 || i == 18 || i == 23 {
            #[trigger] s[i] == '-'
        } else {
            is_hex_digit(s[i])
        }
    &&& s[14] == '4'
    &&& (s[19] == '8' || s[19] == '9' || s[19] == 'a' || s[19] == 'b')
}

/// Calls `uuid::Uuid::new_v4` and renders the result with its `Display`
/// impl. Which identifier comes back is up to the system's random source;
/// every one has the canonical version-4 shape. The call does not return if
/// the system cannot supply random bytes.
#[verifier::external_body]
pub(crate) fn new_uid() -> (uid: String)
    ensures
        is_uid(uid@),
{
    uuid::Uuid::new_v4().to_string()
}

} // verus!
