//! Session identifiers.

use vstd::prelude::*;

verus! {

/// Whether `c` is one of the sixteen lowercase hexadecimal digits.
pub open spec fn is_lower_hex(c: char) -> bool {
    ('0' <= c && c <= '9') || ('a' <= c && c <= 'f')
}

/// Whether position `i` of a hyphenated identifier holds a hyphen.
pub open spec fn is_hyphen_position(i: int) -> bool {
    i == 8 || i == 13 || i == 18 || i == 23
}

/// The textual shape of a random (version 4) UUID in its hyphenated
/// lowercase form: 36 characters in groups of 8-4-4-4-12 hexadecimal digits,
/// with the version digit `4` opening the third group and one of `8`, `9`,
/// `a`, `b` opening the fourth.
pub open spec fn is_random_uuid_text(text: Seq<char>) -> bool {
    &&& text.len() == 36
    &&& forall|i: int|
        0 <= i < 36 ==> if is_hyphen_position(i) {
            #[trigger] text[i] == '-'
        } else {
            is_lower_hex(text[i])
        }
    &&& text[14] == '4'
    &&& (text[19] == '8' || text[19] == '9' || text[19] == 'a' || text[19] == 'b')
}

/// Draws a new session identifier.
///
/// Trusted: the body calls `uuid::Uuid::new_v4` and renders the value with
/// the `Display` impl of `uuid::Uuid`. The contract claims only the shape
/// that every such rendering has; which identifier comes back is up to the
/// operating system's random source, so nothing is said about it, and two
/// calls may well differ. The call panics if that source cannot be read.
#[verifier::external_body]
pub(crate) fn fresh_id() -> (id: String)
    ensures
        is_random_uuid_text(id@),
{
    uuid::Uuid::new_v4().to_string()
}

} // verus!
