//! Identifiers of stored points.

use vstd::prelude::*;

verus! {

/// Whether `c` is a digit or one of the letters `a` to `f`.
pub open spec fn is_lower_hex(c: char) -> bool {
    ('0' <= c && c <= '9') || ('a' <= c && c <= 'f')
}

/// Whether `s` is the text of a random (version 4) UUID: 36 characters, hyphens
/// after the 8th, 12th, 16th and 20th digit, lower-case hexadecimal digits
/// elsewhere, the version digit `4` and a variant digit of `8`, `9`, `a` or `b`.
pub open spec fn is_point_id(s: Seq<char>) -> bool {
    &&& s.len() == 36
    &&& forall|i: int|
        0 <= i < 36 ==> if i == 8 || i == 13 || i == 18 || i == 23 {
            s[i] == '-'
        } else {
            is_lower_hex(#[trigger] s[i])
        }
    &&& s[14] == '4'
    &&& (s[19] == '8' || s[19] == '9' || s[19] == 'a' || s[19] == 'b')
}

/// A new identifier for a point, drawn at random.
///
/// Trusted: calls `uuid::Uuid::new_v4` and formats the result with its
/// `Display` impl. The contract claims only the shape of the text, which
/// `new_v4` fixes by masking in the version and variant bits and `Display`
/// by writing the hyphenated lower-case form. Nothing is claimed about which
/// identifier comes back, nor that two calls differ. `new_v4` panics when the
/// operating system's random source fails.
#[verifier::external_body]
pub(crate) fn fresh_point_id() -> (id: String)
    ensures
        is_point_id(id@),
{
    uuid::Uuid::new_v4().to_string()
}

} // verus!
