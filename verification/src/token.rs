//! Fresh commit messages.

use vstd::prelude::*;

verus! {

/// A decimal digit or one of the letters `a` to `f`.
pub open spec fn is_hex_digit(c: char) -> bool {
    "0123456789abcdef"@.contains(c)
}

/// The written form of a random UUID: 36 characters in five groups of
/// lower-case hexadecimal digits, with hyphens between the groups, the
/// third group beginning with the version, `4`, and the fourth with one of
/// the variant's digits.
pub open spec fn is_token(text: Seq<char>) -> bool {
    &&& text.len() == 36
    &&& forall|i: int|
        0 <= i < 36 ==> if i == 8 || i == 13 || i == 18 || i == 23 {
            text[i] == '-'
        } else {
            is_hex_digit(#[trigger] text[i])
        }
    &&& text[14] == '4'
    &&& "89ab"@.contains(text[19])
}

/// Calls `uuid::Uuid::new_v4` and writes the result out with `to_string`.
///
/// Believed, not proved: whatever random bits come, the text has the shape
/// that `is_token` describes. `new_v4` fixes the version and variant bits
/// of 128 random ones, and the UUID's `Display` writes them hyphenated in
/// lower case. Two calls are not said to differ. `new_v4` panics where the
/// operating system hands out no random bytes.
#[verifier::external_body]
pub(crate) fn fresh_token() -> (token: String)
    ensures
        is_token(token@),
{
    uuid::Uuid::new_v4().to_string()
}

} // verus!
