//! Random identifiers.
use vstd::prelude::*;

verus! {

/// A lower-case hexadecimal digit.
pub open spec fn is_lower_hex(c: char) -> bool {
    ('0' <= c && c <= '9') || ('a' <= c && c <= 'f')
}

/// The hyphenated lower-case text of a version 4 (random) UUID:
/// `xxxxxxxx-xxxx-4xxx-yxxx-xxxxxxxxxxxx`, each `x` a hexadecimal digit and
/// `y` one of `8`, `9`, `a`, `b`.
pub open spec fn is_uuid_v4_text(s: Seq<char>) -> bool {
    &&& s.len() == 36
    &&& forall|i: int|
        0 <= i < 36 ==> if i == 8 || i == 13 || i == 18 || i == 23 {
            s[i] == '-'
        } else {
            is_lower_hex(#[trigger] s[i])
        }
    &&& s[14] == '4'
    &&& (s[19] == '8' || s[19] == '9' || s[19] == 'a' || s[19] == 'b')
}

/// uuid's `Uuid::new_v4().to_string()`: a random UUID in its hyphenated
/// lower-case form. `new_v4` sets the version nibble to 4 and the variant
/// bits to `10`, and `Display` writes the 32 nibbles as lower-case hex in
/// groups of 8-4-4-4-12; which UUID comes is random and not stated.
#[verifier::external_body]
pub(crate) fn new_uuid_string() -> (s: String)
    ensures
        is_uuid_v4_text(s@),
{
    uuid::Uuid::new_v4().to_string()
}

/// uuid's `Uuid::new_v4().as_u128()`: a random UUID as a number. The value
/// is random, so nothing is stated of it.
#[verifier::external_body]
pub(crate) fn new_uuid_u128() -> (n: u128) {
    uuid::Uuid::new_v4().as_u128()
}

} // verus!
