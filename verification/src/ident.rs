//! External identifiers: random version 4 UUIDs in their usual text form.

use vstd::prelude::*;

verus! {

/// A digit or one of the letters `a` to `f`.
pub open spec fn is_hex_lower(c: char) -> bool {
    ('0' <= c && c <= '9') || ('a' <= c && c <= 'f')
}

/// The hyphenated lowercase form of a version 4 UUID: 36 characters,
/// hyphens at positions 8, 13, 18 and 23, hexadecimal digits elsewhere,
/// the version digit `4` and a variant digit of `8`, `9`, `a` or `b`.
pub open spec fn is_uuid_text(s: Seq<char>) -> bool {
    &&& s.len() == 36
    &&& forall|i: int|
        0 <= i < 36 ==> if i == 8 || i == 13 || i == 18 || i == 23 {
            #[trigger] s[i] == '-'
        } else {
            is_hex_lower(s[i])
        }
    &&& s[14] == '4'
    &&& (s[19] == '8' || s[19] == '9' || s[19] == 'a' || s[19] == 'b')
}

/// A fresh random identifier, from `uuid::Uuid::new_v4` and its
/// `Display` form. The value is random; what is taken on trust is its
/// shape. `new_v4` stops the program where the system has no random
/// numbers to give.
#[verifier::external_body]
pub(crate) fn new_identifier() -> (id: String)
    ensures
        is_uuid_text(id@),
{
    uuid::Uuid::new_v4().to_string()
}

} // verus!
