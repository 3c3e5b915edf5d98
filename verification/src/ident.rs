//! Identifiers of new records.

use vstd::prelude::*;

verus! {

/// A digit of a lowercase hexadecimal number.
pub open spec fn is_hex_digit(c: char) -> bool {
    ('0' <= c && c <= '9') || ('a' <= c && c <= 'f')
}

/// The shape of an identifier: 36 characters, hyphens at places 8, 13, 18 and
/// 23, lowercase hexadecimal digits elsewhere.
pub open spec fn is_uuid_text(text: Seq<char>) -> bool {
    &&& text.len() == 36
    &&& forall|i: int|
        0 <= i < 36 ==> if i == 8 || i == 13 || i == 18 || i == 23 {
            #[trigger] text[i] == '-'
        } else {
            is_hex_digit(text[i])
        }
}

/// Calls `uuid::Uuid::new_v4` and writes the result with `to_string`.
/// Trusted: the text has the hyphenated lowercase shape that the `uuid` crate
/// gives to `Display`. Which identifier comes out is left open: it is random.
/// The call panics only where the operating system hands out no random bytes.
#[verifier::external_body]
pub(crate) fn fresh_id() -> (id: String)
    ensures
        is_uuid_text(id@),
{
    uuid::Uuid::new_v4().to_string()
}

} // verus!
