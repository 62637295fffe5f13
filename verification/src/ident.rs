//! Identifiers of entities.

use vstd::prelude::*;

verus! {

/// `c` is a decimal digit or one of the letters `a` to `f`.
pub open spec fn is_hex_digit(c: char) -> bool {
    ('0' as int <= c as int <= '9' as int) || ('a' as int <= c as int <= 'f' as int)
}

/// `text` has the shape of a random identifier: 32 lower-case hexadecimal
/// digits in groups of 8, 4, 4, 4 and 12 with a hyphen between groups, the
/// third group starting with `4` and the fourth with `8`, `9`, `a` or `b`.
pub open spec fn is_id_text(text: Seq<char>) -> bool {
    &&& text.len() == 36
    &&& forall|i: int|
        0 <= i < 36 ==> if i == 8 || i == 13 || i == 18 || i == 23 {
            #[trigger] text[i] == '-'
        } else {
            is_hex_digit(text[i])
        }
    &&& text[14] == '4'
    &&& (text[19] == '8' || text[19] == '9' || text[19] == 'a' || text[19] == 'b')
}

/// A new random identifier, from `uuid::Uuid::new_v4` written out by the
/// `Display` of `uuid::Uuid`. Trusted: the text has the shape of a version 4
/// identifier in hyphenated lower-case form. Nothing is claimed about which
/// identifier comes back; two calls may give different ones. The call ends
/// the program where the system cannot supply random bytes.
#[verifier::external_body]
pub(crate) fn fresh_id() -> (id: String)
    ensures
        is_id_text(id@),
{
    uuid::Uuid::new_v4().to_string()
}

} // verus!
