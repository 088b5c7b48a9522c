//! Session identifiers: random 128-bit values rendered as text.

use vstd::prelude::*;

verus! {

/// Whether `c` is one of the sixteen lower-case hexadecimal digits.
pub open spec fn is_lower_hex(c: char) -> bool {
    ('0' as u32 <= c as u32 && c as u32 <= '9' as u32) || ('a' as u32 <= c as u32 && c as u32
        <= 'f' as u32)
}

/// The places of the four hyphens in an identifier.
pub open spec fn is_hyphen_position(i: int) -> bool {
    i == 8 || i == 13 || i == 18 || i == 23
}

/// The shape of a session identifier: thirty-two lower-case hexadecimal digits in
/// groups of 8, 4, 4, 4 and 12 with hyphens between them, where the third group
/// starts with the version digit `4` and the fourth with a variant digit.
pub open spec fn is_session_id(id: Seq<char>) -> bool {
    &&& id.len() == 36
    &&& forall|i: int|
        0 <= i < 36 ==> if is_hyphen_position(i) {
            #[trigger] id[i] == '-'
        } else {
            is_lower_hex(id[i])
        }
    &&& id[14] == '4'
    &&& (id[19] == '8' || id[19] == '9' || id[19] == 'a' || id[19] == 'b')
}

/// Calls `uuid::Uuid::new_v4` and renders the value with its `Display` impl.
///
/// Trusted: the value is random, so the contract states only its shape. The
/// generator sets the version bits to 4 and the variant bits to `10`, and the
/// rendering is the hyphenated lower-case form of 36 characters.
#[verifier::external_body]
pub(crate) fn random_uuid_text() -> (id: String)
    ensures
        is_session_id(id@),
{
    uuid::Uuid::new_v4().to_string()
}

/// Mints the identifier of a new session.
pub fn new_session_id() -> (id: String)
    ensures
        is_session_id(id@),
{
    random_uuid_text()
}

} // verus!
