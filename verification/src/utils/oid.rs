//! Client order ids.
use uuid::Uuid;
use vstd::prelude::*;

verus! {

/// The digits of lower-case hexadecimal.
pub open spec fn is_lower_hex(c: char) -> bool {
    ('0' <= c && c <= '9') || ('a' <= c && c <= 'f')
}

/// Text in the shape of a hyphenated UUID: 36 characters, hyphens at the
/// positions 8, 13, 18 and 23, lower-case hexadecimal digits elsewhere.
pub open spec fn is_uuid_text(text: Seq<char>) -> bool {
    &&& text.len() == 36
    &&& forall|i: int|
        0 <= i < 36 ==> if i == 8 || i == 13 || i == 18 || i == 23 {
            #[trigger] text[i] == '-'
        } else {
            is_lower_hex(text[i])
        }
}

/// Draws a random UUID with `Uuid::new_v4` of the `uuid` crate and renders
/// it with its `Display` impl.  The id differs from call to call; assumed is
/// only its shape, the hyphenated lower-case form.  The crate panics when the
/// operating system hands out no random bytes.
#[verifier::external_body]
pub(crate) fn new_client_oid() -> (oid: String)
    ensures
        is_uuid_text(oid@),
{
    Uuid::new_v4().to_string()
}

} // verus!
