//! Short identifiers: the first characters of a random UUID's text.

use vstd::prelude::*;
use vstd::string::*;

verus! {

/// The number of characters of every short identifier.
pub const ID_LENGTH: usize = 8;

/// An identifier is well formed when it has exactly `ID_LENGTH` characters.
pub open spec fn is_valid_id(id: Seq<char>) -> bool {
    id.len() == ID_LENGTH as nat
}

/// One lower-case hexadecimal digit.
pub open spec fn is_lower_hex(c: char) -> bool {
    ('0' <= c && c <= '9') || ('a' <= c && c <= 'f')
}

/// The hyphenated text of a UUID: 36 characters, a hyphen at positions 8, 13,
/// 18 and 23, and a lower-case hexadecimal digit everywhere else.
pub open spec fn is_hyphenated_uuid(text: Seq<char>) -> bool {
    &&& text.len() == 36
    &&& forall|i: int|
        0 <= i < 36 ==> if i == 8 || i == 13 || i == 18 || i == 23 {
            #[trigger] text[i] == '-'
        } else {
            is_lower_hex(text[i])
        }
}

/// What every freshly minted identifier looks like: `ID_LENGTH` lower-case
/// hexadecimal digits.
pub open spec fn is_minted_id(id: Seq<char>) -> bool {
    &&& is_valid_id(id)
    &&& forall|i: int| 0 <= i < id.len() ==> is_lower_hex(#[trigger] id[i])
}

/// Calls `uuid::Uuid::new_v4` and renders the value with its `Display` impl.
/// Trusted, not proved: the text is the hyphenated lower-case form. Which
/// UUID comes back is random, so nothing more is claimed of it. The call
/// fails only where the operating system has no random bytes to give.
#[verifier::external_body]
fn random_uuid_text() -> (text: String)
    ensures
        is_hyphenated_uuid(text@),
{
    uuid::Uuid::new_v4().to_string()
}

/// Tells whether `id` has the length of a short identifier.
pub fn has_id_length(id: &str) -> (ok: bool)
    ensures
        ok == is_valid_id(id@),
{
    id.unicode_len() == ID_LENGTH
}

/// Keeps the first `ID_LENGTH` characters of `text`.
pub fn shorten(text: &str) -> (id: String)
    requires
        text@.len() >= ID_LENGTH,
    ensures
        id@ == text@.take(ID_LENGTH as int),
{
    let head = text.substring_char(0, ID_LENGTH);
    assert(text@.subrange(0, ID_LENGTH as int) == text@.take(ID_LENGTH as int));
    String::from_str(head)
}

/// Mints a short identifier from a fresh random UUID. No two calls are
/// promised to differ: with eight digits a clash is unlikely, not impossible.
pub fn generate() -> (id: String)
    ensures
        is_minted_id(id@),
{
    let text = random_uuid_text();
    let id = shorten(text.as_str());
    assert forall|i: int| 0 <= i < id@.len() implies is_lower_hex(#[trigger] id@[i]) by {
        assert(id@[i] == text@[i]);
    }
    id
}

} // verus!
