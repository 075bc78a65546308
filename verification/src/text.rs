//! Text forms of identifiers and characters, and comparison of texts.

use crate::id::EntityId;
use vstd::prelude::*;

verus! {

/// The lowercase hexadecimal digit for a value below sixteen.
pub open spec fn hex_digit(value: u128) -> char {
    if value < 10 {
        (value + 48) as char
    } else {
        (value + 87) as char
    }
}

/// The `index`-th hexadecimal digit of a 128-bit value, most significant first.
pub open spec fn uuid_nibble(bits: u128, index: int) -> u128 {
    (bits >> ((124 - 4 * index) as u128)) & 0xfu128
}

/// Which hexadecimal digit the character at `position` of a hyphenated UUID shows.
pub open spec fn uuid_digit_index(position: int) -> int {
    if position < 8 {
        position
    } else if position < 13 {
        position - 1
    } else if position < 18 {
        position - 2
    } else if position < 23 {
        position - 3
    } else {
        position - 4
    }
}

/// The hyphenated lowercase form of a UUID, such as `a1a2a3a4-b1b2-c1c2-d1d2-d3d4d5d6d7d8`:
/// thirty-two hexadecimal digits in groups of 8, 4, 4, 4 and 12.
pub open spec fn uuid_text(bits: u128) -> Seq<char> {
    Seq::new(
        36,
        |position: int|
            if position == 8 || position == 13 || position == 18 || position == 23 {
                '-'
            } else {
                hex_digit(uuid_nibble(bits, uuid_digit_index(position)))
            },
    )
}

/// The UUID that `uuid::Uuid::parse_str` reads from a text, by its 128 bits, if it reads one.
pub uninterp spec fn parsed_uuid(text: Seq<char>) -> Option<u128>;

/// Calls `uuid::Uuid::parse_str` and, on success, returns the parsed UUID's 128 bits (`as_u128`).
/// The contract names the outcome and claims nothing more of the parser.
#[verifier::external_body]
fn parse_uuid(text: &str) -> (bits: Option<u128>)
    ensures
        bits == parsed_uuid(text@),
{
    match uuid::Uuid::parse_str(text) {
        Ok(uuid) => Some(uuid.as_u128()),
        Err(_) => None,
    }
}

/// Calls `uuid::Uuid::from_u128` and formats the UUID with `to_string`, which writes the
/// hyphenated lowercase form. The contract states that text, and that `parse_str` reads it
/// back as the same 128 bits (it accepts the hyphenated form that `Display` writes).
#[verifier::external_body]
fn uuid_to_text(bits: u128) -> (text: String)
    ensures
        text@ == uuid_text(bits),
        parsed_uuid(text@) == Some(bits),
{
    uuid::Uuid::from_u128(bits).to_string()
}

/// The text under which an entity ID is stored: its UUID in hyphenated lowercase form.
pub fn entity_id_text(id: EntityId) -> (text: String)
    ensures
        text@ == uuid_text(id@),
        parsed_uuid(text@) == Some(id@),
{
    uuid_to_text(id.0)
}

/// The entity ID whose UUID a text holds, if it holds one.
pub fn parse_entity_id(value: &str) -> (id: Option<EntityId>)
    ensures
        id == match parsed_uuid(value@) {
            Some(bits) => Some(EntityId(bits)),
            None => None,
        },
{
    match parse_uuid(value) {
        Some(bits) => Some(EntityId(bits)),
        None => None,
    }
}

/// Calls `char::to_string`, which yields the string of that one character.
#[verifier::external_body]
pub(crate) fn char_text(character: char) -> (text: String)
    ensures
        text@ == seq![character],
{
    character.to_string()
}

/// Whether two texts hold the same characters.
pub fn text_equals(left: &str, right: &str) -> (equal: bool)
    ensures
        equal == (left@ == right@),
{
    let length = left.unicode_len();
    if length != right.unicode_len() {
        return false;
    }
    let mut i: usize = 0;
    while i < length
        invariant
            length == left@.len(),
            length == right@.len(),
            0 <= i <= length,
            forall|j: int| 0 <= j < i ==> left@[j] == right@[j],
        decreases length - i,
    {
        if left.get_char(i) != right.get_char(i) {
            return false;
        }
        i += 1;
    }
    assert(left@ =~= right@);
    true
}

} // verus!
