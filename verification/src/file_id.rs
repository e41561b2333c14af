//! Slot identifiers: 128-bit values, written as hyphenated lower-case hex.

use vstd::prelude::*;
use vstd::arithmetic::power::pow;

verus! {

/// The identifier of an upload slot. It is the key of the slot in the
/// registry, of the stored bytes and of the index document.
#[derive(Clone, Copy, Debug, PartialEq, Eq, Hash, Structural)]
pub struct FileId {
    pub value: u128,
}

/// The value of an identifier, if there is one.
pub open spec fn id_value(id: Option<FileId>) -> Option<u128> {
    match id {
        Some(id) => Some(id.value),
        None => None,
    }
}

/// The value that a piece of text denotes as an identifier, if it denotes
/// one. It stands for what `uuid::Uuid::parse_str` accepts.
pub uninterp spec fn parsed_id(text: Seq<char>) -> Option<u128>;

/// The lower-case hexadecimal digit for `d`, where `0 <= d < 16`.
pub open spec fn hex_digit(d: int) -> char {
    seq!['0', '1', '2', '3', '4', '5', '6', '7', '8', '9', 'a', 'b', 'c', 'd', 'e', 'f'][d]
}

/// Which of the 32 digits stands at place `p` of the 36 places of an
/// identifier's text; the places 8, 13, 18 and 23 hold hyphens.
pub open spec fn digit_at_place(p: int) -> int {
    if p < 8 {
        p
    } else if p < 13 {
        p - 1
    } else if p < 18 {
        p - 2
    } else if p < 23 {
        p - 3
    } else {
        p - 4
    }
}

/// The text of an identifier: its 32 hexadecimal digits, the most
/// significant first, in groups of 8, 4, 4, 4 and 12 with hyphens between.
pub open spec fn id_text(value: u128) -> Seq<char> {
    Seq::new(
        36,
        |p: int|
            if p == 8 || p == 13 || p == 18 || p == 23 {
                '-'
            } else {
                hex_digit((value as int / pow(16, (31 - digit_at_place(p)) as nat)) % 16)
            },
    )
}

/// The 128-bit value of a freshly drawn random identifier.
///
/// Trusted: calls `uuid::Uuid::new_v4` and reads the result with
/// `Uuid::as_u128`. The value is random, so nothing is stated about it.
#[verifier::external_body]
pub(crate) fn random_id_value() -> (value: u128) {
    uuid::Uuid::new_v4().as_u128()
}

/// Trusted: calls `uuid::Uuid::parse_str` and reads an accepted identifier
/// with `Uuid::as_u128`. The outcome depends on the text alone; `parsed_id`
/// is the name for it.
#[verifier::external_body]
pub(crate) fn parse_id_value(text: &str) -> (value: Option<u128>)
    ensures
        value == parsed_id(text@),
{
    match uuid::Uuid::parse_str(text) {
        Ok(id) => Some(id.as_u128()),
        Err(_) => None,
    }
}

/// Trusted: builds the identifier with `uuid::Uuid::from_u128` and formats
/// it with its `Display` impl, which writes the hyphenated lower-case form.
#[verifier::external_body]
pub(crate) fn format_id_value(value: u128) -> (text: String)
    ensures
        text@ == id_text(value),
{
    uuid::Uuid::from_u128(value).to_string()
}

impl FileId {
    /// Reads an identifier from text. Text that denotes no identifier gives
    /// `None`.
    pub fn parse_str(text: &str) -> (id: Option<FileId>)
        ensures
            id_value(id) == parsed_id(text@),
    {
        match parse_id_value(text) {
            Some(value) => Some(FileId { value }),
            None => None,
        }
    }

    /// The identifier as text, as it appears in addresses, as the key of the
    /// stored bytes and in the index.
    pub fn to_text(&self) -> (text: String)
        ensures
            text@ == id_text(self.value),
    {
        format_id_value(self.value)
    }
}

} // verus!
