//! Task identifiers.
//!
//! An identifier is a 128-bit value. Fresh ones are random version-4 UUIDs
//! drawn by the `uuid` crate; in stored records an identifier is written as
//! the lower-case hyphenated text of that UUID and read back with the same
//! crate's parser.

use vstd::prelude::*;

verus! {

/// The identity of a task: the 128 bits of its UUID, most significant first.
#[derive(Clone, Copy, Debug, PartialEq, Eq, Hash, Structural)]
pub struct TaskId {
    pub value: u128,
}

/// The number of characters in the hyphenated text of an identifier.
pub const TEXT_LEN: usize = 36;

/// The lower-case hexadecimal digit for a value below sixteen.
pub open spec fn hex_digit(nibble: int) -> char {
    seq!['0', '1', '2', '3', '4', '5', '6', '7', '8', '9', 'a', 'b', 'c', 'd', 'e', 'f'][nibble]
}

/// Whether position `i` of the hyphenated text holds a hyphen.
pub open spec fn is_hyphen_position(i: int) -> bool {
    i == 8 || i == 13 || i == 18 || i == 23
}

/// The number of hexadecimal digits that stand before position `i` of the
/// hyphenated text: `i` less the hyphens passed on the way.
pub open spec fn digits_before(i: int) -> int {
    if i < 8 {
        i
    } else if i < 13 {
        i - 1
    } else if i < 18 {
        i - 2
    } else if i < 23 {
        i - 3
    } else {
        i - 4
    }
}

/// The `k`-th hexadecimal digit of `value`, counting from the most
/// significant (`k == 0`) to the least (`k == 31`).
pub open spec fn nibble(value: u128, k: int) -> int {
    (value as int / pow16(31 - k)) % 16
}

/// Sixteen to the power `n`.
pub open spec fn pow16(n: int) -> int
    decreases n,
{
    if n <= 0 {
        1
    } else {
        16 * pow16(n - 1)
    }
}

/// The hyphenated text of an identifier: thirty-two lower-case hexadecimal
/// digits, most significant first, in groups of 8, 4, 4, 4 and 12 separated
/// by hyphens.
pub open spec fn hyphenated(value: u128) -> Seq<char> {
    Seq::new(
        36,
        |i: int|
            if is_hyphen_position(i) {
                '-'
            } else {
                hex_digit(nibble(value, digits_before(i)))
            },
    )
}

/// Whether `value` carries the marks of a random (version 4) UUID: version
/// nibble 4 and the two variant bits `10`.
pub open spec fn is_random_uuid(value: u128) -> bool {
    (value >> 76) & 0xf == 4 && (value >> 62) & 0x3 == 2
}

/// What `uuid::Uuid::parse_str` makes of a text: the 128 bits of the UUID it
/// reads, or `None` where it rejects the text.
pub uninterp spec fn parsed_uuid(text: Seq<char>) -> Option<u128>;

/// The identifier a text denotes, if the UUID parser accepts it.
pub open spec fn parsed_id(text: Seq<char>) -> Option<TaskId> {
    match parsed_uuid(text) {
        Some(value) => Some(TaskId { value }),
        None => None,
    }
}

/// The error type of the UUID parser; carried, never inspected.
#[verifier::external_type_specification]
#[verifier::external_body]
pub struct ExUuidError(uuid::Error);

/// Calls `uuid::Uuid::new_v4`. Which identifier comes back is up to the
/// random source; the contract claims only what `new_v4` forces on every
/// outcome, the version and variant bits.
#[verifier::external_body]
fn random_uuid() -> (id: TaskId)
    ensures
        is_random_uuid(id.value),
{
    TaskId { value: uuid::Uuid::new_v4().as_u128() }
}

/// Calls `uuid::Uuid::parse_str`. The contract names the outcome
/// `parsed_uuid` of the text: success exactly where that is `Some`, and then
/// with those 128 bits.
#[verifier::external_body]
fn parse_uuid(text: &str) -> (r: Result<TaskId, uuid::Error>)
    ensures
        r is Ok <==> parsed_uuid(text@) is Some,
        r matches Ok(id) ==> parsed_uuid(text@) == Some(id.value),
{
    uuid::Uuid::parse_str(text).map(|u| TaskId { value: u.as_u128() })
}

/// Calls `uuid::Uuid::from_u128` and formats the result with its `Display`
/// impl. The contract claims that this is the lower-case hyphenated form and
/// that `parse_str` reads that form back to the same 128 bits, as the
/// parser's documentation promises of every format the crate writes.
#[verifier::external_body]
fn uuid_text(id: TaskId) -> (text: String)
    ensures
        text@ == hyphenated(id.value),
        parsed_uuid(text@) == Some(id.value),
{
    uuid::Uuid::from_u128(id.value).to_string()
}

impl TaskId {
    /// Draws a fresh random identifier.
    pub fn fresh() -> (id: TaskId)
        ensures
            is_random_uuid(id.value),
    {
        random_uuid()
    }

    /// Reads an identifier from text in any form the UUID parser accepts.
    pub fn parse(text: &str) -> (r: Option<TaskId>)
        ensures
            r == parsed_id(text@),
    {
        match parse_uuid(text) {
            Ok(id) => Some(id),
            Err(_) => None,
        }
    }

    /// Writes the identifier as hyphenated text, which `parse` reads back.
    pub fn to_text(&self) -> (text: String)
        ensures
            text@ == hyphenated(self.value),
            text@.len() == TEXT_LEN,
            parsed_id(text@) == Some(*self),
    {
        uuid_text(*self)
    }
}

} // verus!
