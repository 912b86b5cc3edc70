//! Opaque unique identifiers of users and messages.

use std::str::FromStr;
use vstd::prelude::*;

verus! {

/// What `uuid::Uuid::from_str` makes of a text: the 128-bit value it reads,
/// or `None` where it reports an error.
pub uninterp spec fn uuid_from_text(text: Seq<char>) -> Option<u128>;

/// The lower-case hexadecimal digit for a number below sixteen.
pub open spec fn hex_digit(nibble: int) -> char {
    seq!['0', '1', '2', '3', '4', '5', '6', '7', '8', '9', 'a', 'b', 'c', 'd', 'e', 'f'][nibble]
}

/// The last `count` hexadecimal digits of a number, most significant first.
pub open spec fn hex_digits(value: int, count: nat) -> Seq<char>
    decreases count,
{
    if count == 0 {
        Seq::empty()
    } else {
        hex_digits(value / 16, (count - 1) as nat).push(hex_digit(value % 16))
    }
}

/// The printed form of an identifier: its thirty-two hexadecimal digits in
/// lower case, most significant first, in groups of eight, four, four, four
/// and twelve with a hyphen between them.
pub open spec fn uuid_to_text(value: u128) -> Seq<char> {
    let digits = hex_digits(value as int, 32);
    digits.subrange(0, 8) + seq!['-'] + digits.subrange(8, 12) + seq!['-'] + digits.subrange(
        12,
        16,
    ) + seq!['-'] + digits.subrange(16, 20) + seq!['-'] + digits.subrange(20, 32)
}

/// A 128-bit identifier with no meaning beyond identity.
#[derive(Clone, Copy, Debug, PartialEq, Eq, Hash, Structural)]
pub struct Identifier {
    pub value: u128,
}

/// Calls `uuid::Uuid::from_str`, which accepts the simple, hyphenated, braced
/// and URN forms, and hands back the parsed identifier as the integer that
/// `Uuid::as_u128` reads from it. The contract only names the outcome.
#[verifier::external_body]
fn parse_uuid(text: &str) -> (parsed: Option<u128>)
    ensures
        parsed == uuid_from_text(text@),
{
    match uuid::Uuid::from_str(text) {
        Ok(uuid) => Some(uuid.as_u128()),
        Err(_) => None,
    }
}

/// Calls `to_string` on the `uuid::Uuid` built by `Uuid::from_u128`, which
/// prints the hyphenated lower-case form. The contract states that form and
/// claims that `Uuid::from_str` reads the same value back from it, as the
/// crate documents for every form it prints.
#[verifier::external_body]
fn format_uuid(value: u128) -> (text: String)
    ensures
        text@ == uuid_to_text(value),
        uuid_from_text(text@) == Some(value),
{
    uuid::Uuid::from_u128(value).to_string()
}

impl Identifier {
    pub fn from_u128(value: u128) -> (id: Identifier)
        ensures
            id.value == value,
    {
        Identifier { value }
    }

    pub fn as_u128(&self) -> (value: u128)
        ensures
            value == self.value,
    {
        self.value
    }

    /// Reads an identifier from its printed form.
    pub fn parse_str(text: &str) -> (parsed: Option<Identifier>)
        ensures
            parsed == Self::from_parsed(uuid_from_text(text@)),
    {
        Self::from_option(parse_uuid(text))
    }

    /// The identifier that a parse outcome stands for.
    pub open spec fn from_parsed(parsed: Option<u128>) -> Option<Identifier> {
        match parsed {
            Some(value) => Some(Identifier { value }),
            None => None,
        }
    }

    /// Wraps the outcome of a parse: a value becomes an identifier, a
    /// failure stays a failure.
    pub fn from_option(parsed: Option<u128>) -> (id: Option<Identifier>)
        ensures
            id == Self::from_parsed(parsed),
    {
        match parsed {
            Some(value) => Some(Identifier { value }),
            None => None,
        }
    }

    /// The printed, hyphenated form of the identifier.
    pub fn to_text(&self) -> (text: String)
        ensures
            text@ == uuid_to_text(self.value),
            uuid_from_text(text@) == Some(self.value),
    {
        format_uuid(self.value)
    }
}

/// The printed form on an example: every pair of digits stands for one
/// byte of the value, the most significant byte first.
pub proof fn example_printed_form()
    ensures
        uuid_to_text(0xa1a2a3a4b1b2c1c2d1d2d3d4d5d6d7d8) == "a1a2a3a4-b1b2-c1c2-d1d2-d3d4d5d6d7d8"@,
{
    reveal_strlit("a1a2a3a4-b1b2-c1c2-d1d2-d3d4d5d6d7d8");
    assert(hex_digits(0xa, 1) == hex_digits(0x0, 0).push('a'));
    assert(hex_digits(0xa1, 2) == hex_digits(0xa, 1).push('1'));
    assert(hex_digits(0xa1a, 3) == hex_digits(0xa1, 2).push('a'));
    assert(hex_digits(0xa1a2, 4) == hex_digits(0xa1a, 3).push('2'));
    assert(hex_digits(0xa1a2a, 5) == hex_digits(0xa1a2, 4).push('a'));
    assert(hex_digits(0xa1a2a3, 6) == hex_digits(0xa1a2a, 5).push('3'));
    assert(hex_digits(0xa1a2a3a, 7) == hex_digits(0xa1a2a3, 6).push('a'));
    assert(hex_digits(0xa1a2a3a4, 8) == hex_digits(0xa1a2a3a, 7).push('4'));
    assert(hex_digits(0xa1a2a3a4b, 9) == hex_digits(0xa1a2a3a4, 8).push('b'));
    assert(hex_digits(0xa1a2a3a4b1, 10) == hex_digits(0xa1a2a3a4b, 9).push('1'));
    assert(hex_digits(0xa1a2a3a4b1b, 11) == hex_digits(0xa1a2a3a4b1, 10).push('b'));
    assert(hex_digits(0xa1a2a3a4b1b2, 12) == hex_digits(0xa1a2a3a4b1b, 11).push('2'));
    assert(hex_digits(0xa1a2a3a4b1b2c, 13) == hex_digits(0xa1a2a3a4b1b2, 12).push('c'));
    assert(hex_digits(0xa1a2a3a4b1b2c1, 14) == hex_digits(0xa1a2a3a4b1b2c, 13).push('1'));
    assert(hex_digits(0xa1a2a3a4b1b2c1c, 15) == hex_digits(0xa1a2a3a4b1b2c1, 14).push('c'));
    assert(hex_digits(0xa1a2a3a4b1b2c1c2, 16) == hex_digits(0xa1a2a3a4b1b2c1c, 15).push('2'));
    assert(hex_digits(0xa1a2a3a4b1b2c1c2d, 17) == hex_digits(0xa1a2a3a4b1b2c1c2, 16).push('d'));
    assert(hex_digits(0xa1a2a3a4b1b2c1c2d1, 18) == hex_digits(0xa1a2a3a4b1b2c1c2d, 17).push('1'));
    assert(hex_digits(0xa1a2a3a4b1b2c1c2d1d, 19) == hex_digits(0xa1a2a3a4b1b2c1c2d1, 18).push('d'));
    assert(hex_digits(0xa1a2a3a4b1b2c1c2d1d2, 20)
        == hex_digits(0xa1a2a3a4b1b2c1c2d1d, 19).push('2'));
    assert(hex_digits(0xa1a2a3a4b1b2c1c2d1d2d, 21)
        == hex_digits(0xa1a2a3a4b1b2c1c2d1d2, 20).push('d'));
    assert(hex_digits(0xa1a2a3a4b1b2c1c2d1d2d3, 22)
        == hex_digits(0xa1a2a3a4b1b2c1c2d1d2d, 21).push('3'));
    assert(hex_digits(0xa1a2a3a4b1b2c1c2d1d2d3d, 23)
        == hex_digits(0xa1a2a3a4b1b2c1c2d1d2d3, 22).push('d'));
    assert(hex_digits(0xa1a2a3a4b1b2c1c2d1d2d3d4, 24)
        == hex_digits(0xa1a2a3a4b1b2c1c2d1d2d3d, 23).push('4'));
    assert(hex_digits(0xa1a2a3a4b1b2c1c2d1d2d3d4d, 25)
        == hex_digits(0xa1a2a3a4b1b2c1c2d1d2d3d4, 24).push('d'));
    assert(hex_digits(0xa1a2a3a4b1b2c1c2d1d2d3d4d5, 26)
        == hex_digits(0xa1a2a3a4b1b2c1c2d1d2d3d4d, 25).push('5'));
    assert(hex_digits(0xa1a2a3a4b1b2c1c2d1d2d3d4d5d, 27)
        == hex_digits(0xa1a2a3a4b1b2c1c2d1d2d3d4d5, 26).push('d'));
    assert(hex_digits(0xa1a2a3a4b1b2c1c2d1d2d3d4d5d6, 28)
        == hex_digits(0xa1a2a3a4b1b2c1c2d1d2d3d4d5d, 27).push('6'));
    assert(hex_digits(0xa1a2a3a4b1b2c1c2d1d2d3d4d5d6d, 29)
        == hex_digits(0xa1a2a3a4b1b2c1c2d1d2d3d4d5d6, 28).push('d'));
    assert(hex_digits(0xa1a2a3a4b1b2c1c2d1d2d3d4d5d6d7, 30)
        == hex_digits(0xa1a2a3a4b1b2c1c2d1d2d3d4d5d6d, 29).push('7'));
    assert(hex_digits(0xa1a2a3a4b1b2c1c2d1d2d3d4d5d6d7d, 31)
        == hex_digits(0xa1a2a3a4b1b2c1c2d1d2d3d4d5d6d7, 30).push('d'));
    assert(hex_digits(0xa1a2a3a4b1b2c1c2d1d2d3d4d5d6d7d8, 32)
        == hex_digits(0xa1a2a3a4b1b2c1c2d1d2d3d4d5d6d7d, 31).push('8'));
    assert(uuid_to_text(0xa1a2a3a4b1b2c1c2d1d2d3d4d5d6d7d8)
        =~= "a1a2a3a4-b1b2-c1c2-d1d2-d3d4d5d6d7d8"@);
}

} // verus!
