//! Identifiers of accounts and events.

use vstd::prelude::*;

verus! {

/// Whether 128 bits carry the version and variant marks of a random (version 4)
/// UUID.
pub open spec fn is_random_uuid(bits: u128) -> bool {
    bits & 0x0000_0000_0000_f000_c000_0000_0000_0000u128
        == 0x0000_0000_0000_4000_8000_0000_0000_0000u128
}

/// Calls `uuid::Uuid::new_v4` and hands the UUID out as its 128-bit value
/// (`Uuid::as_u128`).
///
/// Trusted: the value carries version 4 and the RFC variant, which `new_v4`
/// sets by masking whatever the random source gave. Nothing is claimed of the
/// other 122 bits.
#[verifier::external_body]
fn random_uuid_bits() -> (bits: u128)
    ensures
        is_random_uuid(bits),
{
    uuid::Uuid::new_v4().as_u128()
}

/// What `uuid::Uuid::parse_str` makes of a text: the 128-bit value of the UUID
/// it reads, or nothing where it refuses the text.
pub uninterp spec fn parsed_uuid(text: Seq<char>) -> Option<u128>;

/// Calls `uuid::Uuid::parse_str` and hands the UUID out as its 128-bit value
/// (`Uuid::as_u128`).
///
/// Trusted: the outcome is a function of the text alone. Which texts are
/// accepted, and with what value, is left to the parser.
#[verifier::external_body]
fn parse_uuid_bits(text: &str) -> (r: Option<u128>)
    ensures
        r == parsed_uuid(text@),
{
    match uuid::Uuid::parse_str(text) {
        Ok(id) => Some(id.as_u128()),
        Err(_) => None,
    }
}

/// The identifier of an account: the 128-bit value of a UUID.
#[derive(Debug, Clone, Copy, PartialEq, Eq, Hash, Structural)]
pub struct AccountId(pub u128);

/// The identifier of an event: the 128-bit value of a UUID.
#[derive(Debug, Clone, Copy, PartialEq, Eq, Hash, Structural)]
pub struct EventId(pub u128);

impl AccountId {
    /// A fresh random identifier.
    pub fn new_v4() -> (id: Self)
        ensures
            is_random_uuid(id.0),
    {
        AccountId(random_uuid_bits())
    }

    /// The account a UUID in text form names, if the text is a UUID.
    pub fn parse_str(text: &str) -> (r: Option<Self>)
        ensures
            r == Self::of_parsed(parsed_uuid(text@)),
    {
        Self::from_parsed(parse_uuid_bits(text))
    }

    /// The identifier a parsed UUID stands for.
    pub open spec fn of_parsed(parsed: Option<u128>) -> Option<Self> {
        match parsed {
            Some(bits) => Some(AccountId(bits)),
            None => None,
        }
    }

    /// The account a parsed UUID names, if the parse gave one.
    pub fn from_parsed(parsed: Option<u128>) -> (r: Option<Self>)
        ensures
            r == Self::of_parsed(parsed),
    {
        match parsed {
            Some(bits) => Some(AccountId(bits)),
            None => None,
        }
    }

    /// The identifier with the given 128-bit value.
    pub fn from_u128(bits: u128) -> (id: Self)
        ensures
            id == AccountId(bits),
    {
        AccountId(bits)
    }

    /// The 128-bit value of the identifier.
    pub fn as_u128(&self) -> (bits: u128)
        ensures
            bits == self.0,
    {
        self.0
    }
}

impl EventId {
    /// A fresh random identifier.
    pub fn new_v4() -> (id: Self)
        ensures
            is_random_uuid(id.0),
    {
        EventId(random_uuid_bits())
    }

    /// The identifier with the given 128-bit value.
    pub fn from_u128(bits: u128) -> (id: Self)
        ensures
            id == EventId(bits),
    {
        EventId(bits)
    }

    /// The 128-bit value of the identifier.
    pub fn as_u128(&self) -> (bits: u128)
        ensures
            bits == self.0,
    {
        self.0
    }
}

} // verus!
