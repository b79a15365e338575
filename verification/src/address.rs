//! 20-byte EVM addresses and their hexadecimal text form.

use std::str::FromStr;
use vstd::prelude::*;

verus! {

/// Whether the hex reader passes over `c` without reading a digit.
pub open spec fn is_hex_blank(c: char) -> bool {
    c == ' ' || c == '\t' || c == '\n' || c == '\r'
}

/// The value of a hexadecimal digit, in either case.
pub open spec fn hex_digit_value(c: char) -> Option<nat> {
    if '0' <= c && c <= '9' {
        Some((c as u32 - '0' as u32) as nat)
    } else if 'a' <= c && c <= 'f' {
        Some((c as u32 - 'a' as u32 + 10) as nat)
    } else if 'A' <= c && c <= 'F' {
        Some((c as u32 - 'A' as u32 + 10) as nat)
    } else {
        None
    }
}

/// The text without one leading `0x`, if it has one.
pub open spec fn strip_0x(s: Seq<char>) -> Seq<char> {
    if s.len() >= 2 && s[0] == '0' && s[1] == 'x' {
        s.skip(2)
    } else {
        s
    }
}

/// The characters of an address text that must be digits: what is left of
/// it after an optional leading `0x` and all blanks are taken away.
pub open spec fn hex_payload(s: Seq<char>) -> Seq<char> {
    strip_0x(s).filter(|c: char| !is_hex_blank(c))
}

/// The byte that two hexadecimal digits denote, high digit first.
pub open spec fn hex_pair_value(high: char, low: char) -> u8 {
    (16 * hex_digit_value(high).unwrap() + hex_digit_value(low).unwrap()) as u8
}

/// The 20 bytes that a text denotes as an address, if it denotes one:
/// exactly 40 hexadecimal digits, after an optional `0x` prefix, with
/// blanks between them ignored.
pub open spec fn hex_address(s: Seq<char>) -> Option<Seq<u8>> {
    let digits = hex_payload(s);
    if digits.len() == 40 && (forall|i: int| 0 <= i < 40 ==> hex_digit_value(#[trigger] digits[i]) is Some) {
        Some(Seq::new(20, |i: int| hex_pair_value(digits[2 * i], digits[2 * i + 1])))
    } else {
        None
    }
}

/// A 20-byte EVM address.
#[derive(Clone, Copy, Debug, PartialEq, Eq)]
pub struct EvmAddress {
    bytes: [u8; 20],
}

impl EvmAddress {
    /// The 20 bytes of the address.
    pub closed spec fn bytes(self) -> Seq<u8> {
        self.bytes@
    }

    /// Every address has exactly 20 bytes.
    pub broadcast proof fn lemma_bytes_len(self)
        ensures
            #[trigger] self.bytes().len() == 20,
    {
    }

    /// An address is its bytes: two with the same bytes are the same.
    pub proof fn lemma_bytes_injective(self, other: Self)
        requires
            self.bytes() == other.bytes(),
        ensures
            self == other,
    {
        assert(self.bytes == other.bytes);
    }

    /// Builds the address from its 20 bytes.
    pub fn from_bytes(bytes: [u8; 20]) -> (r: Self)
        ensures
            r.bytes() == bytes@,
    {
        EvmAddress { bytes }
    }

    /// The 20 bytes of the address.
    pub fn to_bytes(&self) -> (r: [u8; 20])
        ensures
            r@ == self.bytes(),
    {
        self.bytes
    }

    /// Reads an address from its hexadecimal text, or returns `None` where
    /// the text denotes none.
    pub fn parse(s: &str) -> (r: Option<Self>)
        ensures
            r matches Some(a) ==> hex_address(s@) == Some(a.bytes()),
            r is None <==> hex_address(s@) is None,
    {
        match address_from_str(s) {
            Some(bytes) => Some(EvmAddress { bytes }),
            None => None,
        }
    }
}

/// Calls `ethabi::Address::from_str`, the `FromStr` impl of the 20-byte
/// fixed hash. The contract claims what that impl and the hex iterator
/// under it do: one leading `0x` is dropped, blanks (space, tab, line feed,
/// carriage return) are skipped wherever they stand, and the rest must be
/// exactly 40 hexadecimal digits, which are read in pairs, high digit
/// first. Any other text is an error there and `None` here.
#[verifier::external_body]
fn address_from_str(s: &str) -> (r: Option<[u8; 20]>)
    ensures
        r matches Some(bytes) ==> hex_address(s@) == Some(bytes@),
        r is None ==> hex_address(s@) is None,
{
    match ethabi::Address::from_str(s) {
        Ok(address) => Some(address.0),
        Err(_) => None,
    }
}

} // verus!
