//! Values of the contract-model chain: addresses, transaction hashes and the
//! unsigned integers of its call interface.

use vstd::prelude::*;

verus! {

/// A 20-byte account or contract address.
#[derive(Clone, Copy, Debug, PartialEq, Eq)]
pub struct Address {
    pub bytes: [u8; 20],
}

impl View for Address {
    type V = Seq<u8>;

    open spec fn view(&self) -> Seq<u8> {
        self.bytes@
    }
}

/// The 32-byte hash that names a transaction.
#[derive(Clone, Copy, Debug, PartialEq, Eq)]
pub struct TxHash {
    pub bytes: [u8; 32],
}

impl Default for Address {
    fn default() -> (address: Address)
        ensures
            address@ == Address::zero(),
    {
        let address = Address { bytes: [0u8; 20] };
        assert(address@ =~= Address::zero());
        address
    }
}

impl View for TxHash {
    type V = Seq<u8>;

    open spec fn view(&self) -> Seq<u8> {
        self.bytes@
    }
}

/// An unsigned integer of 24 bits, the width of a pool's fee tier.
#[derive(Clone, Copy, Debug, PartialEq, Eq)]
pub struct U24 {
    value: u32,
}

impl View for U24 {
    type V = nat;

    closed spec fn view(&self) -> nat {
        self.value as nat
    }
}

impl Default for U24 {
    fn default() -> (number: U24)
        ensures
            number@ == 0,
    {
        U24 { value: 0 }
    }
}

impl U24 {
    /// One more than the largest value of 24 bits.
    pub const LIMIT: u32 = 0x100_0000;

    #[verifier::type_invariant]
    spec fn in_range(self) -> bool {
        self.value < U24::LIMIT
    }

    /// The number `value`, if 24 bits hold it.
    pub fn new(value: u32) -> (number: Option<U24>)
        ensures
            match number {
                Some(number) => number@ == value && value < U24::LIMIT,
                None => value >= U24::LIMIT,
            },
    {
        if value < U24::LIMIT {
            Some(U24 { value })
        } else {
            None
        }
    }

    /// The number `value`; sixteen bits always fit.
    pub fn from_u16(value: u16) -> (number: U24)
        ensures
            number@ == value,
    {
        U24 { value: value as u32 }
    }

    pub fn get(&self) -> (value: u32)
        ensures
            value == self@,
            value < U24::LIMIT,
    {
        proof {
            use_type_invariant(self);
        }
        self.value
    }
}

/// An unsigned integer of 160 bits, the width of a price limit. The library
/// only ever makes zero, which stands for "no limit".
#[derive(Clone, Copy, Debug, PartialEq, Eq)]
pub struct U160 {
    limbs: [u64; 3],
}

impl View for U160 {
    type V = nat;

    closed spec fn view(&self) -> nat {
        (self.limbs[0] + self.limbs[1] * 0x1_0000_0000_0000_0000 + self.limbs[2]
            * 0x1_0000_0000_0000_0000_0000_0000_0000_0000) as nat
    }
}

impl U160 {
    #[verifier::type_invariant]
    spec fn in_range(self) -> bool {
        self.limbs[2] < 0x1_0000_0000
    }

    pub fn zero() -> (number: U160)
        ensures
            number@ == 0,
    {
        U160 { limbs: [0, 0, 0] }
    }

    /// The number in three 64-bit digits, least significant first. The last
    /// digit is below 2^32.
    pub fn as_limbs(&self) -> (limbs: [u64; 3])
        ensures
            limbs[0] + limbs[1] * 0x1_0000_0000_0000_0000 + limbs[2]
                * 0x1_0000_0000_0000_0000_0000_0000_0000_0000 == self@,
            limbs[2] < 0x1_0000_0000,
    {
        proof {
            use_type_invariant(self);
        }
        self.limbs
    }
}

/// An unsigned integer of 256 bits in four 64-bit digits, least significant
/// first.
#[derive(Clone, Copy, Debug, PartialEq, Eq)]
pub struct U256 {
    pub limbs: [u64; 4],
}

impl View for U256 {
    type V = nat;

    open spec fn view(&self) -> nat {
        (self.limbs[0] + self.limbs[1] * 0x1_0000_0000_0000_0000 + self.limbs[2]
            * 0x1_0000_0000_0000_0000_0000_0000_0000_0000 + self.limbs[3]
            * 0x1_0000_0000_0000_0000_0000_0000_0000_0000_0000_0000_0000_0000) as nat
    }
}

impl Default for U256 {
    fn default() -> (number: U256)
        ensures
            number@ == 0,
    {
        U256 { limbs: [0, 0, 0, 0] }
    }
}

impl U256 {
    pub fn from_u64(value: u64) -> (number: U256)
        ensures
            number@ == value,
    {
        U256 { limbs: [value, 0, 0, 0] }
    }
}

/// The value of a hexadecimal digit of either case.
pub open spec fn hex_digit_value(digit: char) -> Option<nat> {
    if '0' <= digit <= '9' {
        Some((digit as nat - '0' as nat) as nat)
    } else if 'a' <= digit <= 'f' {
        Some((digit as nat - 'a' as nat + 10) as nat)
    } else if 'A' <= digit <= 'F' {
        Some((digit as nat - 'A' as nat + 10) as nat)
    } else {
        None
    }
}

/// `text` without a leading `0x` or `0X`.
pub open spec fn strip_hex_prefix(text: Seq<char>) -> Seq<char> {
    if text.len() >= 2 && text[0] == '0' && (text[1] == 'x' || text[1] == 'X') {
        text.skip(2)
    } else {
        text
    }
}

/// The address that `text` spells: forty hexadecimal digits of either case,
/// two for each byte, with or without a `0x` prefix. Any other text spells
/// none.
pub open spec fn parse_address(text: Seq<char>) -> Option<Seq<u8>> {
    let digits = strip_hex_prefix(text);
    if digits.len() == 40 && (forall|i: int|
        0 <= i < 40 ==> hex_digit_value(#[trigger] digits[i]) is Some) {
        Some(
            Seq::new(
                20,
                |i: int|
                    (16 * hex_digit_value(digits[2 * i])->0 + hex_digit_value(
                        digits[2 * i + 1],
                    )->0) as u8,
            ),
        )
    } else {
        None
    }
}

/// The lower-case hexadecimal digit of a value below sixteen.
pub open spec fn hex_digit(value: nat) -> char {
    if value < 10 {
        ('0' as nat + value) as char
    } else {
        ('a' as nat + value - 10) as char
    }
}

/// `bytes` in lower-case hexadecimal digits, two for each byte.
pub open spec fn lower_hex(bytes: Seq<u8>) -> Seq<char> {
    Seq::new(
        2 * bytes.len(),
        |i: int|
            if i % 2 == 0 {
                hex_digit(bytes[i / 2] as nat / 16)
            } else {
                hex_digit(bytes[i / 2] as nat % 16)
            },
    )
}

/// `bytes` as the chain's tools print them: `0x`, then the digits.
pub open spec fn prefixed_hex(bytes: Seq<u8>) -> Seq<char> {
    seq!['0', 'x'] + lower_hex(bytes)
}

/// The message with which `alloy::primitives::Address` refuses to parse
/// `text`.
pub uninterp spec fn address_parse_error(text: Seq<char>) -> Seq<char>;

/// `alloy::primitives::Address::from_str`: it accepts forty hexadecimal
/// digits, of either case and with or without a `0x` prefix, and decodes them
/// two to a byte. It refuses every other text; the message is the one its
/// error displays.
#[verifier::external_body]
fn address_from_str(text: &str) -> (parsed: Result<Address, String>)
    ensures
        match parsed {
            Ok(address) => parse_address(text@) == Some(address@),
            Err(message) => parse_address(text@) is None && message@ == address_parse_error(
                text@,
            ),
        },
{
    match text.parse::<alloy::primitives::Address>() {
        Ok(address) => Ok(Address { bytes: address.into_array() }),
        Err(error) => Err(error.to_string()),
    }
}

/// `Display` of `alloy::primitives::B256`: `0x` and the 64 lower-case
/// hexadecimal digits of the hash.
#[verifier::external_body]
fn tx_hash_to_string(hash: &TxHash) -> (text: String)
    ensures
        text@ == prefixed_hex(hash@),
{
    alloy::primitives::B256::new(hash.bytes).to_string()
}

impl Address {
    /// The address of twenty zero bytes, which stands for the chain's native
    /// asset.
    pub open spec fn zero() -> Seq<u8> {
        Seq::new(20, |i: int| 0u8)
    }

    /// Whether the two addresses are the same twenty bytes.
    pub fn same_as(&self, other: &Address) -> (same: bool)
        ensures
            same == (self@ == other@),
    {
        let mut i: usize = 0;
        while i < 20
            invariant
                i <= 20,
                forall|j: int| 0 <= j < i ==> self.bytes[j] == other.bytes[j],
            decreases 20 - i,
        {
            if self.bytes[i] != other.bytes[i] {
                return false;
            }
            i = i + 1;
        }
        assert(self@ =~= other@);
        true
    }

    /// Reads an address from its hexadecimal spelling.
    pub fn from_hex(text: &str) -> (parsed: Result<Address, String>)
        ensures
            match parsed {
                Ok(address) => parse_address(text@) == Some(address@),
                Err(message) => parse_address(text@) is None && message@ == address_parse_error(
                    text@,
                ),
            },
    {
        address_from_str(text)
    }
}

impl TxHash {
    /// The hash as the chain's tools print it.
    pub fn to_hex(&self) -> (text: String)
        ensures
            text@ == prefixed_hex(self@),
    {
        tx_hash_to_string(self)
    }
}

} // verus!
