//! Addresses, hashes and amounts as plain values.

use vstd::prelude::*;

verus! {

/// An account or contract address: twenty bytes.
#[derive(Debug, Clone, Copy, PartialEq, Eq)]
pub struct Address {
    pub bytes: [u8; 20],
}

/// A transaction hash or storage key: thirty-two bytes.
#[derive(Debug, Clone, Copy, PartialEq, Eq)]
pub struct B256 {
    pub bytes: [u8; 32],
}

/// An amount of 256 bits, as four limbs of 64 bits, the least significant
/// first.
#[derive(Debug, Clone, Copy, PartialEq, Eq)]
pub struct U256 {
    pub limbs: [u64; 4],
}

impl U256 {
    /// The number that the limbs stand for.
    pub open spec fn value(self) -> nat {
        (self.limbs[0] as nat) + (self.limbs[1] as nat) * 0x1_0000_0000_0000_0000
            + (self.limbs[2] as nat) * 0x1_0000_0000_0000_0000_0000_0000_0000_0000
            + (self.limbs[3] as nat)
            * 0x1_0000_0000_0000_0000_0000_0000_0000_0000_0000_0000_0000_0000
    }

    /// The amount that fits one limb.
    pub fn from_u64(n: u64) -> (v: Self)
        ensures
            v.value() == n,
    {
        U256 { limbs: [n, 0, 0, 0] }
    }
}

/// The digit for a value below ten.
pub open spec fn decimal_digit(d: nat) -> char {
    (d + 48) as char
}

/// A number in decimal digits, without leading zeros; zero is `0`.
pub open spec fn decimal_text(n: nat) -> Seq<char>
    decreases n,
{
    if n < 10 {
        seq![decimal_digit(n)]
    } else {
        decimal_text(n / 10).push(decimal_digit(n % 10))
    }
}

/// The text of an address with its mixed-case checksum, as
/// `alloy_primitives::Address` displays it.
pub uninterp spec fn checksum_text(address: Seq<u8>) -> Seq<char>;

/// Formats through `alloy_primitives::Address`'s `Display`. Its result is a
/// function of the twenty bytes alone and is known here only by name.
#[verifier::external_body]
pub(crate) fn address_to_string(address: &Address) -> (text: String)
    ensures
        text@ == checksum_text(address.bytes@),
{
    alloy_primitives::Address::from(address.bytes).to_string()
}

/// Formats through `alloy_primitives::U256`'s `Display`. Believed of it: the
/// text is the amount in decimal digits without leading zeros.
#[verifier::external_body]
pub(crate) fn u256_to_decimal(amount: &U256) -> (text: String)
    ensures
        text@ == decimal_text(amount.value()),
{
    alloy_primitives::U256::from_limbs(amount.limbs).to_string()
}

/// Formats through `u128`'s `Display`. Believed of it: the text is the number
/// in decimal digits without leading zeros.
#[verifier::external_body]
pub(crate) fn u128_to_decimal(n: u128) -> (text: String)
    ensures
        text@ == decimal_text(n as nat),
{
    n.to_string()
}

} // verus!
