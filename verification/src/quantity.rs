//! Natural numbers of any size, as the remote ledger counts tokens and blocks.

use vstd::prelude::*;
use num_traits::ToPrimitive;
use crate::bytes::same_bytes;

verus! {

/// The number that `bytes` spell in base 256, most significant byte first.
pub open spec fn be_value(bytes: Seq<u8>) -> nat
    decreases bytes.len(),
{
    if bytes.len() == 0 {
        0
    } else {
        be_value(bytes.drop_last()) * 256 + bytes.last() as nat
    }
}

/// A leading zero byte does not change the number.
pub proof fn lemma_leading_zero(bytes: Seq<u8>)
    requires
        bytes.len() > 0,
        bytes[0] == 0,
    ensures
        be_value(bytes) == be_value(bytes.drop_first()),
    decreases bytes.len(),
{
    if bytes.len() == 1 {
        assert(be_value(bytes.drop_last()) == 0);
        assert(bytes.last() == 0);
        assert(be_value(bytes.drop_first()) == 0);
    } else {
        let rest = bytes.drop_first();
        lemma_leading_zero(bytes.drop_last());
        assert(bytes.drop_last().drop_first() =~= rest.drop_last());
        assert(rest.last() == bytes.last());
        assert(be_value(rest) == be_value(rest.drop_last()) * 256 + rest.last() as nat);
    }
}

/// Whether `bytes` start with a byte that counts: no leading zero.
pub open spec fn is_canonical(bytes: Seq<u8>) -> bool {
    bytes.len() == 0 || bytes[0] != 0
}

/// 256 to the power of `digits`.
pub open spec fn radix_power(digits: nat) -> nat
    decreases digits,
{
    if digits == 0 {
        1
    } else {
        radix_power((digits - 1) as nat) * 256
    }
}

/// More digits give a larger power.
pub proof fn lemma_radix_power_grows(fewer: nat, more: nat)
    requires
        fewer <= more,
    ensures
        radix_power(fewer) <= radix_power(more),
        radix_power(fewer) >= 1,
    decreases more,
{
    if fewer < more {
        lemma_radix_power_grows(fewer, (more - 1) as nat);
    } else if fewer > 0 {
        lemma_radix_power_grows((fewer - 1) as nat, (fewer - 1) as nat);
    }
}

/// A number of `n` bytes is below 256 to the `n`, and not below 256 to the
/// `n - 1` where its first byte counts.
pub proof fn lemma_value_bounds(bytes: Seq<u8>)
    ensures
        be_value(bytes) < radix_power(bytes.len()),
        bytes.len() > 0 && bytes[0] != 0 ==> be_value(bytes) >= radix_power(
            (bytes.len() - 1) as nat,
        ),
    decreases bytes.len(),
{
    if bytes.len() > 0 {
        lemma_value_bounds(bytes.drop_last());
        if bytes.len() == 1 {
            assert(be_value(bytes.drop_last()) == 0);
            assert(bytes.last() == bytes[0]);
        } else {
            assert(bytes.drop_last()[0] == bytes[0]);
        }
    }
}

/// Byte strings of one length that spell one number are the same.
pub proof fn lemma_same_length_same_value(a: Seq<u8>, b: Seq<u8>)
    requires
        a.len() == b.len(),
        be_value(a) == be_value(b),
    ensures
        a == b,
    decreases a.len(),
{
    if a.len() > 0 {
        assert(be_value(a.drop_last()) == be_value(b.drop_last()) && a.last() == b.last());
        lemma_same_length_same_value(a.drop_last(), b.drop_last());
        assert(a =~= a.drop_last().push(a.last()));
        assert(b =~= b.drop_last().push(b.last()));
    } else {
        assert(a =~= b);
    }
}

/// A number has one spelling without leading zeros.
pub proof fn lemma_canonical_is_unique(a: Seq<u8>, b: Seq<u8>)
    requires
        is_canonical(a),
        is_canonical(b),
    ensures
        be_value(a) == be_value(b) <==> a == b,
{
    if be_value(a) == be_value(b) {
        lemma_value_bounds(a);
        lemma_value_bounds(b);
        if a.len() < b.len() {
            lemma_radix_power_grows(a.len(), (b.len() - 1) as nat);
        } else if b.len() < a.len() {
            lemma_radix_power_grows(b.len(), (a.len() - 1) as nat);
        }
        lemma_same_length_same_value(a, b);
    }
}

/// Writes `value` as a `candid::Nat` and hands out its big-endian bytes
/// (`BigUint::to_bytes_be`).
///
/// Trusted: the bytes spell `value`.
#[verifier::external_body]
fn nat_bytes_of_u64(value: u64) -> (bytes: Vec<u8>)
    ensures
        be_value(bytes@) == value,
{
    candid::Nat::from(value).0.to_bytes_be()
}

/// Reads big-endian bytes as a `candid::Nat` (`BigUint::from_bytes_be`) and
/// narrows it with `num_traits::ToPrimitive::to_u64`.
///
/// Trusted: the result is the number that the bytes spell where it fits in 64
/// bits, and `None` where it does not.
#[verifier::external_body]
fn nat_bytes_to_u64(bytes: &Vec<u8>) -> (value: Option<u64>)
    ensures
        value == (if be_value(bytes@) <= u64::MAX {
            Some(be_value(bytes@) as u64)
        } else {
            None
        }),
{
    candid::Nat::from(num_bigint::BigUint::from_bytes_be(bytes)).0.to_u64()
}

/// A natural number, held as big-endian bytes without leading zeros.
#[derive(Debug, PartialEq, Eq)]
pub struct Quantity {
    be_bytes: Vec<u8>,
}

impl View for Quantity {
    type V = nat;

    closed spec fn view(&self) -> nat {
        be_value(self.be_bytes@)
    }
}

impl Clone for Quantity {
    fn clone(&self) -> (copy: Self)
        ensures
            copy@ == self@,
    {
        proof {
            use_type_invariant(self);
        }
        let be_bytes = self.be_bytes.clone();
        assert(be_bytes@ =~= self.be_bytes@);
        Quantity { be_bytes }
    }
}

impl Quantity {
    #[verifier::type_invariant]
    spec fn canonical(&self) -> bool {
        is_canonical(self.be_bytes@)
    }

    /// The number that `bytes` spell, most significant byte first.
    pub fn from_be_bytes(bytes: Vec<u8>) -> (quantity: Quantity)
        ensures
            quantity@ == be_value(bytes@),
    {
        let mut bytes = bytes;
        let mut zeros: usize = 0;
        assert(bytes@.subrange(0, bytes@.len() as int) =~= bytes@);
        while zeros < bytes.len() && bytes[zeros] == 0
            invariant
                zeros <= bytes@.len(),
                be_value(bytes@) == be_value(bytes@.subrange(zeros as int, bytes@.len() as int)),
            decreases bytes@.len() - zeros,
        {
            proof {
                let rest = bytes@.subrange(zeros as int, bytes@.len() as int);
                lemma_leading_zero(rest);
                assert(rest.drop_first() =~= bytes@.subrange(zeros + 1, bytes@.len() as int));
            }
            zeros += 1;
        }
        let be_bytes = bytes.split_off(zeros);
        Quantity { be_bytes }
    }

    /// The quantity `value`.
    pub fn from_u64(value: u64) -> (quantity: Quantity)
        ensures
            quantity@ == value,
    {
        Quantity::from_be_bytes(nat_bytes_of_u64(value))
    }

    /// The quantity's bytes, most significant first, without leading zeros.
    pub fn as_be_bytes(&self) -> (bytes: &Vec<u8>)
        ensures
            be_value(bytes@) == self@,
            is_canonical(bytes@),
    {
        proof {
            use_type_invariant(self);
        }
        &self.be_bytes
    }

    /// Whether two quantities count the same.
    pub fn same_as(&self, other: &Quantity) -> (same: bool)
        ensures
            same == (self@ == other@),
    {
        proof {
            use_type_invariant(self);
            use_type_invariant(other);
            lemma_canonical_is_unique(self.be_bytes@, other.be_bytes@);
        }
        same_bytes(&self.be_bytes, &other.be_bytes)
    }

    /// The quantity as a 64-bit number, where it is small enough.
    pub fn to_u64(&self) -> (value: Option<u64>)
        ensures
            value == (if self@ <= u64::MAX {
                Some(self@ as u64)
            } else {
                None
            }),
    {
        nat_bytes_to_u64(&self.be_bytes)
    }
}

} // verus!
