//! Fixed-size byte strings and the 256-bit unsigned integer.

use crate::text::{decimal, law_decimal_reads_back, read_decimal};
use vstd::prelude::*;

verus! {

/// The twenty bytes of an account address.
pub type Address = [u8; 20];

/// A 32-byte string: a hash or a storage key.
pub type B256 = [u8; 32];

/// The identity of a peer: the 64 bytes of its public key, without the leading tag.
pub type PeerId = [u8; 64];

/// A 256-bit unsigned integer, as four 64-bit limbs, the least significant one first.
#[derive(Clone, Copy, Debug, PartialEq, Eq, Hash)]
pub struct U256 {
    pub limbs: [u64; 4],
}

/// Two to the power of 64: the weight of a limb relative to the one before it.
pub open spec fn limb_base() -> nat {
    0x1_0000_0000_0000_0000nat
}

impl U256 {
    /// The number that the limbs stand for.
    pub open spec fn as_nat(self) -> nat {
        self.limbs@[0] as nat + limb_base() * (self.limbs@[1] as nat + limb_base() * (
        self.limbs@[2] as nat + limb_base() * self.limbs@[3] as nat))
    }

    /// The number `x`, widened.
    pub fn from_u64(x: u64) -> (r: U256)
        ensures
            r.as_nat() == x,
    {
        U256 { limbs: [x, 0, 0, 0] }
    }

    /// The quotient, rounded down.
    pub fn div(self, rhs: U256) -> (q: U256)
        requires
            rhs.as_nat() > 0,
        ensures
            q.as_nat() == self.as_nat() / rhs.as_nat(),
    {
        u256_quotient(self, rhs)
    }

    /// The number in decimal, without leading zeros.
    pub fn to_decimal(self) -> (s: String)
        ensures
            s@ == decimal(self.as_nat()),
    {
        u256_to_string(self)
    }
}

/// Calls the `/` operator of `alloy_primitives::U256`, which panics where the divisor is zero and
/// otherwise gives the quotient, rounded down.
#[verifier::external_body]
fn u256_quotient(a: U256, b: U256) -> (q: U256)
    requires
        b.as_nat() > 0,
    ensures
        q.as_nat() == a.as_nat() / b.as_nat(),
{
    let q = alloy_primitives::U256::from_limbs(a.limbs) / alloy_primitives::U256::from_limbs(
        b.limbs,
    );
    U256 { limbs: q.into_limbs() }
}

/// Calls `to_string` of `alloy_primitives::U256`, whose `Display` writes the number in decimal,
/// without a sign, a prefix or leading zeros.
#[verifier::external_body]
fn u256_to_string(a: U256) -> (s: String)
    ensures
        s@ == decimal(a.as_nat()),
{
    alloy_primitives::U256::from_limbs(a.limbs).to_string()
}

/// The limbs are the digits of the number to the base of two to the power of 64, the lowest first.
pub proof fn law_limbs_are_digits(n: U256)
    ensures
        n.as_nat() == n.limbs@[0] + n.limbs@[1] * 0x1_0000_0000_0000_0000nat + n.limbs@[2]
            * 0x1_0000_0000_0000_0000_0000_0000_0000_0000nat + n.limbs@[3]
            * 0x1_0000_0000_0000_0000_0000_0000_0000_0000_0000_0000_0000_0000nat,
        n.as_nat() < 0x1_0000_0000_0000_0000_0000_0000_0000_0000_0000_0000_0000_0000_0000_0000_0000_0000nat,
{
    let a = n.limbs@[0] as int;
    let b = n.limbs@[1] as int;
    let c = n.limbs@[2] as int;
    let d = n.limbs@[3] as int;
    let base = 0x1_0000_0000_0000_0000int;
    assert(n.as_nat() == a + base * (b + base * (c + base * d)));
}

/// Two integers that stand for the same number have the same limbs.
pub proof fn law_numbers_tell_the_limbs(a: U256, b: U256)
    requires
        a.as_nat() == b.as_nat(),
    ensures
        a == b,
{
    law_limbs_are_digits(a);
    law_limbs_are_digits(b);
    assert(a.limbs@[0] == b.limbs@[0]);
    assert(a.limbs@[1] == b.limbs@[1]);
    assert(a.limbs@[2] == b.limbs@[2]);
    assert(a.limbs@[3] == b.limbs@[3]);
    assert(a.limbs =~= b.limbs);
}

/// A widened number is the lowest limb, and the others are zero.
pub proof fn law_widening_fills_the_lowest_limb(x: u64, r: U256)
    requires
        call_ensures(U256::from_u64, (x,), r),
    ensures
        r.limbs@[0] == x,
        r.limbs@[1] == 0,
        r.limbs@[2] == 0,
        r.limbs@[3] == 0,
{
    law_limbs_are_digits(r);
}

/// A quotient, times the divisor, misses the number by less than the divisor.
pub proof fn law_quotient_and_remainder(a: U256, b: U256, q: U256)
    requires
        b.as_nat() > 0,
        call_ensures(U256::div, (a, b), q),
    ensures
        q.as_nat() * b.as_nat() <= a.as_nat() < q.as_nat() * b.as_nat() + b.as_nat(),
{
    let n = a.as_nat() as int;
    let d = b.as_nat() as int;
    vstd::arithmetic::div_mod::lemma_fundamental_div_mod(n, d);
    vstd::arithmetic::mul::lemma_mul_is_commutative(n / d, d);
}

/// The decimal form of an integer reads back as its number.
pub proof fn law_decimal_form_reads_back(n: U256, s: String)
    requires
        call_ensures(U256::to_decimal, (n,), s),
    ensures
        read_decimal(s@) == n.as_nat(),
        s@[0] == '0' ==> s@.len() == 1,
        forall|i: int| 0 <= i < s@.len() ==> '0' <= #[trigger] s@[i] <= '9',
{
    law_decimal_reads_back(n.as_nat());
}

} // verus!
