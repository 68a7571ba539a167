//! Fixed-width unsigned integers as little-endian arrays of 64-bit limbs,
//! each with its value as a natural number.

use vstd::arithmetic::power2::{lemma2_to64, lemma_pow2_adds, pow2};
use vstd::prelude::*;

verus! {

/// 2^256: the first value that a [`U256`] cannot hold.
pub open spec fn pow2_256() -> nat {
    0x1_0000_0000_0000_0000_0000_0000_0000_0000_0000_0000_0000_0000_0000_0000_0000_0000nat
}

/// The constant [`pow2_256`] is two to the power 256.
pub proof fn lemma_pow2_256_is_power_of_two()
    ensures
        pow2_256() == pow2(256),
{
    lemma2_to64();
    lemma_pow2_adds(64, 64);
    lemma_pow2_adds(128, 128);
    let limb = pow2(64);
    let two_limbs = pow2(128);
    assert(two_limbs == 0x1_0000_0000_0000_0000_0000_0000_0000_0000nat) by (nonlinear_arith)
        requires
            limb == 0x1_0000_0000_0000_0000nat,
            two_limbs == limb * limb,
    ;
    assert(two_limbs * two_limbs == pow2_256()) by (nonlinear_arith)
        requires
            two_limbs == 0x1_0000_0000_0000_0000_0000_0000_0000_0000nat,
    ;
}

/// The number that four little-endian 64-bit limbs stand for.
pub open spec fn limbs4_value(l: Seq<u64>) -> nat
    recommends
        l.len() == 4,
{
    (l[0] as nat) + (l[1] as nat) * 0x1_0000_0000_0000_0000nat + (l[2] as nat)
        * 0x1_0000_0000_0000_0000_0000_0000_0000_0000nat + (l[3] as nat)
        * 0x1_0000_0000_0000_0000_0000_0000_0000_0000_0000_0000_0000_0000nat
}

/// The number that eight little-endian 64-bit limbs stand for: the low four
/// limbs, and the high four limbs weighted by 2^256.
pub open spec fn limbs8_value(l: Seq<u64>) -> nat
    recommends
        l.len() == 8,
{
    limbs4_value(l.subrange(0, 4)) + limbs4_value(l.subrange(4, 8)) * pow2_256()
}

/// A 256-bit unsigned integer.
#[derive(Clone, Copy, Debug, PartialEq, Eq)]
pub struct U256 {
    /// The four limbs, least significant first.
    pub limbs: [u64; 4],
}

impl View for U256 {
    type V = nat;

    open spec fn view(&self) -> nat {
        limbs4_value(self.limbs@)
    }
}

/// Every value of four limbs is below 2^256.
pub proof fn lemma_limbs4_bound(l: Seq<u64>)
    requires
        l.len() == 4,
    ensures
        limbs4_value(l) < pow2_256(),
{
}

/// Four limbs are determined by the number they stand for.
pub proof fn lemma_limbs4_injective(l: Seq<u64>, m: Seq<u64>)
    requires
        l.len() == 4,
        m.len() == 4,
        limbs4_value(l) == limbs4_value(m),
    ensures
        l =~= m,
{
}

/// Two 256-bit integers with the same value are the same.
pub proof fn lemma_u256_determined_by_value(a: U256, b: U256)
    requires
        a@ == b@,
    ensures
        a == b,
{
    lemma_limbs4_injective(a.limbs@, b.limbs@);
    assert(a.limbs == b.limbs);
}

/// Adds two limbs and an incoming carry; gives the low 64 bits of the sum and
/// the outgoing carry.
fn add_with_carry(x: u64, y: u64, carry_in: bool) -> (r: (u64, bool))
    ensures
        r.0 + (if r.1 { 0x1_0000_0000_0000_0000int } else { 0int }) == x + y + (if carry_in {
            1int
        } else {
            0int
        }),
{
    let c: u128 = if carry_in { 1 } else { 0 };
    let sum: u128 = x as u128 + y as u128 + c;
    if sum >= 0x1_0000_0000_0000_0000u128 {
        ((sum - 0x1_0000_0000_0000_0000u128) as u64, true)
    } else {
        (sum as u64, false)
    }
}

impl U256 {
    /// The value 0.
    pub fn zero() -> (r: U256)
        ensures
            r@ == 0,
    {
        U256 { limbs: [0, 0, 0, 0] }
    }

    /// The largest value, 2^256 - 1.
    pub fn max_value() -> (r: U256)
        ensures
            r@ == pow2_256() - 1,
    {
        U256 {
            limbs: [
                0xffff_ffff_ffff_ffff,
                0xffff_ffff_ffff_ffff,
                0xffff_ffff_ffff_ffff,
                0xffff_ffff_ffff_ffff,
            ],
        }
    }

    /// The 256-bit integer with the value of `x`.
    pub fn from_u64(x: u64) -> (r: U256)
        ensures
            r@ == x,
    {
        U256 { limbs: [x, 0, 0, 0] }
    }

    /// The 256-bit integer with the given limbs, least significant first.
    pub fn from_limbs(limbs: [u64; 4]) -> (r: U256)
        ensures
            r.limbs == limbs,
            r@ == limbs4_value(limbs@),
    {
        U256 { limbs }
    }

    /// The limbs, least significant first.
    pub fn into_limbs(self) -> (r: [u64; 4])
        ensures
            r == self.limbs,
            limbs4_value(r@) == self@,
    {
        self.limbs
    }

    /// Whether the value is 0.
    pub fn is_zero(&self) -> (r: bool)
        ensures
            r == (self@ == 0),
    {
        self.limbs[0] == 0 && self.limbs[1] == 0 && self.limbs[2] == 0 && self.limbs[3] == 0
    }

    /// Whether both integers have the same value.
    pub fn same_value(&self, other: &U256) -> (r: bool)
        ensures
            r == (self@ == other@),
            r == (*self == *other),
    {
        proof {
            if self@ == other@ {
                lemma_u256_determined_by_value(*self, *other);
            }
        }
        self.limbs[0] == other.limbs[0] && self.limbs[1] == other.limbs[1] && self.limbs[2]
            == other.limbs[2] && self.limbs[3] == other.limbs[3]
    }

    /// Whether the value is at most that of `other`.
    pub fn le(&self, other: &U256) -> (r: bool)
        ensures
            r == (self@ <= other@),
    {
        if self.limbs[3] != other.limbs[3] {
            self.limbs[3] < other.limbs[3]
        } else if self.limbs[2] != other.limbs[2] {
            self.limbs[2] < other.limbs[2]
        } else if self.limbs[1] != other.limbs[1] {
            self.limbs[1] < other.limbs[1]
        } else {
            self.limbs[0] <= other.limbs[0]
        }
    }

    /// The sum, or `None` where it does not fit in 256 bits.
    pub fn checked_add(self, rhs: U256) -> (r: Option<U256>)
        ensures
            self@ + rhs@ < pow2_256() ==> r.is_some() && r.unwrap()@ == self@ + rhs@,
            self@ + rhs@ >= pow2_256() ==> r.is_none(),
    {
        let (l0, c0) = add_with_carry(self.limbs[0], rhs.limbs[0], false);
        let (l1, c1) = add_with_carry(self.limbs[1], rhs.limbs[1], c0);
        let (l2, c2) = add_with_carry(self.limbs[2], rhs.limbs[2], c1);
        let (l3, c3) = add_with_carry(self.limbs[3], rhs.limbs[3], c2);
        let sum = U256 { limbs: [l0, l1, l2, l3] };
        if c3 {
            None
        } else {
            Some(sum)
        }
    }
}

/// A 512-bit unsigned integer: the full product of two [`U256`] values and
/// what is computed from it before the result is narrowed again.
#[derive(Clone, Copy, Debug)]
pub(crate) struct U512 {
    /// The eight limbs, least significant first.
    pub limbs: [u64; 8],
}

impl View for U512 {
    type V = nat;

    closed spec fn view(&self) -> nat {
        limbs8_value(self.limbs@)
    }
}

impl U512 {
    /// Whether the value fits in 256 bits: whether the high four limbs are 0.
    pub(crate) fn fits_u256(&self) -> (r: bool)
        ensures
            r == (self@ < pow2_256()),
    {
        proof {
            lemma_limbs4_bound(self.limbs@.subrange(0, 4));
        }
        self.limbs[4] == 0 && self.limbs[5] == 0 && self.limbs[6] == 0 && self.limbs[7] == 0
    }

    /// The low four limbs: the value modulo 2^256.
    pub(crate) fn low_half(&self) -> (r: U256)
        ensures
            r@ == self@ % pow2_256(),
            self@ < pow2_256() ==> r@ == self@,
    {
        let r = U256 { limbs: [self.limbs[0], self.limbs[1], self.limbs[2], self.limbs[3]] };
        proof {
            assert(r.limbs@ =~= self.limbs@.subrange(0, 4));
            lemma_limbs4_bound(self.limbs@.subrange(0, 4));
        }
        r
    }
}

} // verus!
