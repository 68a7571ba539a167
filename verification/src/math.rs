//! Multiply-then-divide on 256-bit integers, with the product held in 512
//! bits so that only a quotient that does not fit is an overflow.

use crate::uint::{pow2_256, U256, U512};
use vstd::arithmetic::div_mod::{
    lemma_basic_div, lemma_div_basics, lemma_div_of0, lemma_fundamental_div_mod, lemma_mod_bound,
    lemma_small_mod,
};
use vstd::prelude::*;

verus! {

/// Why an arithmetic operation gave no result.
#[derive(Clone, Copy, Debug, PartialEq, Eq)]
pub enum Error {
    /// The divisor was zero.
    DivisionByZero,
    /// The exact result does not fit in 256 bits.
    Overflow,
}

/// `floor(a * b / c)` as a 256-bit result: an error where `c` is zero or the
/// quotient is 2^256 or more.
pub open spec fn mul_div_floor(a: nat, b: nat, c: nat) -> Result<nat, Error> {
    if c == 0 {
        Err(Error::DivisionByZero)
    } else if (a * b) / c >= pow2_256() {
        Err(Error::Overflow)
    } else {
        Ok((a * b) / c)
    }
}

/// Whether dividing `a * b` by a nonzero `c` leaves a remainder.
pub open spec fn mul_div_inexact(a: nat, b: nat, c: nat) -> bool {
    (a * b) % c != 0
}

/// With a zero divisor there is no result, whatever the factors.
pub proof fn lemma_mul_div_zero_divisor(a: nat, b: nat)
    ensures
        mul_div_floor(a, b, 0) == Err::<nat, Error>(Error::DivisionByZero),
{
}

/// With a zero factor and a nonzero divisor the result is zero, and exact.
pub proof fn lemma_mul_div_zero_factor(a: nat, b: nat, c: nat)
    requires
        c != 0,
        a == 0 || b == 0,
    ensures
        mul_div_floor(a, b, c) == Ok::<nat, Error>(0),
        !mul_div_inexact(a, b, c),
{
    assert(a * b == 0) by (nonlinear_arith)
        requires
            a == 0 || b == 0,
    ;
    lemma_div_of0(c as int);
    lemma_small_mod(0, c);
}

/// A product below the divisor gives zero: the whole product is the remainder.
pub proof fn lemma_mul_div_small_product(a: nat, b: nat, c: nat)
    requires
        a * b < c,
    ensures
        mul_div_floor(a, b, c) == Ok::<nat, Error>(0),
        (a * b) % c == a * b,
{
    lemma_basic_div((a * b) as int, c as int);
    lemma_small_mod(a * b, c);
}

/// With divisor one the result is the product where it fits in 256 bits, and
/// an overflow where it does not.
pub proof fn lemma_mul_div_by_one(a: nat, b: nat)
    ensures
        a * b < pow2_256() ==> mul_div_floor(a, b, 1) == Ok::<nat, Error>(a * b),
        a * b >= pow2_256() ==> mul_div_floor(a, b, 1) == Err::<nat, Error>(Error::Overflow),
{
    lemma_div_basics((a * b) as int);
}

/// The result is the quotient rounded down: the largest `q` with
/// `q * c <= a * b`.
pub proof fn lemma_mul_div_rounds_down(a: nat, b: nat, c: nat, q: nat)
    requires
        mul_div_floor(a, b, c) == Ok::<nat, Error>(q),
    ensures
        q * c <= a * b < (q + 1) * c,
{
    let p = a * b;
    lemma_fundamental_div_mod(p as int, c as int);
    lemma_mod_bound(p as int, c as int);
    assert(q * c <= p < (q + 1) * c) by (nonlinear_arith)
        requires
            p == c * q + (p % c),
            0 <= p % c < c,
    ;
}

/// For a nonzero divisor there is a result exactly where the product is below
/// the divisor times 2^256.
pub proof fn lemma_mul_div_fits_iff(a: nat, b: nat, c: nat)
    requires
        c != 0,
    ensures
        mul_div_floor(a, b, c) is Ok <==> a * b < c * pow2_256(),
{
    let p = a * b;
    let q = p / c;
    let w = pow2_256();
    lemma_fundamental_div_mod(p as int, c as int);
    lemma_mod_bound(p as int, c as int);
    assert(q < w <==> p < c * w) by (nonlinear_arith)
        requires
            p == c * q + (p % c),
            0 <= p % c < c,
            c > 0,
    ;
}

/// Calls `ruint::Uint::widening_mul` on two 256-bit integers with a 512-bit
/// result. The contract claims that the result is the exact product, which
/// always fits in 512 bits.
#[verifier::external_body]
fn widening_mul(a: U256, b: U256) -> (product: U512)
    ensures
        product@ == a@ * b@,
{
    let x = ruint::Uint::<256, 4>::from_limbs(a.limbs);
    let y = ruint::Uint::<256, 4>::from_limbs(b.limbs);
    U512 { limbs: x.widening_mul::<256, 4, 512, 8>(y).into_limbs() }
}

/// Calls `ruint::algorithms::div`, which divides a number given by its limbs
/// by another, leaves the quotient in place of the numerator and the remainder
/// in place of the divisor, and panics on a zero divisor. The contract claims
/// that for a nonzero divisor the two results are the floor of the quotient and
/// the remainder.
#[verifier::external_body]
fn div_rem(numerator: U512, divisor: U256) -> (r: (U512, U256))
    requires
        divisor@ != 0,
    ensures
        r.0@ == numerator@ / divisor@,
        r.1@ == numerator@ % divisor@,
{
    let mut quotient = numerator.limbs;
    let mut remainder = divisor.limbs;
    ruint::algorithms::div(&mut quotient, &mut remainder);
    (U512 { limbs: quotient }, U256 { limbs: remainder })
}

/// Returns `floor(a * b / c)` and whether the division left a remainder.
///
/// The product is formed in 512 bits, so it never overflows; the result is an
/// error only where the divisor is zero or the quotient does not fit in 256
/// bits.
pub fn _mul_div(a: U256, b: U256, denom_and_rem: U256) -> (r: Result<(U256, bool), Error>)
    ensures
        match r {
            Ok((quotient, has_carry)) => mul_div_floor(a@, b@, denom_and_rem@) == Ok::<nat, Error>(
                quotient@,
            ) && has_carry == mul_div_inexact(a@, b@, denom_and_rem@),
            Err(e) => mul_div_floor(a@, b@, denom_and_rem@) == Err::<nat, Error>(e),
        },
{
    if denom_and_rem.is_zero() {
        return Err(Error::DivisionByZero);
    }
    let product = widening_mul(a, b);
    let (quotient, remainder) = div_rem(product, denom_and_rem);
    if !quotient.fits_u256() {
        return Err(Error::Overflow);
    }
    let has_carry = !remainder.is_zero();
    Ok((quotient.low_half(), has_carry))
}

/// Returns `floor(a * b / denom)`, rounding down.
pub fn mul_div(a: U256, b: U256, denom: U256) -> (r: Result<U256, Error>)
    ensures
        match r {
            Ok(quotient) => mul_div_floor(a@, b@, denom@) == Ok::<nat, Error>(quotient@),
            Err(e) => mul_div_floor(a@, b@, denom@) == Err::<nat, Error>(e),
        },
{
    match _mul_div(a, b, denom) {
        Ok((quotient, _)) => Ok(quotient),
        Err(e) => Err(e),
    }
}

} // verus!
