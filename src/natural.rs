//! Arbitrary-precision natural numbers held as base 2^32 limbs.
//!
//! The arithmetic itself is done by `num_bigint::BigUint`; the limbs are the
//! plain form in which this library carries a value between those calls.

use core::cmp::Ordering;
use num_bigint::{BigUint, RandBigInt};
use num_integer::Integer;
use vstd::arithmetic::power::pow;
use vstd::prelude::*;

verus! {

/// The value of little-endian base 2^32 limbs.
pub open spec fn limbs_value(limbs: Seq<u32>) -> nat
    decreases limbs.len(),
{
    if limbs.len() == 0 {
        0
    } else {
        limbs[0] as nat + 0x1_0000_0000 * limbs_value(limbs.drop_first())
    }
}

/// The number of bits needed to write `n` (zero for zero).
pub open spec fn bit_length(n: nat) -> nat
    decreases n,
{
    if n == 0 {
        0
    } else {
        1 + bit_length(n / 2)
    }
}

/// A non-negative integer of any size.
#[derive(Debug)]
pub struct Natural {
    pub(crate) limbs: Vec<u32>,
}

impl View for Natural {
    type V = nat;

    closed spec fn view(&self) -> nat {
        limbs_value(self.limbs@)
    }
}

impl Natural {
    /// Builds a value from its base 2^32 digits, least significant first.
    pub fn from_u32_digits(limbs: Vec<u32>) -> (r: Natural)
        ensures
            r@ == limbs_value(limbs@),
    {
        Natural { limbs }
    }

    /// The base 2^32 digits of the value, least significant first.
    pub fn u32_digits(&self) -> (r: Vec<u32>)
        ensures
            limbs_value(r@) == self@,
    {
        self.limbs.clone()
    }

    /// The value of a machine integer.
    pub fn from_u32(v: u32) -> (r: Natural)
        ensures
            r@ == v as nat,
    {
        let mut limbs: Vec<u32> = Vec::new();
        limbs.push(v);
        proof {
            assert(limbs@.drop_first() =~= Seq::<u32>::empty());
            assert(limbs_value(limbs@.drop_first()) == 0);
            assert(limbs_value(limbs@) == v as nat);
        }
        Natural { limbs }
    }
}

/// Relies on `Ord for BigUint`: the numeric order of the two values.
#[verifier::external_body]
pub(crate) fn compare(a: &Natural, b: &Natural) -> (r: Ordering)
    ensures
        (r == Ordering::Less) == (a@ < b@),
        (r == Ordering::Equal) == (a@ == b@),
        (r == Ordering::Greater) == (a@ > b@),
{
    BigUint::new(a.limbs.clone()).cmp(&BigUint::new(b.limbs.clone()))
}

/// Relies on `num_integer::Integer::is_even` for `BigUint`: divisibility by two.
#[verifier::external_body]
pub(crate) fn is_even(a: &Natural) -> (r: bool)
    ensures
        r == (a@ % 2 == 0),
{
    BigUint::new(a.limbs.clone()).is_even()
}

/// Relies on `Sub for &BigUint`: the difference, which panics below zero.
#[verifier::external_body]
pub(crate) fn difference(a: &Natural, b: &Natural) -> (r: Natural)
    requires
        a@ >= b@,
    ensures
        r@ == a@ - b@,
{
    let d = &BigUint::new(a.limbs.clone()) - &BigUint::new(b.limbs.clone());
    Natural { limbs: d.to_u32_digits() }
}

/// Relies on `BigUint::modpow`: `(base ^ exponent) % modulus`, which panics
/// on a zero modulus.
#[verifier::external_body]
pub(crate) fn mod_pow(base: &Natural, exponent: &Natural, modulus: &Natural) -> (r: Natural)
    requires
        modulus@ > 0,
    ensures
        r@ == pow(base@ as int, exponent@) % (modulus@ as int),
{
    let b = BigUint::new(base.limbs.clone());
    let e = BigUint::new(exponent.limbs.clone());
    let m = BigUint::new(modulus.limbs.clone());
    Natural { limbs: b.modpow(&e, &m).to_u32_digits() }
}

/// Relies on `BigUint::bits`: the fewest bits that express the value.
#[verifier::external_body]
pub(crate) fn bits(a: &Natural) -> (r: u64)
    ensures
        r as nat == bit_length(a@),
{
    BigUint::new(a.limbs.clone()).bits()
}

/// Relies on `RandBigInt::gen_biguint_range` over the operating system's
/// entropy source (`rand::rngs::OsRng`): a uniform value in `[low, high)`,
/// which panics unless `low < high`. Nothing is promised of the value
/// beyond its range; a failing entropy source aborts the process.
#[verifier::external_body]
pub(crate) fn random_in_range(low: &Natural, high: &Natural) -> (r: Natural)
    requires
        low@ < high@,
    ensures
        low@ <= r@ < high@,
{
    let lo = BigUint::new(low.limbs.clone());
    let hi = BigUint::new(high.limbs.clone());
    let mut rng = rand::rngs::OsRng;
    Natural { limbs: rng.gen_biguint_range(&lo, &hi).to_u32_digits() }
}

} // verus!
