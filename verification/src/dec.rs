//! Signed decimal numbers with twelve decimal places.

use crate::int256::{in_range, truncated_quotient, I256};
use crate::uint::Uint;
use vstd::prelude::*;

verus! {

/// The number of decimal places.
pub const POS_DECIMAL_PRECISION: u8 = 12;

/// Ten to the power of the number of decimal places.
pub const SCALE: u64 = 1_000_000_000_000;

/// Why a number could not be made into a [`Dec`].
#[derive(Debug, Clone, Copy, PartialEq, Eq, Structural)]
pub enum Error {
    /// The number is too large.
    Overflow,
}

/// A decimal number: a signed count of units of 10^-12.
#[derive(Debug, Clone, Copy, PartialEq, Eq, Hash)]
pub struct Dec(pub I256);

/// The count of units of the product of two decimals of `a` and `b` units,
/// rounded towards zero, if the product of the two counts is within range.
pub open spec fn dec_mul(a: int, b: int) -> Option<int> {
    if in_range(a * b) {
        Some(truncated_quotient(a * b, SCALE as int))
    } else {
        None
    }
}

/// The count of units of the sum, if it is within range.
pub open spec fn dec_add(a: int, b: int) -> Option<int> {
    if in_range(a + b) {
        Some(a + b)
    } else {
        None
    }
}

/// The count of units of the difference, if it is within range.
pub open spec fn dec_sub(a: int, b: int) -> Option<int> {
    if in_range(a - b) {
        Some(a - b)
    } else {
        None
    }
}

/// The distance of `n` from zero.
pub open spec fn magnitude_of(n: int) -> int {
    if n < 0 {
        -n
    } else {
        n
    }
}

/// The count of units of the quotient of two decimals of `a` and `b`
/// units, rounded towards zero, unless `b` is zero or the magnitude of the
/// quotient is more than the largest positive count.
pub open spec fn dec_div(a: int, b: int) -> Option<int> {
    if b == 0 {
        None
    } else {
        let q = (magnitude_of(a) * SCALE) / magnitude_of(b);
        if !in_range(q) {
            None
        } else if (a < 0) != (b < 0) {
            Some(-q)
        } else {
            Some(q)
        }
    }
}

impl Dec {
    /// The count of units of 10^-12.
    pub open spec fn raw(&self) -> int {
        self.0.value()
    }

    /// The count is within range.
    pub open spec fn wf(&self) -> bool {
        self.0.wf()
    }

    /// Zero.
    pub fn zero() -> (r: Dec)
        ensures
            r.wf(),
            r.raw() == 0,
    {
        Dec(I256::zero())
    }

    /// The whole number `n`.
    pub fn from_u64(n: u64) -> (r: Dec)
        ensures
            r.wf(),
            r.raw() == n * SCALE,
    {
        let (magnitude, carry) = Uint::from_u64(n).overflowing_mul_u64(SCALE);
        assert(n * SCALE <= 0xFFFF_FFFF_FFFF_FFFF * 1_000_000_000_000) by (nonlinear_arith)
            requires
                n <= 0xFFFF_FFFF_FFFF_FFFF,
                SCALE == 1_000_000_000_000,
        ;
        Dec(I256 { negative: false, magnitude })
    }

    /// The whole number `value`, unless it is too large.
    pub fn try_from_uint(value: Uint) -> (r: Result<Dec, Error>)
        ensures
            r is Ok <==> in_range(value.value() * SCALE),
            r is Ok ==> r.unwrap().wf() && r.unwrap().raw() == value.value() * SCALE,
            r is Err ==> r == Err::<Dec, Error>(Error::Overflow),
    {
        let (magnitude, carry) = value.overflowing_mul_u64(SCALE);
        if carry != 0 {
            return Err(Error::Overflow);
        }
        match I256::try_from_uint(magnitude) {
            Some(raw) => Ok(Dec(raw)),
            None => Err(Error::Overflow),
        }
    }

    /// Whether the number is below zero.
    pub fn is_negative(&self) -> (r: bool)
        requires
            self.wf(),
        ensures
            r == (self.raw() < 0),
    {
        self.0.is_negative()
    }

    /// The whole part of a number that is not negative.
    pub fn to_uint(&self) -> (r: Option<Uint>)
        requires
            self.wf(),
        ensures
            r is Some <==> self.raw() >= 0,
            r is Some ==> r.unwrap().value() == self.raw() / (SCALE as int),
    {
        if self.0.is_negative() {
            None
        } else {
            let (whole, rem) = self.0.abs().div_rem_u64(SCALE);
            Some(whole)
        }
    }

    /// The sum, unless it is out of range.
    pub fn checked_add(self, rhs: Dec) -> (r: Option<Dec>)
        requires
            self.wf(),
            rhs.wf(),
        ensures
            r is Some <==> dec_add(self.raw(), rhs.raw()) is Some,
            r is Some ==> r.unwrap().wf() && r.unwrap().raw() == dec_add(
                self.raw(),
                rhs.raw(),
            ).unwrap(),
    {
        match self.0.checked_add(rhs.0) {
            Some(raw) => Some(Dec(raw)),
            None => None,
        }
    }

    /// The difference, unless it is out of range.
    pub fn checked_sub(self, rhs: Dec) -> (r: Option<Dec>)
        requires
            self.wf(),
            rhs.wf(),
        ensures
            r is Some <==> dec_sub(self.raw(), rhs.raw()) is Some,
            r is Some ==> r.unwrap().wf() && r.unwrap().raw() == dec_sub(
                self.raw(),
                rhs.raw(),
            ).unwrap(),
    {
        match self.0.checked_sub(rhs.0) {
            Some(raw) => Some(Dec(raw)),
            None => None,
        }
    }

    /// The product, rounded towards zero, unless the product of the two
    /// counts of units is out of range.
    pub fn checked_mul(self, rhs: Dec) -> (r: Option<Dec>)
        requires
            self.wf(),
            rhs.wf(),
        ensures
            r is Some <==> dec_mul(self.raw(), rhs.raw()) is Some,
            r is Some ==> r.unwrap().wf() && r.unwrap().raw() == dec_mul(
                self.raw(),
                rhs.raw(),
            ).unwrap(),
    {
        match self.0.checked_mul(rhs.0) {
            Some(product) => Some(Dec(product.div_u64(SCALE))),
            None => None,
        }
    }

    /// The quotient by the whole number `n`, rounded towards zero, unless
    /// `n` is zero or the quotient is out of range.
    pub fn checked_div_u64(self, n: u64) -> (r: Option<Dec>)
        requires
            self.wf(),
        ensures
            r is Some <==> dec_div(self.raw(), n * SCALE) is Some,
            r is Some ==> r.unwrap().wf() && r.unwrap().raw() == dec_div(
                self.raw(),
                n * SCALE,
            ).unwrap(),
    {
        if n == 0 {
            return None;
        }
        let (quotient, rem) = self.0.abs().div_rem_u64(n);
        proof {
            let m = self.0.magnitude.value() as int;
            let q = quotient.value() as int;
            let s = SCALE as int;
            vstd::arithmetic::div_mod::lemma_fundamental_div_mod(m, n as int);
            assert(m * s == q * (n * s) + (rem as int) * s) by (nonlinear_arith)
                requires
                    m == (n as int) * q + rem,
            ;
            assert(0 <= (rem as int) * s < n * s) by (nonlinear_arith)
                requires
                    0 <= rem < n,
                    s > 0,
            ;
            vstd::arithmetic::div_mod::lemma_fundamental_div_mod_converse(
                m * s,
                n * s,
                q,
                (rem as int) * s,
            );
            assert(magnitude_of(self.raw()) == m);
            assert(magnitude_of(n * s) == n * s);
            assert((m * s) / (n * s) == q);
        }
        if !quotient.le(&Uint::max_signed_value()) {
            return None;
        }
        match I256::checked_from_parts(self.0.negative, quotient) {
            Some(raw) => Some(Dec(raw)),
            None => None,
        }
    }
}

} // verus!
