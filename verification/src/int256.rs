//! Signed 256-bit integers, held as a sign and a magnitude.

use crate::uint::{modulus, Uint};
use vstd::prelude::*;

verus! {

/// A signed integer from -2^255 to 2^255 - 1.
#[derive(Debug, Clone, Copy, PartialEq, Eq, Hash)]
pub struct I256 {
    /// Whether the number is below zero.
    pub negative: bool,
    /// Its distance from zero.
    pub magnitude: Uint,
}

impl I256 {
    /// The number held.
    pub open spec fn value(&self) -> int {
        if self.negative {
            -(self.magnitude.value() as int)
        } else {
            self.magnitude.value() as int
        }
    }

    /// The number is within range, and zero is not negative.
    pub open spec fn wf(&self) -> bool {
        if self.negative {
            0 < 2 * self.magnitude.value() <= modulus()
        } else {
            2 * self.magnitude.value() < modulus()
        }
    }

    /// Zero.
    pub fn zero() -> (r: I256)
        ensures
            r.wf(),
            r.value() == 0,
    {
        I256 { negative: false, magnitude: Uint::zero() }
    }

    /// The same number, unless it is more than the largest signed value.
    pub fn try_from_uint(value: Uint) -> (r: Option<I256>)
        ensures
            r is Some <==> 2 * value.value() < modulus(),
            r is Some ==> r.unwrap().wf() && r.unwrap().value() == value.value(),
    {
        if value.le(&Uint::max_signed_value()) {
            Some(I256 { negative: false, magnitude: value })
        } else {
            None
        }
    }

    /// The number of the given sign and magnitude.
    pub fn from_parts(negative: bool, magnitude: Uint) -> (r: I256)
        requires
            (I256 { negative, magnitude }).wf(),
        ensures
            r == (I256 { negative, magnitude }),
    {
        I256 { negative, magnitude }
    }

    /// Whether the number is below zero.
    pub fn is_negative(&self) -> (r: bool)
        requires
            self.wf(),
        ensures
            r == (self.value() < 0),
    {
        self.negative
    }

    /// The distance from zero.
    pub fn abs(&self) -> (r: Uint)
        ensures
            r.value() == (if self.value() < 0 {
                -self.value()
            } else {
                self.value()
            }),
            r == self.magnitude,
    {
        self.magnitude
    }

    /// The number of the given sign and magnitude, if it is within range.
    /// Zero comes out positive.
    pub fn checked_from_parts(negative: bool, magnitude: Uint) -> (r: Option<I256>)
        ensures
            r is Some <==> in_range(signed(negative, magnitude.value())),
            r is Some ==> r.unwrap().wf() && r.unwrap().value() == signed(
                negative,
                magnitude.value(),
            ),
    {
        if magnitude.is_zero() {
            Some(I256 { negative: false, magnitude })
        } else if negative {
            if magnitude.le(&Uint([0, 0, 0, 0x8000_0000_0000_0000])) {
                Some(I256 { negative, magnitude })
            } else {
                None
            }
        } else if magnitude.le(&Uint::max_signed_value()) {
            Some(I256 { negative, magnitude })
        } else {
            None
        }
    }

    /// The number of the opposite sign, unless it is out of range.
    pub fn checked_neg(self) -> (r: Option<I256>)
        requires
            self.wf(),
        ensures
            r is Some <==> in_range(-self.value()),
            r is Some ==> r.unwrap().wf() && r.unwrap().value() == -self.value(),
    {
        I256::checked_from_parts(!self.negative, self.magnitude)
    }

    /// The sum, unless it is out of range.
    pub fn checked_add(self, other: I256) -> (r: Option<I256>)
        requires
            self.wf(),
            other.wf(),
        ensures
            r is Some <==> in_range(self.value() + other.value()),
            r is Some ==> r.unwrap().wf() && r.unwrap().value() == self.value() + other.value(),
    {
        if self.negative == other.negative {
            match self.magnitude.checked_add(other.magnitude) {
                Some(sum) => I256::checked_from_parts(self.negative, sum),
                None => None,
            }
        } else if other.magnitude.le(&self.magnitude) {
            match self.magnitude.checked_sub(other.magnitude) {
                Some(diff) => I256::checked_from_parts(self.negative, diff),
                None => None,
            }
        } else {
            match other.magnitude.checked_sub(self.magnitude) {
                Some(diff) => I256::checked_from_parts(other.negative, diff),
                None => None,
            }
        }
    }

    /// The difference, unless it is out of range.
    pub fn checked_sub(self, other: I256) -> (r: Option<I256>)
        requires
            self.wf(),
            other.wf(),
        ensures
            r is Some <==> in_range(self.value() - other.value()),
            r is Some ==> r.unwrap().wf() && r.unwrap().value() == self.value() - other.value(),
    {
        let opposite = I256 {
            negative: !other.negative && !other.magnitude.is_zero(),
            magnitude: other.magnitude,
        };
        if self.negative == opposite.negative {
            match self.magnitude.checked_add(opposite.magnitude) {
                Some(sum) => I256::checked_from_parts(self.negative, sum),
                None => None,
            }
        } else if opposite.magnitude.le(&self.magnitude) {
            match self.magnitude.checked_sub(opposite.magnitude) {
                Some(diff) => I256::checked_from_parts(self.negative, diff),
                None => None,
            }
        } else {
            match opposite.magnitude.checked_sub(self.magnitude) {
                Some(diff) => I256::checked_from_parts(opposite.negative, diff),
                None => None,
            }
        }
    }

    /// The product, unless it is out of range.
    pub fn checked_mul(self, other: I256) -> (r: Option<I256>)
        requires
            self.wf(),
            other.wf(),
        ensures
            r is Some <==> in_range(self.value() * other.value()),
            r is Some ==> r.unwrap().wf() && r.unwrap().value() == self.value() * other.value(),
    {
        let ghost a = self.magnitude.value() as int;
        let ghost b = other.magnitude.value() as int;
        proof {
            assert(a * b >= 0) by (nonlinear_arith)
                requires
                    a >= 0,
                    b >= 0,
            ;
            assert((-a) * b == -(a * b) && a * (-b) == -(a * b) && (-a) * (-b) == a * b)
                by (nonlinear_arith);
        }
        match self.magnitude.checked_mul(other.magnitude) {
            Some(product) => I256::checked_from_parts(self.negative != other.negative, product),
            None => None,
        }
    }

    /// The quotient of the division by a positive number, rounded towards
    /// zero.
    pub fn div_u64(self, d: u64) -> (r: I256)
        requires
            self.wf(),
            d > 0,
        ensures
            r.wf(),
            r.value() == truncated_quotient(self.value(), d as int),
    {
        let (quotient, rem) = self.magnitude.div_rem_u64(d);
        proof {
            let m = self.magnitude.value() as int;
            vstd::arithmetic::div_mod::lemma_div_is_ordered_by_denominator(m, 1, d as int);
            vstd::arithmetic::div_mod::lemma_div_basics(m);
        }
        if quotient.is_zero() {
            I256 { negative: false, magnitude: quotient }
        } else {
            I256 { negative: self.negative, magnitude: quotient }
        }
    }
}

/// The number of the given sign and magnitude.
pub open spec fn signed(negative: bool, magnitude: nat) -> int {
    if negative {
        -(magnitude as int)
    } else {
        magnitude as int
    }
}

/// Whether a signed 256-bit integer can hold the number.
pub open spec fn in_range(n: int) -> bool {
    -modulus() <= 2 * n < modulus()
}

/// The quotient of `n` by a positive `d`, rounded towards zero.
pub open spec fn truncated_quotient(n: int, d: int) -> int {
    if n >= 0 {
        n / d
    } else {
        -((-n) / d)
    }
}

} // verus!
