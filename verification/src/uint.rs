//! Unsigned 256-bit integers, held as four 64-bit limbs, least significant
//! first.

use vstd::prelude::*;
use vstd::string::StringExecFns;

verus! {

/// 2^64: the weight of one limb.
pub open spec fn limb_base() -> int {
    0x1_0000_0000_0000_0000
}

/// 2^256: one more than the largest value a [`Uint`] holds.
pub open spec fn modulus() -> int {
    0x10000000000000000000000000000000000000000000000000000000000000000int
}

/// The number that four limbs stand for.
pub open spec fn limbs_value(l0: u64, l1: u64, l2: u64, l3: u64) -> nat {
    (l0 + limb_base() * (l1 + limb_base() * (l2 + limb_base() * l3))) as nat
}

/// `b` to the power `e`.
pub open spec fn power(b: nat, e: nat) -> nat
    decreases e,
{
    if e == 0 {
        1
    } else {
        b * power(b, (e - 1) as nat)
    }
}

/// A power of a positive base is positive, and grows with the exponent.
pub proof fn power_grows(b: nat, e1: nat, e2: nat)
    requires
        b >= 1,
        e1 <= e2,
    ensures
        1 <= power(b, e1) <= power(b, e2),
    decreases e2,
{
    if e1 == 0 {
        if e2 > 0 {
            power_grows(b, 0, (e2 - 1) as nat);
            assert(power(b, (e2 - 1) as nat) <= b * power(b, (e2 - 1) as nat))
                by (nonlinear_arith)
                requires
                    b >= 1,
            ;
        }
    } else {
        power_grows(b, (e1 - 1) as nat, (e2 - 1) as nat);
        assert(b * power(b, (e1 - 1) as nat) <= b * power(b, (e2 - 1) as nat))
            by (nonlinear_arith)
            requires
                power(b, (e1 - 1) as nat) <= power(b, (e2 - 1) as nat),
        ;
        assert(1 <= b * power(b, (e1 - 1) as nat)) by (nonlinear_arith)
            requires
                b >= 1,
                power(b, (e1 - 1) as nat) >= 1,
        ;
    }
}

/// Ten to the power 77 is below 2^256: a number of 77 decimal digits fits.
pub proof fn ten_to_the_77th_fits()
    ensures
        power(10, 77) < modulus(),
{
    reveal_with_fuel(power, 78);
    assert(power(10, 77)
        == 100000000000000000000000000000000000000000000000000000000000000000000000000000nat);
}

/// 256 to the power 32 is 2^256: a number of 32 bytes fits.
pub proof fn bytes_32_fit()
    ensures
        power(256, 32) == modulus(),
{
    reveal_with_fuel(power, 33);
}

/// The number that bytes spell, most significant first; zero for none.
pub open spec fn be_value(bytes: Seq<u8>) -> nat
    decreases bytes.len(),
{
    if bytes.len() == 0 {
        0
    } else {
        256 * be_value(bytes.drop_last()) + bytes.last() as nat
    }
}

/// One more byte at the end shifts the number by a byte and adds it.
pub proof fn be_value_push(bytes: Seq<u8>, byte: u8)
    ensures
        be_value(bytes.push(byte)) == 256 * be_value(bytes) + byte,
{
    assert(bytes.push(byte).drop_last() =~= bytes);
}

/// The bytes at the front spell no more than the whole.
pub proof fn be_value_grows(bytes: Seq<u8>, k: int)
    requires
        0 <= k <= bytes.len(),
    ensures
        be_value(bytes.subrange(0, k)) <= be_value(bytes),
    decreases bytes.len() - k,
{
    if k == bytes.len() {
        assert(bytes.subrange(0, k) =~= bytes);
    } else {
        be_value_grows(bytes, k + 1);
        assert(bytes.subrange(0, k + 1).drop_last() =~= bytes.subrange(0, k));
    }
}

/// Bytes spell a number below 256 to the power of their count; up to 32
/// bytes spell a number below 2^256.
pub proof fn be_value_is_bounded(bytes: Seq<u8>)
    ensures
        be_value(bytes) < power(256, bytes.len()),
        bytes.len() <= 32 ==> be_value(bytes) < modulus(),
    decreases bytes.len(),
{
    if bytes.len() > 0 {
        be_value_is_bounded(bytes.drop_last());
        assert(power(256, bytes.len()) == 256 * power(256, (bytes.len() - 1) as nat));
    }
    if bytes.len() <= 32 {
        power_grows(256, bytes.len(), 32);
        bytes_32_fit();
    }
}

/// Append the eight bytes of a limb, most significant first.
#[verifier::rlimit(50)]
fn push_limb_be(out: &mut Vec<u8>, limb: u64)
    ensures
        final(out)@.len() == old(out)@.len() + 8,
        be_value(final(out)@) == limb_base() * be_value(old(out)@) + limb,
{
    let b0: u8 = (limb % 256) as u8;
    let q1: u64 = limb / 256;
    let b1: u8 = (q1 % 256) as u8;
    let q2: u64 = q1 / 256;
    let b2: u8 = (q2 % 256) as u8;
    let q3: u64 = q2 / 256;
    let b3: u8 = (q3 % 256) as u8;
    let q4: u64 = q3 / 256;
    let b4: u8 = (q4 % 256) as u8;
    let q5: u64 = q4 / 256;
    let b5: u8 = (q5 % 256) as u8;
    let q6: u64 = q5 / 256;
    let b6: u8 = (q6 % 256) as u8;
    let q7: u64 = q6 / 256;
    let b7: u8 = (q7 % 256) as u8;
    proof {
        be_value_push(out@, b7);
        be_value_push(out@.push(b7), b6);
        be_value_push(out@.push(b7).push(b6), b5);
        be_value_push(out@.push(b7).push(b6).push(b5), b4);
        be_value_push(out@.push(b7).push(b6).push(b5).push(b4), b3);
        be_value_push(out@.push(b7).push(b6).push(b5).push(b4).push(b3), b2);
        be_value_push(out@.push(b7).push(b6).push(b5).push(b4).push(b3).push(b2), b1);
        be_value_push(out@.push(b7).push(b6).push(b5).push(b4).push(b3).push(b2).push(b1), b0);
    }
    out.push(b7);
    out.push(b6);
    out.push(b5);
    out.push(b4);
    out.push(b3);
    out.push(b2);
    out.push(b1);
    out.push(b0);
}

/// The character of one decimal digit.
pub open spec fn digit_char(d: nat) -> char {
    if d == 0 {
        '0'
    } else if d == 1 {
        '1'
    } else if d == 2 {
        '2'
    } else if d == 3 {
        '3'
    } else if d == 4 {
        '4'
    } else if d == 5 {
        '5'
    } else if d == 6 {
        '6'
    } else if d == 7 {
        '7'
    } else if d == 8 {
        '8'
    } else {
        '9'
    }
}

/// The decimal numeral of `n`, without leading zeros (and `"0"` for zero).
pub open spec fn decimal(n: nat) -> Seq<char>
    decreases n,
{
    if n < 10 {
        seq![digit_char(n)]
    } else {
        decimal(n / 10).push(digit_char(n % 10))
    }
}

/// The numeral that a sequence of digits spells.
pub open spec fn numeral(digits: Seq<u8>) -> Seq<char> {
    Seq::new(digits.len(), |k: int| digit_char(digits[k] as nat))
}

/// One decimal digit as a string.
pub fn digit_str(d: u64) -> (s: &'static str)
    requires
        d < 10,
    ensures
        s@ == seq![digit_char(d as nat)],
{
    proof {
        reveal_strlit("0");
        reveal_strlit("1");
        reveal_strlit("2");
        reveal_strlit("3");
        reveal_strlit("4");
        reveal_strlit("5");
        reveal_strlit("6");
        reveal_strlit("7");
        reveal_strlit("8");
        reveal_strlit("9");
    }
    let s = if d == 0 {
        "0"
    } else if d == 1 {
        "1"
    } else if d == 2 {
        "2"
    } else if d == 3 {
        "3"
    } else if d == 4 {
        "4"
    } else if d == 5 {
        "5"
    } else if d == 6 {
        "6"
    } else if d == 7 {
        "7"
    } else if d == 8 {
        "8"
    } else {
        "9"
    };
    assert(s@ =~= seq![digit_char(d as nat)]);
    s
}

/// An unsigned integer below 2^256.
#[derive(Debug, Clone, Copy, PartialEq, Eq, Hash)]
pub struct Uint(pub [u64; 4]);

/// `a + b + carry` as a limb and the carry out of it.
fn add_carry(a: u64, b: u64, carry: u64) -> (r: (u64, u64))
    requires
        carry <= 1,
    ensures
        r.0 + r.1 * limb_base() == a + b + carry,
        r.1 <= 1,
{
    let sum: u128 = a as u128 + b as u128 + carry as u128;
    let lo: u64 = (sum % 0x1_0000_0000_0000_0000u128) as u64;
    let hi: u64 = (sum / 0x1_0000_0000_0000_0000u128) as u64;
    (lo, hi)
}

/// `a - b - borrow` as a limb and the borrow out of it.
fn sub_borrow(a: u64, b: u64, borrow: u64) -> (r: (u64, u64))
    requires
        borrow <= 1,
    ensures
        r.0 - r.1 * limb_base() == a - b - borrow,
        r.1 <= 1,
{
    let take: u128 = b as u128 + borrow as u128;
    if a as u128 >= take {
        ((a as u128 - take) as u64, 0)
    } else {
        ((0x1_0000_0000_0000_0000u128 + a as u128 - take) as u64, 1)
    }
}

/// `a * m + carry` as a limb and the carry out of it.
#[verifier::rlimit(50)]
fn mul_carry(a: u64, m: u64, carry: u64) -> (r: (u64, u64))
    ensures
        r.0 + r.1 * limb_base() == a * m + carry,
{
    assert(a * m <= 0xFFFF_FFFF_FFFF_FFFF * 0xFFFF_FFFF_FFFF_FFFF) by (nonlinear_arith)
        requires
            a <= 0xFFFF_FFFF_FFFF_FFFF,
            m <= 0xFFFF_FFFF_FFFF_FFFF,
    ;
    let wide: u128 = a as u128 * m as u128 + carry as u128;
    let lo: u64 = (wide % 0x1_0000_0000_0000_0000u128) as u64;
    let hi: u64 = (wide / 0x1_0000_0000_0000_0000u128) as u64;
    (lo, hi)
}

/// One step of long division by `d`: the two-limb number `rem, limb`
/// divided by `d`.
#[verifier::rlimit(50)]
fn div_step(rem: u64, limb: u64, d: u64) -> (r: (u64, u64))
    requires
        rem < d,
    ensures
        rem * limb_base() + limb == r.0 * d + r.1,
        r.1 < d,
{
    let wide: u128 = rem as u128 * 0x1_0000_0000_0000_0000u128 + limb as u128;
    let q: u128 = wide / d as u128;
    let r: u128 = wide % d as u128;
    proof {
        vstd::arithmetic::div_mod::lemma_fundamental_div_mod(wide as int, d as int);
        vstd::arithmetic::div_mod::lemma_mod_pos_bound(wide as int, d as int);
        assert(q * d == d * q) by (nonlinear_arith);
        assert(q * d <= wide);
        assert(q < 0x1_0000_0000_0000_0000) by (nonlinear_arith)
            requires
                q * d <= wide,
                wide < d * 0x1_0000_0000_0000_0000,
                d > 0,
        ;
    }
    (q as u64, r as u64)
}

impl Uint {
    /// The number held.
    pub open spec fn value(&self) -> nat {
        limbs_value(self.0[0], self.0[1], self.0[2], self.0[3])
    }

    /// The integer that holds `n`, for `n` below 2^256.
    pub open spec fn from_nat(n: nat) -> Uint {
        Uint(
            [
                (n % 0x1_0000_0000_0000_0000) as u64,
                ((n / 0x1_0000_0000_0000_0000) % 0x1_0000_0000_0000_0000) as u64,
                ((n / 0x1_0000_0000_0000_0000_0000_0000_0000_0000nat)
                    % 0x1_0000_0000_0000_0000) as u64,
                ((n / 0x1_0000_0000_0000_0000_0000_0000_0000_0000_0000_0000_0000_0000nat)
                    % 0x1_0000_0000_0000_0000) as u64,
            ],
        )
    }

    /// An integer is the one that holds its number: two that hold the same
    /// number are the same.
    #[verifier::rlimit(50)]
    pub proof fn value_determines(self)
        ensures
            self == Uint::from_nat(self.value()),
    {
        let r = Uint::from_nat(self.value());
        assert(r.0[0] == self.0[0]);
        assert(r.0[1] == self.0[1]);
        assert(r.0[2] == self.0[2]);
        assert(r.0[3] == self.0[3]);
        assert(r.0 =~= self.0);
    }

    /// Zero.
    pub fn zero() -> (r: Uint)
        ensures
            r.value() == 0,
    {
        Uint([0, 0, 0, 0])
    }

    /// The number one.
    pub fn one() -> (r: Uint)
        ensures
            r.value() == 1,
    {
        Uint([1, 0, 0, 0])
    }

    /// The largest value, 2^256 - 1.
    pub fn max_value() -> (r: Uint)
        ensures
            r.value() == modulus() - 1,
    {
        Uint([u64::MAX, u64::MAX, u64::MAX, u64::MAX])
    }

    /// The largest value that a signed 256-bit integer holds, 2^255 - 1.
    pub fn max_signed_value() -> (r: Uint)
        ensures
            2 * r.value() + 1 == modulus() - 1,
    {
        Uint([u64::MAX, u64::MAX, u64::MAX, 0x7FFF_FFFF_FFFF_FFFF])
    }

    /// The same number, widened.
    pub fn from_u64(val: u64) -> (r: Uint)
        ensures
            r.value() == val,
    {
        Uint([val, 0, 0, 0])
    }

    /// Whether the number is zero.
    pub fn is_zero(&self) -> (r: bool)
        ensures
            r == (self.value() == 0),
    {
        self.0[0] == 0 && self.0[1] == 0 && self.0[2] == 0 && self.0[3] == 0
    }

    /// Whether both hold the same number.
    #[verifier::rlimit(50)]
    pub fn equals(&self, other: &Uint) -> (r: bool)
        ensures
            r == (self.value() == other.value()),
            r == (*self == *other),
    {
        let r = self.0[0] == other.0[0] && self.0[1] == other.0[1] && self.0[2] == other.0[2]
            && self.0[3] == other.0[3];
        proof {
            self.value_determines();
            other.value_determines();
            if r {
                assert(self.0 =~= other.0);
            }
        }
        r
    }

    /// Whether `self` is smaller than `other`.
    #[verifier::rlimit(50)]
    pub fn lt(&self, other: &Uint) -> (r: bool)
        ensures
            r == (self.value() < other.value()),
    {
        if self.0[3] != other.0[3] {
            self.0[3] < other.0[3]
        } else if self.0[2] != other.0[2] {
            self.0[2] < other.0[2]
        } else if self.0[1] != other.0[1] {
            self.0[1] < other.0[1]
        } else {
            self.0[0] < other.0[0]
        }
    }

    /// Whether `self` is at most `other`.
    pub fn le(&self, other: &Uint) -> (r: bool)
        ensures
            r == (self.value() <= other.value()),
    {
        !other.lt(self)
    }

    /// The sum, unless it does not fit.
    #[verifier::rlimit(50)]
    pub fn checked_add(self, other: Uint) -> (r: Option<Uint>)
        ensures
            r is Some <==> self.value() + other.value() < modulus(),
            r is Some ==> r.unwrap().value() == self.value() + other.value(),
    {
        let (r0, c0) = add_carry(self.0[0], other.0[0], 0);
        let (r1, c1) = add_carry(self.0[1], other.0[1], c0);
        let (r2, c2) = add_carry(self.0[2], other.0[2], c1);
        let (r3, c3) = add_carry(self.0[3], other.0[3], c2);
        if c3 == 0 {
            Some(Uint([r0, r1, r2, r3]))
        } else {
            None
        }
    }

    /// The difference, unless `other` is the larger.
    #[verifier::rlimit(50)]
    pub fn checked_sub(self, other: Uint) -> (r: Option<Uint>)
        ensures
            r is Some <==> other.value() <= self.value(),
            r is Some ==> r.unwrap().value() == self.value() - other.value(),
    {
        let (r0, b0) = sub_borrow(self.0[0], other.0[0], 0);
        let (r1, b1) = sub_borrow(self.0[1], other.0[1], b0);
        let (r2, b2) = sub_borrow(self.0[2], other.0[2], b1);
        let (r3, b3) = sub_borrow(self.0[3], other.0[3], b2);
        if b3 == 0 {
            Some(Uint([r0, r1, r2, r3]))
        } else {
            None
        }
    }

    /// The product with one limb: its low 256 bits, and what went over.
    #[verifier::rlimit(50)]
    pub fn overflowing_mul_u64(self, m: u64) -> (r: (Uint, u64))
        ensures
            r.0.value() + r.1 * modulus() == self.value() * m,
    {
        let (r0, c0) = mul_carry(self.0[0], m, 0);
        let (r1, c1) = mul_carry(self.0[1], m, c0);
        let (r2, c2) = mul_carry(self.0[2], m, c1);
        let (r3, c3) = mul_carry(self.0[3], m, c2);
        proof {
            let w = limb_base();
            let (a0, a1, a2, a3) = (
                self.0[0] as int,
                self.0[1] as int,
                self.0[2] as int,
                self.0[3] as int,
            );
            assert((a0 + w * (a1 + w * (a2 + w * a3))) * m == a0 * m + w * (a1 * m + w * (a2 * m
                + w * (a3 * m)))) by (nonlinear_arith);
        }
        (Uint([r0, r1, r2, r3]), c3)
    }

    /// The product, unless it does not fit.
    #[verifier::rlimit(50)]
    pub fn checked_mul(self, other: Uint) -> (r: Option<Uint>)
        ensures
            r is Some <==> self.value() * other.value() < modulus(),
            r is Some ==> r.unwrap().value() == self.value() * other.value(),
    {
        let (p0, k0) = self.overflowing_mul_u64(other.0[0]);
        let (p1, k1) = self.overflowing_mul_u64(other.0[1]);
        let (p2, k2) = self.overflowing_mul_u64(other.0[2]);
        let (p3, k3) = self.overflowing_mul_u64(other.0[3]);
        let ghost a = self.value() as int;
        let ghost x0 = a * other.0[0];
        let ghost x1 = a * other.0[1];
        let ghost x2 = a * other.0[2];
        let ghost x3 = a * other.0[3];
        proof {
            let w = limb_base();
            let (b0, b1, b2, b3) = (
                other.0[0] as int,
                other.0[1] as int,
                other.0[2] as int,
                other.0[3] as int,
            );
            assert(a * (b0 + w * (b1 + w * (b2 + w * b3))) == a * b0 + w * (a * b1 + w * (a * b2
                + w * (a * b3)))) by (nonlinear_arith);
            assert(x0 >= 0 && x1 >= 0 && x2 >= 0 && x3 >= 0) by (nonlinear_arith)
                requires
                    a >= 0,
                    b0 >= 0,
                    b1 >= 0,
                    b2 >= 0,
                    b3 >= 0,
                    x0 == a * b0,
                    x1 == a * b1,
                    x2 == a * b2,
                    x3 == a * b3,
            ;
            assert(self.value() * other.value() == x0 + w * (x1 + w * (x2 + w * x3)));
        }
        if k0 != 0 || k1 != 0 || p1.0[3] != 0 || k2 != 0 || p2.0[3] != 0 || p2.0[2] != 0 || k3
            != 0 || p3.0[3] != 0 || p3.0[2] != 0 || p3.0[1] != 0 {
            return None;
        }
        let t1 = Uint([0, p1.0[0], p1.0[1], p1.0[2]]);
        let t2 = Uint([0, 0, p2.0[0], p2.0[1]]);
        let t3 = Uint([0, 0, 0, p3.0[0]]);
        assert(t1.value() == limb_base() * x1);
        assert(t2.value() == limb_base() * (limb_base() * x2));
        assert(t3.value() == limb_base() * (limb_base() * (limb_base() * x3)));
        match p0.checked_add(t1) {
            None => None,
            Some(s1) => match s1.checked_add(t2) {
                None => None,
                Some(s2) => s2.checked_add(t3),
            },
        }
    }

    /// Quotient and remainder of the division by one limb.
    #[verifier::rlimit(50)]
    pub fn div_rem_u64(self, d: u64) -> (r: (Uint, u64))
        requires
            d > 0,
        ensures
            r.0.value() == self.value() / (d as nat),
            r.1 == self.value() % (d as nat),
    {
        let (q3, r3) = div_step(0, self.0[3], d);
        let (q2, r2) = div_step(r3, self.0[2], d);
        let (q1, r1) = div_step(r2, self.0[1], d);
        let (q0, r0) = div_step(r1, self.0[0], d);
        let q = Uint([q0, q1, q2, q3]);
        proof {
            let w = limb_base();
            let (e0, e1, e2, e3) = (q0 as int, q1 as int, q2 as int, q3 as int);
            assert((e0 + w * (e1 + w * (e2 + w * e3))) * d == e0 * d + w * (e1 * d + w * (e2 * d
                + w * (e3 * d)))) by (nonlinear_arith);
            assert(self.value() == q.value() * d + r0);
            vstd::arithmetic::div_mod::lemma_fundamental_div_mod_converse(
                self.value() as int,
                d as int,
                q.value() as int,
                r0 as int,
            );
        }
        (q, r0)
    }

    /// `self` to the power `exp`, unless it does not fit.
    #[verifier::rlimit(50)]
    pub fn checked_pow(self, exp: u32) -> (r: Option<Uint>)
        ensures
            r is Some <==> power(self.value(), exp as nat) < modulus(),
            r is Some ==> r.unwrap().value() == power(self.value(), exp as nat),
    {
        let mut acc = Uint::one();
        let mut i: u32 = 0;
        while i < exp
            invariant
                i <= exp,
                acc.value() == power(self.value(), i as nat),
            decreases exp - i,
        {
            match acc.checked_mul(self) {
                None => {
                    proof {
                        let b = self.value();
                        assert(power(b, (i + 1) as nat) == b * power(b, i as nat));
                        assert(power(b, i as nat) * b == b * power(b, i as nat))
                            by (nonlinear_arith);
                        if b == 0 {
                            assert(power(b, i as nat) * b == 0) by (nonlinear_arith)
                                requires
                                    b == 0,
                            ;
                        }
                        power_grows(b, (i + 1) as nat, exp as nat);
                    }
                    return None;
                },
                Some(next) => {
                    proof {
                        let b = self.value();
                        assert(power(b, (i + 1) as nat) == b * power(b, i as nat));
                        assert(power(b, i as nat) * b == b * power(b, i as nat))
                            by (nonlinear_arith);
                    }
                    acc = next;
                },
            }
            i = i + 1;
        }
        Some(acc)
    }

    /// The decimal digits of the number, most significant first.
    pub fn to_decimal_digits(&self) -> (r: Vec<u8>)
        ensures
            numeral(r@) == decimal(self.value()),
            r@.len() > 0,
            forall|k: int| 0 <= k < r@.len() ==> r@[k] < 10,
    {
        let mut digits: Vec<u8> = Vec::new();
        let mut cur = *self;
        let ghost n = self.value();
        loop
            invariant_except_break
                decimal(n) == decimal(cur.value()) + numeral(digits@.reverse()),
            invariant
                n == self.value(),
                forall|k: int| 0 <= k < digits@.len() ==> digits@[k] < 10,
            ensures
                digits@.len() > 0,
                decimal(n) == numeral(digits@.reverse()),
            decreases cur.value(),
        {
            let (q, r) = cur.div_rem_u64(10);
            let ghost before = digits@;
            digits.push(r as u8);
            assert(numeral(digits@.reverse()) =~= seq![digit_char(r as nat)] + numeral(
                before.reverse(),
            ));
            if q.is_zero() {
                assert(decimal(cur.value()) == seq![digit_char(r as nat)]);
                break ;
            }
            assert(decimal(cur.value()) == decimal(q.value()).push(digit_char(r as nat)));
            assert(decimal(n) =~= decimal(q.value()) + numeral(digits@.reverse()));
            cur = q;
        }
        let mut out: Vec<u8> = Vec::new();
        let mut i: usize = digits.len();
        while i > 0
            invariant
                i <= digits@.len(),
                out@ == digits@.reverse().subrange(0, digits@.len() - i),
            decreases i,
        {
            i = i - 1;
            out.push(digits[i]);
            assert(out@ =~= digits@.reverse().subrange(0, digits@.len() - i));
        }
        assert(out@ =~= digits@.reverse());
        out
    }

    /// The decimal numeral of the number.
    pub fn to_decimal_string(&self) -> (s: String)
        ensures
            s@ == decimal(self.value()),
    {
        let digits = self.to_decimal_digits();
        let mut s = String::new();
        let mut i: usize = 0;
        while i < digits.len()
            invariant
                i <= digits@.len(),
                forall|k: int| 0 <= k < digits@.len() ==> digits@[k] < 10,
                s@ == numeral(digits@).subrange(0, i as int),
            decreases digits@.len() - i,
        {
            s.append(digit_str(digits[i] as u64));
            i = i + 1;
            assert(s@ =~= numeral(digits@).subrange(0, i as int));
        }
        assert(s@ =~= numeral(digits@));
        s
    }

    /// The 32 bytes of the number, most significant first.
    #[verifier::rlimit(50)]
    pub fn to_big_endian(&self) -> (r: Vec<u8>)
        ensures
            r@.len() == 32,
            be_value(r@) == self.value(),
    {
        let mut out: Vec<u8> = Vec::new();
        push_limb_be(&mut out, self.0[3]);
        push_limb_be(&mut out, self.0[2]);
        push_limb_be(&mut out, self.0[1]);
        push_limb_be(&mut out, self.0[0]);
        out
    }

    /// The number that the bytes spell, most significant first, unless it
    /// does not fit.
    #[verifier::rlimit(50)]
    pub fn from_big_endian(bytes: &[u8]) -> (r: Option<Uint>)
        ensures
            r is Some <==> be_value(bytes@) < modulus(),
            r is Some ==> r.unwrap().value() == be_value(bytes@),
    {
        let mut acc = Uint::zero();
        let mut k: usize = 0;
        assert(bytes@.subrange(0, 0) =~= Seq::<u8>::empty());
        while k < bytes.len()
            invariant
                k <= bytes@.len(),
                acc.value() == be_value(bytes@.subrange(0, k as int)),
            decreases bytes@.len() - k,
        {
            proof {
                assert(bytes@.subrange(0, k + 1).drop_last() =~= bytes@.subrange(0, k as int));
                be_value_grows(bytes@, k + 1);
            }
            let (scaled, carry) = acc.overflowing_mul_u64(256);
            if carry != 0 {
                return None;
            }
            acc = match scaled.checked_add(Uint::from_u64(bytes[k] as u64)) {
                Some(sum) => sum,
                None => {
                    return None;
                },
            };
            k = k + 1;
        }
        assert(bytes@.subrange(0, bytes@.len() as int) =~= bytes@);
        Some(acc)
    }
}

impl From<u64> for Uint {
    /// The same number, widened.
    fn from(val: u64) -> (r: Uint)
        ensures
            r.value() == val,
    {
        let r = Uint([val, 0, 0, 0]);
        proof {
            r.value_determines();
        }
        r
    }
}

impl vstd::std_specs::convert::FromSpecImpl<u64> for Uint {
    open spec fn obeys_from_spec() -> bool {
        true
    }

    open spec fn from_spec(val: u64) -> Uint {
        Uint::from_nat(val as nat)
    }
}

impl Default for Uint {
    /// Zero.
    fn default() -> (r: Uint)
        ensures
            r.value() == 0,
    {
        Uint([0, 0, 0, 0])
    }
}

} // verus!
