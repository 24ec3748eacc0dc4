//! A basic fungible token: amounts, their denominations and their text.

use crate::address::{masp, Address, AddressView, InternalAddress};
use crate::int256::I256;
use crate::storage::{begins_with, key_text, starts_with, DbKeySeg, DbKeySegView, Key};
use crate::uint::{
    be_value, decimal, digit_char, modulus, numeral, power, power_grows, ten_to_the_77th_fits, Uint,
};
use vstd::string::StringExecFns;
use vstd::prelude::*;

verus! {

/// Maximum decimal places in a native token [`Amount`].
pub const NATIVE_MAX_DECIMAL_PLACES: u8 = 6;

/// Decimal scale of a native token [`Amount`].
pub const NATIVE_SCALE: u64 = 1_000_000;

/// A change in tokens amount.
pub type Change = I256;

/// Amount in micro units.
#[derive(Debug, Clone, Copy, PartialEq, Eq, Hash)]
pub struct Amount {
    pub raw: Uint,
}

impl Amount {
    /// The number of micro units.
    pub open spec fn value(&self) -> nat {
        self.raw.value()
    }

    /// Spend a given amount.
    pub fn spend(&mut self, amount: &Amount)
        requires
            amount.value() <= old(self).value(),
        ensures
            final(self).value() == old(self).value() - amount.value(),
    {
        match self.raw.checked_sub(amount.raw) {
            Some(raw) => {
                self.raw = raw;
            },
            None => {},
        }
    }

    /// Receive a given amount.
    pub fn receive(&mut self, amount: &Amount)
        requires
            old(self).value() + amount.value() < modulus(),
        ensures
            final(self).value() == old(self).value() + amount.value(),
    {
        match self.raw.checked_add(amount.raw) {
            Some(raw) => {
                self.raw = raw;
            },
            None => {},
        }
    }

    /// Create a new amount of native token from whole number of tokens.
    pub fn native_whole(amount: u64) -> (r: Self)
        ensures
            r.value() == amount * NATIVE_SCALE,
    {
        let (raw, carry) = Uint::from_u64(amount).overflowing_mul_u64(NATIVE_SCALE);
        Amount { raw }
    }

    /// Get the raw value, in micro units.
    pub fn raw_amount(&self) -> (r: Uint)
        ensures
            r == self.raw,
    {
        self.raw
    }

    /// Create a new amount with the maximum value.
    pub fn max() -> (r: Self)
        ensures
            r.value() == modulus() - 1,
    {
        Amount { raw: Uint::max_value() }
    }

    /// Create a new amount with the maximum signed value.
    pub fn max_signed() -> (r: Self)
        ensures
            2 * r.value() + 1 == modulus() - 1,
    {
        Amount { raw: Uint::max_signed_value() }
    }

    /// Zero [`Amount`].
    pub fn zero() -> (r: Self)
        ensures
            r.value() == 0,
    {
        Amount { raw: Uint::zero() }
    }

    /// Check if [`Amount`] is zero.
    pub fn is_zero(&self) -> (r: bool)
        ensures
            r == (self.value() == 0),
    {
        self.raw.is_zero()
    }

    /// Whether both are the same amount.
    pub fn equals(&self, other: &Amount) -> (r: bool)
        ensures
            r == (self.value() == other.value()),
            r == (*self == *other),
    {
        self.raw.equals(&other.raw)
    }

    /// Whether `self` is the smaller amount.
    pub fn lt(&self, other: &Amount) -> (r: bool)
        ensures
            r == (self.value() < other.value()),
    {
        self.raw.lt(&other.raw)
    }

    /// Checked addition. Returns `None` on overflow.
    pub fn checked_add(&self, amount: Amount) -> (r: Option<Self>)
        ensures
            r is Some <==> self.value() + amount.value() < modulus(),
            r is Some ==> r.unwrap().value() == self.value() + amount.value(),
    {
        match self.raw.checked_add(amount.raw) {
            Some(result) => {
                if result.le(&Uint::max_value()) {
                    Some(Amount { raw: result })
                } else {
                    None
                }
            },
            None => None,
        }
    }

    /// Checked addition. Returns `None` on overflow or if the sum is more
    /// than the maximum signed value.
    pub fn checked_signed_add(&self, amount: Amount) -> (r: Option<Self>)
        ensures
            r is Some <==> 2 * (self.value() + amount.value()) < modulus(),
            r is Some ==> r.unwrap().value() == self.value() + amount.value(),
    {
        match self.raw.checked_add(amount.raw) {
            Some(result) => {
                if result.le(&Uint::max_signed_value()) {
                    Some(Amount { raw: result })
                } else {
                    None
                }
            },
            None => None,
        }
    }

    /// Checked subtraction. Returns `None` on underflow.
    pub fn checked_sub(&self, amount: Amount) -> (r: Option<Self>)
        ensures
            r is Some <==> amount.value() <= self.value(),
            r is Some ==> r.unwrap().value() == self.value() - amount.value(),
    {
        match self.raw.checked_sub(amount.raw) {
            Some(result) => Some(Amount { raw: result }),
            None => None,
        }
    }

    /// Checked multiplication. Returns `None` on overflow.
    pub fn checked_mul(&self, amount: Amount) -> (r: Option<Self>)
        ensures
            r is Some <==> self.value() * amount.value() < modulus(),
            r is Some ==> r.unwrap().value() == self.value() * amount.value(),
    {
        match self.raw.checked_mul(amount.raw) {
            Some(result) => Some(Amount { raw: result }),
            None => None,
        }
    }

    /// The amount of `val` micro units.
    pub fn from_u64(val: u64) -> (r: Self)
        ensures
            r.value() == val,
    {
        Amount { raw: Uint::from_u64(val) }
    }
}

/// Given a number represented as `M*B^D`, then `M` is the mantissa, `B` is
/// the base and `D` is the denomination, represented by this struct.
#[derive(Debug, Clone, Copy, PartialEq, Eq, Hash, Structural)]
pub struct Denomination(pub u8);

/// An amount with its denomination.
#[derive(Debug, Clone, Copy, PartialEq, Eq, Hash)]
pub struct DenominatedAmount {
    /// The mantissa.
    pub amount: Amount,
    /// The number of decimal places in base ten.
    pub denom: Denomination,
}

impl DenominatedAmount {
    /// An amount of the native token.
    pub fn native(amount: Amount) -> (r: Self)
        ensures
            r.amount == amount,
            r.denom == Denomination(NATIVE_MAX_DECIMAL_PLACES),
    {
        DenominatedAmount { amount, denom: Denomination(NATIVE_MAX_DECIMAL_PLACES) }
    }

    /// An amount with the given denomination.
    pub fn new(amount: Amount, denom: Denomination) -> (r: Self)
        ensures
            r.amount == amount,
            r.denom == denom,
    {
        DenominatedAmount { amount, denom }
    }
}

/// The amount of `n` micro units, for `n` below 2^256.
pub open spec fn amount_of(n: nat) -> Amount {
    Amount { raw: Uint::from_nat(n) }
}

/// The amount that holds a count of micro units.
fn amount(raw: Uint) -> (r: Amount)
    ensures
        r.raw == raw,
        r == amount_of(raw.value()),
{
    proof {
        raw.value_determines();
    }
    Amount { raw }
}

impl core::ops::Add for Amount {
    type Output = Amount;

    /// The sum. It must fit.
    fn add(self, rhs: Self) -> (r: Amount)
        ensures
            r.value() == self.value() + rhs.value(),
    {
        match self.raw.checked_add(rhs.raw) {
            Some(raw) => amount(raw),
            None => self,
        }
    }
}

impl vstd::std_specs::ops::AddSpecImpl for Amount {
    open spec fn obeys_add_spec() -> bool {
        true
    }

    open spec fn add_req(self, rhs: Amount) -> bool {
        self.value() + rhs.value() < modulus()
    }

    open spec fn add_spec(self, rhs: Amount) -> Amount {
        amount_of(self.value() + rhs.value())
    }
}

impl core::ops::Add<u64> for Amount {
    type Output = Amount;

    /// The sum with a count of micro units. It must fit.
    fn add(self, rhs: u64) -> (r: Amount)
        ensures
            r.value() == self.value() + rhs,
    {
        match self.raw.checked_add(Uint::from_u64(rhs)) {
            Some(raw) => amount(raw),
            None => self,
        }
    }
}

impl vstd::std_specs::ops::AddSpecImpl<u64> for Amount {
    open spec fn obeys_add_spec() -> bool {
        true
    }

    open spec fn add_req(self, rhs: u64) -> bool {
        self.value() + rhs < modulus()
    }

    open spec fn add_spec(self, rhs: u64) -> Amount {
        amount_of(self.value() + rhs as nat)
    }
}

impl core::ops::Sub for Amount {
    type Output = Amount;

    /// The difference. `rhs` must not be the larger.
    fn sub(self, rhs: Self) -> (r: Amount)
        ensures
            r.value() == self.value() - rhs.value(),
    {
        match self.raw.checked_sub(rhs.raw) {
            Some(raw) => amount(raw),
            None => self,
        }
    }
}

impl vstd::std_specs::ops::SubSpecImpl for Amount {
    open spec fn obeys_sub_spec() -> bool {
        true
    }

    open spec fn sub_req(self, rhs: Amount) -> bool {
        rhs.value() <= self.value()
    }

    open spec fn sub_spec(self, rhs: Amount) -> Amount {
        amount_of((self.value() - rhs.value()) as nat)
    }
}

impl core::ops::Mul<u64> for Amount {
    type Output = Amount;

    /// The product with a number. It must fit.
    fn mul(self, rhs: u64) -> (r: Amount)
        ensures
            r.value() == self.value() * rhs,
    {
        let (raw, carry) = self.raw.overflowing_mul_u64(rhs);
        amount(raw)
    }
}

impl vstd::std_specs::ops::MulSpecImpl<u64> for Amount {
    open spec fn obeys_mul_spec() -> bool {
        true
    }

    open spec fn mul_req(self, rhs: u64) -> bool {
        self.value() * rhs < modulus()
    }

    open spec fn mul_spec(self, rhs: u64) -> Amount {
        amount_of(self.value() * rhs as nat)
    }
}

impl core::ops::Mul<Uint> for Amount {
    type Output = Amount;

    /// The product with a number. It must fit.
    fn mul(self, rhs: Uint) -> (r: Amount)
        ensures
            r.value() == self.value() * rhs.value(),
    {
        match self.raw.checked_mul(rhs) {
            Some(raw) => amount(raw),
            None => self,
        }
    }
}

impl vstd::std_specs::ops::MulSpecImpl<Uint> for Amount {
    open spec fn obeys_mul_spec() -> bool {
        true
    }

    open spec fn mul_req(self, rhs: Uint) -> bool {
        self.value() * rhs.value() < modulus()
    }

    open spec fn mul_spec(self, rhs: Uint) -> Amount {
        amount_of(self.value() * rhs.value())
    }
}

impl core::ops::Mul<Amount> for Amount {
    type Output = Amount;

    /// The product of the two counts of micro units. It must fit.
    fn mul(self, rhs: Amount) -> (r: Amount)
        ensures
            r.value() == self.value() * rhs.value(),
    {
        match self.raw.checked_mul(rhs.raw) {
            Some(raw) => amount(raw),
            None => self,
        }
    }
}

impl vstd::std_specs::ops::MulSpecImpl<Amount> for Amount {
    open spec fn obeys_mul_spec() -> bool {
        true
    }

    open spec fn mul_req(self, rhs: Amount) -> bool {
        self.value() * rhs.value() < modulus()
    }

    open spec fn mul_spec(self, rhs: Amount) -> Amount {
        amount_of(self.value() * rhs.value())
    }
}

/// A combination of Euclidean division and fractions:
/// x*(a,b) = (a*(x//b), x%b).
impl core::ops::Mul<(u64, u64)> for Amount {
    type Output = (Amount, Amount);

    fn mul(self, rhs: (u64, u64)) -> (r: (Amount, Amount))
        ensures
            r.0.value() == (self.value() / (rhs.1 as nat)) * rhs.0,
            r.1.value() == self.value() % (rhs.1 as nat),
    {
        let (quotient, remainder) = self.raw.div_rem_u64(rhs.1);
        let (raw, carry) = quotient.overflowing_mul_u64(rhs.0);
        (amount(raw), amount(Uint::from_u64(remainder)))
    }
}

impl vstd::std_specs::ops::MulSpecImpl<(u64, u64)> for Amount {
    open spec fn obeys_mul_spec() -> bool {
        true
    }

    open spec fn mul_req(self, rhs: (u64, u64)) -> bool {
        rhs.1 > 0 && (self.value() / (rhs.1 as nat)) * rhs.0 < modulus()
    }

    open spec fn mul_spec(self, rhs: (u64, u64)) -> (Amount, Amount) {
        (
            amount_of((self.value() / (rhs.1 as nat)) * (rhs.0 as nat)),
            amount_of(self.value() % (rhs.1 as nat)),
        )
    }
}

impl core::ops::Div<u64> for Amount {
    type Output = Amount;

    /// The quotient, rounded down. `rhs` must not be zero.
    fn div(self, rhs: u64) -> (r: Amount)
        ensures
            r.value() == self.value() / (rhs as nat),
    {
        let (raw, remainder) = self.raw.div_rem_u64(rhs);
        amount(raw)
    }
}

impl vstd::std_specs::ops::DivSpecImpl<u64> for Amount {
    open spec fn obeys_div_spec() -> bool {
        true
    }

    open spec fn div_req(self, rhs: u64) -> bool {
        rhs > 0
    }

    open spec fn div_spec(self, rhs: u64) -> Amount {
        amount_of(self.value() / (rhs as nat))
    }
}

impl From<u64> for Amount {
    /// Treats the u64 as a count of micro units.
    fn from(val: u64) -> (r: Amount)
        ensures
            r.value() == val,
    {
        amount(Uint::from_u64(val))
    }
}

impl vstd::std_specs::convert::FromSpecImpl<u64> for Amount {
    open spec fn obeys_from_spec() -> bool {
        true
    }

    open spec fn from_spec(val: u64) -> Amount {
        amount_of(val as nat)
    }
}

impl Amount {
    /// The sum of the amounts. It must fit.
    pub fn sum(amounts: &Vec<Amount>) -> (r: Amount)
        requires
            total(amounts@) < modulus(),
        ensures
            r.value() == total(amounts@),
    {
        let mut acc = Amount::zero();
        let mut i: usize = 0;
        assert(amounts@.subrange(0, 0) =~= Seq::<Amount>::empty());
        while i < amounts.len()
            invariant
                i <= amounts@.len(),
                acc.value() == total(amounts@.subrange(0, i as int)),
                total(amounts@) < modulus(),
            decreases amounts@.len() - i,
        {
            proof {
                assert(amounts@.subrange(0, i + 1).drop_last() =~= amounts@.subrange(0, i as int));
                total_grows(amounts@, i + 1);
            }
            acc = acc + amounts[i];
            i = i + 1;
        }
        assert(amounts@.subrange(0, amounts@.len() as int) =~= amounts@);
        acc
    }

    /// The low 128 bits of the amount, unless it has higher ones.
    pub fn to_u128(&self) -> (r: Option<u128>)
        ensures
            r is Some <==> self.value() <= u128::MAX,
            r is Some ==> r.unwrap() == self.value(),
    {
        if self.raw.0[2] != 0 || self.raw.0[3] != 0 {
            None
        } else {
            Some(self.raw.0[0] as u128 + self.raw.0[1] as u128 * 0x1_0000_0000_0000_0000u128)
        }
    }
}

/// The sum of the amounts.
pub open spec fn total(amounts: Seq<Amount>) -> nat
    decreases amounts.len(),
{
    if amounts.len() == 0 {
        0
    } else {
        total(amounts.drop_last()) + amounts.last().value()
    }
}

/// The amounts at the front of a list sum to no more than all of them.
pub proof fn total_grows(amounts: Seq<Amount>, k: int)
    requires
        0 <= k <= amounts.len(),
    ensures
        total(amounts.subrange(0, k)) <= total(amounts),
    decreases amounts.len() - k,
{
    if k == amounts.len() {
        assert(amounts.subrange(0, k) =~= amounts);
    } else {
        total_grows(amounts, k + 1);
        assert(amounts.subrange(0, k + 1).drop_last() =~= amounts.subrange(0, k));
    }
}

/// Why a text or a number could not be made into an amount.
#[derive(Debug, Clone, Copy, PartialEq, Eq, Structural)]
pub enum AmountParseError {
    /// Too many digits: how many there were, and how many there may be.
    ScaleTooLarge(u32, u8),
    /// The value does not fit.
    InvalidRange,
    /// The scaled number does not fit.
    ConvertToDecimal,
    /// The text is no unsigned 256-bit integer.
    FromString,
    /// The text is no number.
    NotNumeric,
    /// The amount does not fit at the precision asked for.
    PrecisionOverflow,
    /// The amount has more precision than was asked for.
    PrecisionDecrease,
}

/// The most digits that a parsed amount may have.
pub const MAX_DIGITS: u8 = 77;

/// `n` zeros.
pub open spec fn zeros(n: nat) -> Seq<char> {
    Seq::new(n, |k: int| '0')
}

/// The numeral of `value` with a point before its last `denom` digits, and
/// zeros in front where it has fewer.
pub open spec fn precise_text(value: nat, denom: nat) -> Seq<char> {
    let digits = decimal(value);
    if digits.len() > denom {
        digits.subrange(0, digits.len() - denom) + seq!['.'] + digits.subrange(
            digits.len() - denom,
            digits.len() as int,
        )
    } else {
        seq!['0', '.'] + zeros((denom - digits.len()) as nat) + digits
    }
}

/// `s` without the characters `c` at its end.
pub open spec fn trim_end(s: Seq<char>, c: char) -> Seq<char>
    decreases s.len(),
{
    if s.len() > 0 && s.last() == c {
        trim_end(s.drop_last(), c)
    } else {
        s
    }
}

/// The shortest text of the amount: the precise one without the zeros at
/// its end, and without the point if nothing follows it.
pub open spec fn display_text(value: nat, denom: nat) -> Seq<char> {
    trim_end(trim_end(precise_text(value, denom), '0'), '.')
}

/// The character of one symbol of an amount's text: a digit, or the point.
pub open spec fn symbol_char(symbol: u8) -> char {
    if symbol < 10 {
        digit_char(symbol as nat)
    } else {
        '.'
    }
}

/// The text that a sequence of symbols spells.
pub open spec fn text_of(symbols: Seq<u8>) -> Seq<char> {
    Seq::new(symbols.len(), |k: int| symbol_char(symbols[k]))
}

/// One more symbol spells one more character.
pub proof fn text_of_push(symbols: Seq<u8>, symbol: u8)
    ensures
        text_of(symbols.push(symbol)) == text_of(symbols).push(symbol_char(symbol)),
{
    assert(text_of(symbols.push(symbol)) =~= text_of(symbols).push(symbol_char(symbol)));
}

/// The symbol that stands for the decimal point.
pub const POINT: u8 = 10;

/// The text that a sequence of symbols spells.
fn symbols_to_string(symbols: &Vec<u8>) -> (s: String)
    ensures
        s@ == text_of(symbols@),
{
    let mut s = String::new();
    let mut i: usize = 0;
    while i < symbols.len()
        invariant
            i <= symbols@.len(),
            s@ == text_of(symbols@).subrange(0, i as int),
        decreases symbols@.len() - i,
    {
        if symbols[i] < 10 {
            s.append(crate::uint::digit_str(symbols[i] as u64));
        } else {
            proof {
                reveal_strlit(".");
            }
            s.append(".");
            assert("."@ =~= seq!['.']);
        }
        i = i + 1;
        assert(s@ =~= text_of(symbols@).subrange(0, i as int));
    }
    assert(s@ =~= text_of(symbols@));
    s
}

/// Drop the symbols `symbol` from the end.
fn trim_symbols(symbols: &mut Vec<u8>, symbol: u8)
    requires
        symbol <= 10,
    ensures
        text_of(final(symbols)@) == trim_end(text_of(old(symbols)@), symbol_char(symbol)),
{
    loop
        invariant
            symbol <= 10,
            trim_end(text_of(symbols@), symbol_char(symbol)) == trim_end(
                text_of(old(symbols)@),
                symbol_char(symbol),
            ),
        ensures
            text_of(symbols@) == trim_end(text_of(old(symbols)@), symbol_char(symbol)),
        decreases symbols@.len(),
    {
        let n = symbols.len();
        if n == 0 {
            break ;
        }
        let last = symbols[n - 1];
        assert(text_of(symbols@).last() == symbol_char(last));
        if (last < 10 && last == symbol) || (last >= 10 && symbol == 10) {
            let ghost before = symbols@;
            symbols.pop();
            assert(text_of(symbols@) =~= text_of(before).drop_last());
        } else {
            break ;
        }
    }
}

impl DenominatedAmount {
    /// The symbols of the precise text.
    fn precise_symbols(&self) -> (r: Vec<u8>)
        ensures
            text_of(r@) == precise_text(self.amount.value(), self.denom.0 as nat),
    {
        let decimals = self.denom.0 as usize;
        let digits = self.amount.raw.to_decimal_digits();
        let ghost text = decimal(self.amount.value());
        assert(text_of(digits@) =~= numeral(digits@));
        let mut out: Vec<u8> = Vec::new();
        if digits.len() > decimals {
            let split = digits.len() - decimals;
            let mut i: usize = 0;
            while i < split
                invariant
                    i <= split <= digits@.len(),
                    text_of(digits@) == text,
                    text_of(out@) == text.subrange(0, i as int),
                decreases split - i,
            {
                proof {
                    text_of_push(out@, digits@[i as int]);
                    assert(text[i as int] == text_of(digits@)[i as int]);
                }
                out.push(digits[i]);
                i = i + 1;
                assert(text_of(out@) =~= text.subrange(0, i as int));
            }
            proof {
                text_of_push(out@, POINT);
            }
            out.push(POINT);
            assert(text_of(out@) =~= text.subrange(0, split as int) + seq!['.']);
            while i < digits.len()
                invariant
                    split <= i <= digits@.len(),
                    text_of(digits@) == text,
                    text_of(out@) == text.subrange(0, split as int) + seq!['.'] + text.subrange(
                        split as int,
                        i as int,
                    ),
                decreases digits@.len() - i,
            {
                proof {
                    text_of_push(out@, digits@[i as int]);
                    assert(text[i as int] == text_of(digits@)[i as int]);
                }
                out.push(digits[i]);
                i = i + 1;
                assert(text_of(out@) =~= text.subrange(0, split as int) + seq!['.']
                    + text.subrange(split as int, i as int));
            }
        } else {
            let pad = decimals - digits.len();
            out.push(0);
            out.push(POINT);
            assert(text_of(out@) =~= seq!['0', '.'] + zeros(0));
            let mut i: usize = 0;
            while i < pad
                invariant
                    i <= pad,
                    text_of(out@) == seq!['0', '.'] + zeros(i as nat),
                decreases pad - i,
            {
                proof {
                    text_of_push(out@, 0);
                }
                out.push(0);
                i = i + 1;
                assert(text_of(out@) =~= seq!['0', '.'] + zeros(i as nat));
            }
            let mut j: usize = 0;
            while j < digits.len()
                invariant
                    j <= digits@.len(),
                    text_of(digits@) == text,
                    text_of(out@) == seq!['0', '.'] + zeros(pad as nat) + text.subrange(
                        0,
                        j as int,
                    ),
                decreases digits@.len() - j,
            {
                proof {
                    text_of_push(out@, digits@[j as int]);
                    assert(text[j as int] == text_of(digits@)[j as int]);
                }
                out.push(digits[j]);
                j = j + 1;
                assert(text_of(out@) =~= seq!['0', '.'] + zeros(pad as nat) + text.subrange(
                    0,
                    j as int,
                ));
            }
            assert(text.subrange(0, digits@.len() as int) =~= text);
        }
        out
    }

    /// A precise string representation. The number of decimal places in
    /// this string gives the denomination.
    pub fn to_string_precise(&self) -> (r: String)
        ensures
            r@ == precise_text(self.amount.value(), self.denom.0 as nat),
    {
        let symbols = self.precise_symbols();
        symbols_to_string(&symbols)
    }

    /// The shortest string representation: without the zeros at the end of
    /// the precise one, and without the point if nothing follows it.
    pub fn to_string(&self) -> (r: String)
        ensures
            r@ == display_text(self.amount.value(), self.denom.0 as nat),
    {
        let mut symbols = self.precise_symbols();
        trim_symbols(&mut symbols, 0);
        trim_symbols(&mut symbols, POINT);
        symbols_to_string(&symbols)
    }

    /// Find the minimal precision that holds this value losslessly. This
    /// equates to stripping trailing zeros after the decimal place.
    pub fn canonical(self) -> (r: Self)
        ensures
            r.denom.0 <= self.denom.0,
            r.amount.value() * power(10, (self.denom.0 - r.denom.0) as nat)
                == self.amount.value(),
            r.denom.0 == 0 || r.amount.value() % 10 != 0,
    {
        let mut value = self.amount.raw;
        let mut denom: u8 = self.denom.0;
        let mut k: u8 = 0;
        assert(value.value() * power(10, 0) == value.value()) by (nonlinear_arith)
            requires
                power(10, 0) == 1,
        ;
        while k < self.denom.0
            invariant
                k <= self.denom.0,
                denom <= self.denom.0,
                denom + k >= self.denom.0,
                value.value() * power(10, (self.denom.0 - denom) as nat) == self.amount.value(),
                denom + k > self.denom.0 ==> value.value() % 10 != 0,
            decreases self.denom.0 - k,
        {
            let (div, rem) = value.div_rem_u64(10);
            if rem == 0 {
                proof {
                    let e = (self.denom.0 - denom) as nat;
                    assert(power(10, e + 1) == 10 * power(10, e));
                    assert(div.value() * (10 * power(10, e)) == (10 * div.value()) * power(10, e))
                        by (nonlinear_arith);
                }
                value = div;
                denom = denom - 1;
            }
            k = k + 1;
        }
        DenominatedAmount { amount: Amount { raw: value }, denom: Denomination(denom) }
    }

    /// Attempt to increase the precision of an amount. Can fail if the
    /// resulting amount does not fit into 256 bits.
    pub fn increase_precision(self, denom: Denomination) -> (r: Result<Self, AmountParseError>)
        ensures
            denom.0 < self.denom.0 ==> r == Err::<Self, AmountParseError>(
                AmountParseError::PrecisionDecrease,
            ),
            denom.0 >= self.denom.0 ==> {
                let scale = power(10, (denom.0 - self.denom.0) as nat);
                if scale < modulus() && self.amount.value() * scale < modulus() {
                    &&& r is Ok
                    &&& r.unwrap().denom == denom
                    &&& r.unwrap().amount.value() == self.amount.value() * scale
                } else {
                    r == Err::<Self, AmountParseError>(AmountParseError::PrecisionOverflow)
                }
            },
    {
        if denom.0 < self.denom.0 {
            return Err(AmountParseError::PrecisionDecrease);
        }
        let scaling = match Uint::from_u64(10).checked_pow((denom.0 - self.denom.0) as u32) {
            Some(scaling) => scaling,
            None => {
                return Err(AmountParseError::PrecisionOverflow);
            },
        };
        match self.amount.raw.checked_mul(scaling) {
            Some(amount) => Ok(DenominatedAmount { amount: Amount { raw: amount }, denom }),
            None => Err(AmountParseError::PrecisionOverflow),
        }
    }
}

/// Whether the character is a decimal digit.
pub open spec fn is_digit(c: char) -> bool {
    '0' <= c <= '9'
}

/// The value of a decimal digit.
pub open spec fn digit_of(c: char) -> nat {
    (c as int - '0' as int) as nat
}

/// Whether every character is a decimal digit.
pub open spec fn only_digits(s: Seq<char>) -> bool {
    forall|i: int| 0 <= i < s.len() ==> is_digit(#[trigger] s[i])
}

/// The number that a sequence of decimal digits spells; zero for none.
pub open spec fn digits_value(s: Seq<char>) -> nat
    decreases s.len(),
{
    if s.len() == 0 {
        0
    } else {
        10 * digits_value(s.drop_last()) + digit_of(s.last())
    }
}

/// Whether `p` is the place of the first decimal point of the text.
pub open spec fn is_first_point(s: Seq<char>, p: int) -> bool {
    &&& 0 <= p < s.len()
    &&& s[p] == '.'
    &&& forall|q: int| 0 <= q < p ==> s[q] != '.'
}

/// Whether the text holds a decimal point.
pub open spec fn has_point(s: Seq<char>) -> bool {
    exists|p: int| is_first_point(s, p)
}

/// The place of the first decimal point of a text that has one.
pub open spec fn first_point(s: Seq<char>) -> int {
    choose|p: int| is_first_point(s, p)
}

/// The text without its first decimal point.
pub open spec fn digits_part(s: Seq<char>) -> Seq<char> {
    if has_point(s) {
        s.remove(first_point(s))
    } else {
        s
    }
}

/// How many characters follow the first decimal point; none without one.
pub open spec fn precision_of(s: Seq<char>) -> nat {
    if has_point(s) {
        (s.len() - first_point(s) - 1) as nat
    } else {
        0
    }
}

/// What a text is read as: the number that its digits spell, and the count
/// of digits behind the point. The text may hold digits and at most one
/// point, and no more than 77 digits; such a number always fits.
pub open spec fn parsed(s: Seq<char>) -> Result<(nat, u8), AmountParseError> {
    let digits = digits_part(s);
    if !only_digits(digits) {
        Err(AmountParseError::NotNumeric)
    } else if digits.len() > MAX_DIGITS {
        Err(AmountParseError::ScaleTooLarge((digits.len() % 0x1_0000_0000) as u32, MAX_DIGITS))
    } else {
        Ok((digits_value(digits), precision_of(s) as u8))
    }
}

/// Digits spell a number below ten to the power of their count; up to 77
/// digits spell a number below 2^256.
pub proof fn digits_value_is_bounded(s: Seq<char>)
    requires
        only_digits(s),
    ensures
        digits_value(s) < power(10, s.len()),
        s.len() <= 77 ==> digits_value(s) < modulus(),
    decreases s.len(),
{
    if s.len() > 0 {
        assert(only_digits(s.drop_last())) by {
            assert forall|i: int| 0 <= i < s.drop_last().len() implies is_digit(
                #[trigger] s.drop_last()[i],
            ) by {
                assert(s.drop_last()[i] == s[i]);
            }
        }
        digits_value_is_bounded(s.drop_last());
        assert(is_digit(s.last()));
        assert(power(10, s.len()) == 10 * power(10, (s.len() - 1) as nat));
    }
    if s.len() <= 77 {
        power_grows(10, s.len(), 77);
        ten_to_the_77th_fits();
    }
}

/// The character of a digit is a digit, of the same value.
pub proof fn digit_char_is_a_digit(d: nat)
    requires
        d < 10,
    ensures
        is_digit(digit_char(d)),
        digit_of(digit_char(d)) == d,
{
}

/// The numeral of a number is made of digits, and spells the number.
pub proof fn decimal_spells_the_number(n: nat)
    ensures
        decimal(n).len() >= 1,
        only_digits(decimal(n)),
        digits_value(decimal(n)) == n,
    decreases n,
{
    if n < 10 {
        digit_char_is_a_digit(n);
        assert(decimal(n).drop_last() =~= Seq::<char>::empty());
        assert(decimal(n).last() == digit_char(n));
        assert(digits_value(decimal(n).drop_last()) == 0);
    } else {
        decimal_spells_the_number(n / 10);
        digit_char_is_a_digit(n % 10);
        let head = decimal(n / 10);
        let all = decimal(n);
        assert(all.drop_last() =~= head);
        assert(all.last() == digit_char(n % 10));
        assert forall|i: int| 0 <= i < all.len() implies is_digit(#[trigger] all[i]) by {
            if i < head.len() {
                assert(all[i] == head[i]);
            }
        }
    }
}

/// Zeros in front of digits do not change the number that they spell.
pub proof fn leading_zeros_spell_nothing(k: nat, s: Seq<char>)
    ensures
        digits_value(zeros(k) + s) == digits_value(s),
    decreases s.len(), k,
{
    let all = zeros(k) + s;
    if s.len() > 0 {
        leading_zeros_spell_nothing(k, s.drop_last());
        assert(all.drop_last() =~= zeros(k) + s.drop_last());
        assert(all.last() == s.last());
    } else if k > 0 {
        leading_zeros_spell_nothing((k - 1) as nat, s);
        assert(all.drop_last() =~= zeros((k - 1) as nat) + s);
        assert(all.last() == '0');
    } else {
        assert(all =~= s);
    }
}

/// The precise text of an amount reads back as the amount and its
/// denomination, where it has no more than 77 digits.
pub proof fn precise_text_reads_back(value: nat, denom: nat)
    requires
        decimal(value).len() <= MAX_DIGITS,
        denom < MAX_DIGITS,
    ensures
        parsed(precise_text(value, denom)) == Ok::<(nat, u8), AmountParseError>(
            (value, denom as u8),
        ),
{
    decimal_spells_the_number(value);
    let digits = decimal(value);
    let text = precise_text(value, denom);
    let len = digits.len();
    if len > denom {
        let p = (len - denom) as int;
        assert(text[p] == '.');
        assert forall|q: int| 0 <= q < p implies text[q] != '.' by {
            assert(text[q] == digits[q]);
            assert(is_digit(digits[q]));
        }
        assert(is_first_point(text, p));
        let found = first_point(text);
        assert(is_first_point(text, found));
        assert(found == p) by {
            if found < p {
            }
            if p < found {
            }
        }
        assert(digits_part(text) =~= digits);
    } else {
        let pad = (denom - len) as nat;
        assert(text[0] == '0');
        assert(text[1] == '.');
        assert(is_first_point(text, 1));
        let found = first_point(text);
        assert(is_first_point(text, found));
        assert(found == 1) by {
            if found < 1 {
            }
            if 1 < found {
            }
        }
        let rest = zeros(pad + 1) + digits;
        assert(digits_part(text) =~= rest);
        leading_zeros_spell_nothing(pad + 1, digits);
        assert forall|i: int| 0 <= i < rest.len() implies is_digit(#[trigger] rest[i]) by {
            if i >= pad + 1 {
                assert(rest[i] == digits[i - (pad + 1)]);
            }
        }
    }
}

/// The number that a sequence of digit values spells; zero for none.
pub open spec fn horner(values: Seq<u8>) -> nat
    decreases values.len(),
{
    if values.len() == 0 {
        0
    } else {
        10 * horner(values.drop_last()) + values.last() as nat
    }
}

/// The digits at the front of a numeral spell no more than the whole.
pub proof fn horner_grows(values: Seq<u8>, k: int)
    requires
        0 <= k <= values.len(),
    ensures
        horner(values.subrange(0, k)) <= horner(values),
    decreases values.len() - k,
{
    if k == values.len() {
        assert(values.subrange(0, k) =~= values);
    } else {
        horner_grows(values, k + 1);
        assert(values.subrange(0, k + 1).drop_last() =~= values.subrange(0, k));
    }
}

/// Digit values spell the number that their digits spell.
pub proof fn horner_of_digits(values: Seq<u8>, digits: Seq<char>)
    requires
        values.len() == digits.len(),
        forall|q: int| 0 <= q < values.len() ==> values[q] == digit_of(#[trigger] digits[q]),
    ensures
        horner(values) == digits_value(digits),
    decreases values.len(),
{
    if values.len() > 0 {
        horner_of_digits(values.drop_last(), digits.drop_last());
    }
}

/// The first point of a text that has one, and what is left without it.
pub proof fn digits_part_len(s: Seq<char>)
    ensures
        has_point(s) ==> is_first_point(s, first_point(s)) && digits_part(s).len() == s.len()
            - 1,
        !has_point(s) ==> digits_part(s) == s,
{
    if has_point(s) {
        let p = first_point(s);
        assert(is_first_point(s, p));
    }
}

/// A character of the text, found again in the text without its point.
pub proof fn digits_part_at(s: Seq<char>, i: int)
    requires
        0 <= i < s.len(),
        !is_first_point(s, i),
    ensures
        has_point(s) ==> is_first_point(s, first_point(s)),
        has_point(s) && i < first_point(s) ==> i < digits_part(s).len() && digits_part(s)[i]
            == s[i],
        has_point(s) && i > first_point(s) ==> 0 <= i - 1 < digits_part(s).len()
            && digits_part(s)[i - 1] == s[i],
        !has_point(s) ==> digits_part(s)[i] == s[i],
        has_point(s) ==> digits_part(s).len() == s.len() - 1,
        has_point(s) ==> i != first_point(s),
{
    if has_point(s) {
        let p = first_point(s);
        assert(is_first_point(s, p));
        if p < i && i < p {
        }
        if i == p {
            assert(is_first_point(s, i));
        }
    }
}

/// The number that the digit values spell, unless it does not fit.
fn horner_value(values: &Vec<u8>) -> (r: Option<Uint>)
    ensures
        r is Some <==> horner(values@) < modulus(),
        r is Some ==> r.unwrap().value() == horner(values@),
{
    let mut value = Uint::zero();
    let mut k: usize = 0;
    assert(values@.subrange(0, 0) =~= Seq::<u8>::empty());
    while k < values.len()
        invariant
            k <= values@.len(),
            value.value() == horner(values@.subrange(0, k as int)),
        decreases values@.len() - k,
    {
        let ghost next = values@.subrange(0, k + 1);
        assert(next.drop_last() =~= values@.subrange(0, k as int));
        assert(next.last() == values@[k as int]);
        proof {
            horner_grows(values@, k + 1);
        }
        let (scaled, carry) = value.overflowing_mul_u64(10);
        if carry != 0 {
            return None;
        }
        value = match scaled.checked_add(Uint::from_u64(values[k] as u64)) {
            Some(sum) => sum,
            None => {
                return None;
            },
        };
        k = k + 1;
    }
    assert(values@.subrange(0, values@.len() as int) =~= values@);
    Some(value)
}

/// The place of the first decimal point among ASCII bytes, or their count
/// where there is none.
fn find_point(bytes: &[u8], Ghost(text): Ghost<Seq<char>>) -> (point: usize)
    requires
        bytes@.len() == text.len(),
        forall|q: int| 0 <= q < text.len() ==> bytes@[q] == (#[trigger] text[q]) as u8,
        forall|q: int| 0 <= q < text.len() ==> '\0' <= #[trigger] text[q] <= '\u{7f}',
    ensures
        point <= bytes@.len(),
        point < bytes@.len() ==> has_point(text) && first_point(text) == point,
        point == bytes@.len() ==> !has_point(text),
{
    let n = bytes.len();
    let mut i: usize = 0;
    while i < n
        invariant
            i <= n,
            n == text.len(),
            bytes@.len() == n,
            forall|q: int| 0 <= q < text.len() ==> bytes@[q] == (#[trigger] text[q]) as u8,
            forall|q: int| 0 <= q < text.len() ==> '\0' <= #[trigger] text[q] <= '\u{7f}',
            forall|q: int| 0 <= q < i ==> text[q] != '.',
        decreases n - i,
    {
        if bytes[i] == 46 {
            assert(text[i as int] == '.');
            assert(is_first_point(text, i as int));
            let ghost p = first_point(text);
            assert(is_first_point(text, p));
            assert(p == i) by {
                if p < i {
                }
                if i < p {
                }
            }
            return i;
        }
        assert(text[i as int] != '.');
        i = i + 1;
    }
    assert(!has_point(text)) by {
        if has_point(text) {
            let p = first_point(text);
            assert(is_first_point(text, p));
        }
    }
    n
}

impl DenominatedAmount {
    /// Read an amount from a text of decimal digits with at most one
    /// decimal point. The digits behind the point give the denomination.
    pub fn from_str(s: &str) -> (r: Result<Self, AmountParseError>)
        ensures
            match parsed(s@) {
                Ok((value, denom)) => r is Ok && r.unwrap().amount.value() == value
                    && r.unwrap().denom == Denomination(denom),
                Err(e) => r == Err::<Self, AmountParseError>(e),
            },
    {
        let ghost text = s@;
        let ghost digits = digits_part(text);
        if !s.is_ascii() {
            proof {
                let bad = choose|i: int|
                    0 <= i < text.len() && !('\0' <= #[trigger] text[i] && text[i] <= '\u{7f}');
                digits_part_at(text, bad);
                if has_point(text) {
                    if bad < first_point(text) {
                        assert(!is_digit(digits[bad]));
                    } else {
                        assert(!is_digit(digits[bad - 1]));
                    }
                } else {
                    assert(!is_digit(digits[bad]));
                }
            }
            return Err(AmountParseError::NotNumeric);
        }
        let bytes = s.as_bytes();
        proof {
            vstd::string::is_ascii_spec_bytes(s);
        }
        assert(bytes@.len() == text.len());
        assert(forall|q: int| 0 <= q < text.len() ==> bytes@[q] == (#[trigger] text[q]) as u8);
        let n = bytes.len();
        let point = find_point(bytes, Ghost(text));
        let mut values: Vec<u8> = Vec::new();
        let mut j: usize = 0;
        while j < n
            invariant
                j <= n,
                n == text.len(),
                bytes@.len() == n,
                point <= n,
                forall|q: int| 0 <= q < text.len() ==> bytes@[q] == (#[trigger] text[q]) as u8,
                forall|q: int| 0 <= q < text.len() ==> '\0' <= #[trigger] text[q] <= '\u{7f}',
                text == s@,
                digits == digits_part(text),
                point < n ==> has_point(text) && first_point(text) == point,
                point == n ==> !has_point(text),
                values@.len() == (if j <= point {
                    j as int
                } else {
                    j - 1
                }),
                forall|q: int|
                    0 <= q < values@.len() ==> q < digits.len() && is_digit(#[trigger] digits[q])
                        && values@[q] == digit_of(digits[q]),
            decreases n - j,
        {
            if j != point {
                let b = bytes[j];
                let ghost at = values@.len() as int;
                proof {
                    digits_part_len(text);
                    digits_part_at(text, j as int);
                }
                assert(0 <= at < digits.len());
                assert(digits[at] == text[j as int]);
                assert(b == text[j as int] as u8);
                if b < 48 || b > 57 {
                    assert(!is_digit(text[j as int]));
                    assert(!is_digit(digits[at]));
                    assert(!only_digits(digits));
                    return Err(AmountParseError::NotNumeric);
                }
                values.push(b - 48);
            }
            j = j + 1;
        }
        proof {
            digits_part_len(text);
            assert(values@.len() == digits.len());
            assert(only_digits(digits));
            horner_of_digits(values@, digits);
        }
        if values.len() > 77 {
            return Err(
                AmountParseError::ScaleTooLarge(
                    (values.len() as u64 % 0x1_0000_0000u64) as u32,
                    MAX_DIGITS,
                ),
            );
        }
        proof {
            digits_value_is_bounded(digits);
        }
        let value = match horner_value(&values) {
            Some(value) => value,
            // no more than 77 digits are left here, and they always fit
            None => {
                return Err(AmountParseError::InvalidRange);
            },
        };
        let precision: usize = if point < n {
            n - point - 1
        } else {
            0
        };
        Ok(DenominatedAmount { amount: Amount { raw: value }, denom: Denomination(precision as u8) })
    }
}

/// The four possible u64 words in a [`Uint`].
#[derive(Debug, Clone, Copy, PartialEq, Eq, Hash, Structural)]
pub enum MaspDenom {
    Zero,
    One,
    Two,
    Three,
}

impl MaspDenom {
    /// The place of the word.
    pub open spec fn place(&self) -> int {
        match self {
            MaspDenom::Zero => 0,
            MaspDenom::One => 1,
            MaspDenom::Two => 2,
            MaspDenom::Three => 3,
        }
    }

    /// The place of the word.
    pub fn index(&self) -> (r: usize)
        ensures
            r == self.place(),
    {
        match self {
            MaspDenom::Zero => 0,
            MaspDenom::One => 1,
            MaspDenom::Two => 2,
            MaspDenom::Three => 3,
        }
    }

    /// The denomination of the given place.
    pub fn from_u8(denom: u8) -> (r: Self)
        requires
            denom <= 3,
        ensures
            r.place() == denom,
    {
        if denom == 0 {
            MaspDenom::Zero
        } else if denom == 1 {
            MaspDenom::One
        } else if denom == 2 {
            MaspDenom::Two
        } else {
            MaspDenom::Three
        }
    }

    /// The denominations of the three lower words, in order.
    pub fn iter() -> (r: Vec<MaspDenom>)
        ensures
            r@ == seq![MaspDenom::Zero, MaspDenom::One, MaspDenom::Two],
    {
        let mut all: Vec<MaspDenom> = Vec::new();
        all.push(MaspDenom::Zero);
        all.push(MaspDenom::One);
        all.push(MaspDenom::Two);
        assert(all@ =~= seq![MaspDenom::Zero, MaspDenom::One, MaspDenom::Two]);
        all
    }

    /// Get the corresponding u64 word from the input amount.
    pub fn denominate(&self, amount: &Amount) -> (r: u64)
        ensures
            r == amount.raw.0[self.place()],
    {
        amount.raw.0[self.index()]
    }
}

impl Amount {
    /// Given a string and a denomination, parse an amount from string.
    pub fn from_str(string: &str, denom: u8) -> (r: Result<Amount, AmountParseError>)
        ensures
            match parsed(string@) {
                Err(e) => r == Err::<Amount, AmountParseError>(e),
                Ok((value, precision)) => if denom < precision {
                    r == Err::<Amount, AmountParseError>(AmountParseError::PrecisionDecrease)
                } else {
                    let scale = power(10, (denom - precision) as nat);
                    if scale < modulus() && value * scale < modulus() {
                        r is Ok && r.unwrap().value() == value * scale
                    } else {
                        r == Err::<Amount, AmountParseError>(AmountParseError::PrecisionOverflow)
                    }
                },
            },
    {
        match DenominatedAmount::from_str(string) {
            Err(e) => Err(e),
            Ok(parsed) => match parsed.increase_precision(Denomination(denom)) {
                Ok(scaled) => Ok(scaled.amount),
                Err(e) => Err(e),
            },
        }
    }

    /// Attempt to convert an unsigned integer to an `Amount` with the
    /// specified precision.
    pub fn from_uint(uint: Uint, denom: u8) -> (r: Result<Self, AmountParseError>)
        ensures
            ({
                let scale = power(10, denom as nat);
                if scale < modulus() && scale * uint.value() < modulus() {
                    r is Ok && r.unwrap().value() == scale * uint.value()
                } else {
                    r == Err::<Self, AmountParseError>(AmountParseError::ConvertToDecimal)
                }
            }),
    {
        let scaling = match Uint::from_u64(10).checked_pow(denom as u32) {
            Some(scaling) => scaling,
            None => {
                return Err(AmountParseError::ConvertToDecimal);
            },
        };
        match scaling.checked_mul(uint) {
            Some(amount) => Ok(Amount { raw: amount }),
            None => Err(AmountParseError::ConvertToDecimal),
        }
    }

    /// Given a u64 and [`MaspDenom`], construct the corresponding amount.
    pub fn from_masp_denominated(val: u64, denom: MaspDenom) -> (r: Self)
        ensures
            forall|k: int|
                0 <= k < 4 ==> #[trigger] r.raw.0[k] == (if k == denom.place() {
                    val
                } else {
                    0
                }),
    {
        let raw = match denom {
            MaspDenom::Zero => [val, 0, 0, 0],
            MaspDenom::One => [0, val, 0, 0],
            MaspDenom::Two => [0, 0, val, 0],
            MaspDenom::Three => [0, 0, 0, val],
        };
        Amount { raw: Uint(raw) }
    }

    /// Get a string representation of a native token amount.
    pub fn to_string_native(&self) -> (r: String)
        ensures
            r@ == precise_text(self.value(), NATIVE_MAX_DECIMAL_PLACES as nat),
    {
        DenominatedAmount {
            amount: *self,
            denom: Denomination(NATIVE_MAX_DECIMAL_PLACES),
        }.to_string_precise()
    }

    /// Add denomination info, where the token has one.
    pub fn denominated(&self, denom: Option<Denomination>) -> (r: Option<DenominatedAmount>)
        ensures
            r is Some <==> denom is Some,
            r is Some ==> r.unwrap().amount == *self && r.unwrap().denom == denom.unwrap(),
    {
        match denom {
            Some(denom) => Some(DenominatedAmount { amount: *self, denom }),
            None => None,
        }
    }

    /// Convert to an [`Amount`] under the assumption that the input string
    /// encodes all necessary decimal places.
    pub fn from_string_precise(string: &str) -> (r: Result<Self, AmountParseError>)
        ensures
            match parsed(string@) {
                Ok((value, denom)) => r is Ok && r.unwrap().value() == value,
                Err(e) => r == Err::<Self, AmountParseError>(e),
            },
    {
        match DenominatedAmount::from_str(string) {
            Ok(den) => Ok(den.amount),
            Err(e) => Err(e),
        }
    }
}

impl Amount {
    /// The whole part of a decimal that is not negative.
    pub fn from_dec(dec: crate::dec::Dec) -> (r: Self)
        requires
            dec.wf(),
            dec.raw() >= 0,
        ensures
            r.value() == dec.raw() / (crate::dec::SCALE as int),
    {
        match dec.to_uint() {
            Some(raw) => Amount { raw },
            None => Amount::zero(),
        }
    }

    /// Get the amount as a [`Change`].
    pub fn change(&self) -> (r: Change)
        requires
            2 * self.value() < modulus(),
        ensures
            r.wf(),
            r.value() == self.value(),
    {
        match I256::try_from_uint(self.raw) {
            Some(change) => change,
            None => I256::zero(),
        }
    }

    /// Create amount from the absolute value of `Change`.
    pub fn from_change(change: Change) -> (r: Self)
        ensures
            r.value() == (if change.value() < 0 {
                -change.value()
            } else {
                change.value()
            }),
    {
        Amount { raw: change.abs() }
    }
}

impl MaspDenom {
    /// What `denominate_i64` gives for a word of the magnitude: the word
    /// read as a signed number, with the sign of the change.
    pub open spec fn signed_word(word: u64, negative: bool) -> int {
        let val = if word <= i64::MAX {
            word as int
        } else {
            word - 0x1_0000_0000_0000_0000
        };
        if negative {
            -val
        } else {
            val
        }
    }

    /// Get the corresponding u64 word from the magnitude of the input
    /// change, as a signed number with the sign of the change.
    pub fn denominate_i64(&self, amount: &Change) -> (r: i64)
        requires
            amount.wf(),
            !(amount.negative && amount.magnitude.0[self.place()] == 0x8000_0000_0000_0000),
        ensures
            r == Self::signed_word(amount.magnitude.0[self.place()], amount.negative),
    {
        let word: u64 = amount.abs().0[self.index()];
        let val: i64 = if word <= 0x7FFF_FFFF_FFFF_FFFF {
            word as i64
        } else {
            ((word - 0x8000_0000_0000_0000) as i64) + i64::MIN
        };
        if amount.is_negative() {
            -val
        } else {
            val
        }
    }
}

/// Key segment for a balance key.
pub const BALANCE_STORAGE_KEY: &'static str = "balance";

/// Key segment for a denomination key.
pub const DENOM_STORAGE_KEY: &'static str = "denom";

/// Key segment for head shielded transaction pointer keys.
pub const HEAD_TX_KEY: &'static str = "head-tx";

/// Key segment prefix for shielded transaction key.
pub const TX_KEY_PREFIX: &'static str = "tx-";

/// Key segment prefix for MASP conversions.
pub const CONVERSION_KEY_PREFIX: &'static str = "conv";

/// Key segment prefix for pinned shielded transactions.
pub const PIN_KEY_PREFIX: &'static str = "pin-";

/// Key segment for the total supply of a token.
pub const TOTAL_SUPPLY_STORAGE_KEY: &'static str = "total_supply";

/// A fully qualified (multi-) token address.
#[derive(Debug, Clone, PartialEq, Eq, Hash)]
pub struct TokenAddress {
    /// The address of the (multi-) token.
    pub address: Address,
    /// If it is a multi-token, this indicates the sub-token.
    pub sub_prefix: Option<Key>,
}

impl TokenAddress {
    /// A function for displaying a [`TokenAddress`]. Takes a human readable
    /// name of the token as input.
    pub fn format_with_alias(&self, alias: &str) -> (r: String)
        ensures
            r@ == (match self.sub_prefix {
                Some(k) => alias@ + seq!['/'] + key_text(k@),
                None => alias@,
            }),
    {
        let mut text = String::from_str(alias);
        match &self.sub_prefix {
            Some(k) => {
                proof {
                    reveal_strlit("/");
                }
                text.append("/");
                let key = k.to_string();
                text.append(key.as_str());
                assert(text@ =~= alias@ + seq!['/'] + key_text(k@));
            },
            None => {},
        }
        text
    }

    /// The text of the token address: the address, and the sub-token behind
    /// a `/` where there is one.
    pub fn to_string(&self) -> (r: String)
        ensures
            r@ == (match self.sub_prefix {
                Some(k) => crate::address::encoded(self.address@) + seq!['/'] + key_text(k@),
                None => crate::address::encoded(self.address@),
            }),
    {
        let address = self.address.encode();
        let r = self.format_with_alias(address.as_str());
        r
    }
}

/// A simple bilateral token transfer.
#[derive(Debug, Clone, PartialEq, Eq, Hash)]
pub struct Transfer {
    /// Source address will spend the tokens.
    pub source: Address,
    /// Target address will receive the tokens.
    pub target: Address,
    /// Token's address.
    pub token: Address,
    /// Source token's sub prefix.
    pub sub_prefix: Option<Key>,
    /// The amount of tokens.
    pub amount: DenominatedAmount,
    /// The unused storage location at which to place TxId.
    pub key: Option<String>,
    /// The hash of the section with the shielded transaction part.
    pub shielded: Option<crate::hash::Hash>,
}

#[allow(missing_docs)]
#[derive(Debug, Clone, PartialEq, Eq)]
pub enum TransferError {
    /// Invalid address: why it could not be read.
    Address(String),
    /// Invalid amount.
    Amount(AmountParseError),
    /// No token is specified.
    NoToken,
}

/// The string segment `text`.
pub open spec fn string_seg(text: Seq<char>) -> DbKeySegView {
    DbKeySegView::StringSeg(text)
}

/// The address segment of `address`.
pub open spec fn address_seg(address: AddressView) -> DbKeySegView {
    DbKeySegView::AddressSeg(address)
}

/// Obtain a storage key for user's balance.
pub fn balance_key(token_addr: &Address, owner: &Address) -> (r: Key)
    ensures
        r@ == seq![
            address_seg(token_addr@),
            string_seg(BALANCE_STORAGE_KEY@),
            address_seg(owner@),
        ],
{
    Key::from_seg(token_addr.to_db_key()).push(
        DbKeySeg::StringSeg(String::from_str(BALANCE_STORAGE_KEY)),
    ).push(owner.to_db_key())
}

/// Obtain a storage key prefix for all users' balances.
pub fn balance_prefix(token_addr: &Address) -> (r: Key)
    ensures
        r@ == seq![address_seg(token_addr@), string_seg(BALANCE_STORAGE_KEY@)],
{
    Key::from_seg(token_addr.to_db_key()).push(
        DbKeySeg::StringSeg(String::from_str(BALANCE_STORAGE_KEY)),
    )
}

/// Obtain a storage key prefix for multitoken balances.
pub fn multitoken_balance_prefix(token_addr: &Address, sub_prefix: &Key) -> (r: Key)
    ensures
        r@ == seq![address_seg(token_addr@)] + sub_prefix@,
{
    Key::from_seg(token_addr.to_db_key()).join(sub_prefix)
}

/// Obtain a storage key for user's multitoken balance.
pub fn multitoken_balance_key(prefix: &Key, owner: &Address) -> (r: Key)
    ensures
        r@ == prefix@ + seq![string_seg(BALANCE_STORAGE_KEY@), address_seg(owner@)],
{
    let r = prefix.push(DbKeySeg::StringSeg(String::from_str(BALANCE_STORAGE_KEY))).push(
        owner.to_db_key(),
    );
    assert(r@ =~= prefix@ + seq![string_seg(BALANCE_STORAGE_KEY@), address_seg(owner@)]);
    r
}

/// Whether the key is a token, the balance segment and an owner.
pub open spec fn is_token_balance(key: Seq<DbKeySegView>) -> bool {
    &&& key.len() == 3
    &&& key[0] is AddressSeg
    &&& key[1] == string_seg(BALANCE_STORAGE_KEY@)
    &&& key[2] is AddressSeg
}

/// Check if the given storage key is balance key for the given token. If it
/// is, returns the owner.
pub fn is_balance_key<'a>(token_addr: &Address, key: &'a Key) -> (r: Option<&'a Address>)
    ensures
        r is Some <==> is_token_balance(key@) && key@[0] == address_seg(token_addr@),
        r is Some ==> key@[2] == address_seg(r.unwrap()@),
{
    if key.segments.len() != 3 {
        return None;
    }
    assert(key@[0] == key.segments@[0]@ && key@[1] == key.segments@[1]@ && key@[2]
        == key.segments@[2]@);
    match (&key.segments[0], &key.segments[2]) {
        (DbKeySeg::AddressSeg(addr), DbKeySeg::AddressSeg(owner)) => {
            if key.segments[1].is_string(BALANCE_STORAGE_KEY) && addr.equals(token_addr) {
                Some(owner)
            } else {
                None
            }
        },
        _ => None,
    }
}

/// Check if the given storage key is balance key for unspecified token. If
/// it is, returns the token and owner address.
pub fn is_any_token_balance_key(key: &Key) -> (r: Option<[&Address; 2]>)
    ensures
        r is Some <==> is_token_balance(key@),
        r is Some ==> key@[0] == address_seg(r.unwrap()[0]@) && key@[2] == address_seg(
            r.unwrap()[1]@,
        ),
{
    if key.segments.len() != 3 {
        return None;
    }
    assert(key@[0] == key.segments@[0]@ && key@[1] == key.segments@[1]@ && key@[2]
        == key.segments@[2]@);
    match (&key.segments[0], &key.segments[2]) {
        (DbKeySeg::AddressSeg(token), DbKeySeg::AddressSeg(owner)) => {
            if key.segments[1].is_string(BALANCE_STORAGE_KEY) {
                Some([token, owner])
            } else {
                None
            }
        },
        _ => None,
    }
}

/// Obtain a storage key denomination of a token.
pub fn denom_key(token_addr: &Address, sub_prefix: Option<&Key>) -> (r: Key)
    ensures
        r@ == (match sub_prefix {
            Some(sub) => seq![address_seg(token_addr@)] + sub@ + seq![
                string_seg(DENOM_STORAGE_KEY@),
            ],
            None => seq![address_seg(token_addr@), string_seg(DENOM_STORAGE_KEY@)],
        }),
{
    match sub_prefix {
        Some(sub) => {
            let r = Key::from_seg(token_addr.to_db_key()).join(sub).push(
                DbKeySeg::StringSeg(String::from_str(DENOM_STORAGE_KEY)),
            );
            assert(r@ =~= seq![address_seg(token_addr@)] + sub@ + seq![
                string_seg(DENOM_STORAGE_KEY@),
            ]);
            r
        },
        None => Key::from_seg(token_addr.to_db_key()).push(
            DbKeySeg::StringSeg(String::from_str(DENOM_STORAGE_KEY)),
        ),
    }
}

/// Check if the given storage key is a denomination key for the given
/// token.
pub fn is_denom_key(token_addr: &Address, key: &Key) -> (r: bool)
    ensures
        r == (key@.len() >= 2 && key@[0] == address_seg(token_addr@) && key@.last()
            == string_seg(DENOM_STORAGE_KEY@)),
{
    let n = key.segments.len();
    if n < 2 {
        return false;
    }
    assert(key@[0] == key.segments@[0]@ && key@.last() == key.segments@[n - 1]@);
    match &key.segments[0] {
        DbKeySeg::AddressSeg(addr) => addr.equals(token_addr) && key.segments[n - 1].is_string(
            DENOM_STORAGE_KEY,
        ),
        _ => false,
    }
}

/// Whether the string names a key of the shielded pool.
pub open spec fn is_masp_segment(seg: Seq<char>) -> bool {
    seg == HEAD_TX_KEY@ || begins_with(seg, TX_KEY_PREFIX@) || begins_with(seg, PIN_KEY_PREFIX@)
}

/// Check if the given storage key is a masp key.
pub fn is_masp_key(key: &Key) -> (r: bool)
    ensures
        r == (key@.len() == 2 && key@[0] == address_seg(
            AddressView::Internal(InternalAddress::Masp),
        ) && key@[1] is StringSeg && is_masp_segment(key@[1]->StringSeg_0)),
{
    if key.segments.len() != 2 {
        return false;
    }
    assert(key@[0] == key.segments@[0]@ && key@[1] == key.segments@[1]@);
    match (&key.segments[0], &key.segments[1]) {
        (DbKeySeg::AddressSeg(addr), DbKeySeg::StringSeg(seg)) => {
            addr.equals(&masp()) && (*seg == String::from_str(HEAD_TX_KEY) || starts_with(
                seg.as_str(),
                TX_KEY_PREFIX,
            ) || starts_with(seg.as_str(), PIN_KEY_PREFIX))
        },
        _ => false,
    }
}

/// Storage key for total supply of a token.
pub fn total_supply_key(token_address: &Address) -> (r: Key)
    ensures
        r@ == seq![address_seg(token_address@), string_seg(TOTAL_SUPPLY_STORAGE_KEY@)],
{
    Key::from_seg(token_address.to_db_key()).push(
        DbKeySeg::StringSeg(String::from_str(TOTAL_SUPPLY_STORAGE_KEY)),
    )
}

/// Is storage key for total supply of a specific token?
pub fn is_total_supply_key(key: &Key, token_address: &Address) -> (r: bool)
    ensures
        r == (key@ == seq![
            address_seg(token_address@),
            string_seg(TOTAL_SUPPLY_STORAGE_KEY@),
        ]),
{
    let ghost wanted = seq![
        address_seg(token_address@),
        string_seg(TOTAL_SUPPLY_STORAGE_KEY@),
    ];
    assert(wanted.len() == 2 && wanted[0] == address_seg(token_address@) && wanted[1]
        == string_seg(TOTAL_SUPPLY_STORAGE_KEY@));
    if key.segments.len() != 2 {
        return false;
    }
    assert(key@[0] == key.segments@[0]@ && key@[1] == key.segments@[1]@);
    let r = match &key.segments[0] {
        DbKeySeg::AddressSeg(addr) => addr.equals(token_address) && key.segments[1].is_string(
            TOTAL_SUPPLY_STORAGE_KEY,
        ),
        _ => false,
    };
    if r {
        assert(key@ =~= seq![
            address_seg(token_address@),
            string_seg(TOTAL_SUPPLY_STORAGE_KEY@),
        ]);
    }
    r
}

/// Whether the key ends in the balance segment and an owner, after a token
/// and at least one more segment.
pub open spec fn is_multitoken_balance(key: Seq<DbKeySegView>) -> bool {
    &&& key.len() >= 4
    &&& key[key.len() - 2] == string_seg(BALANCE_STORAGE_KEY@)
    &&& key[key.len() - 1] is AddressSeg
}

/// The sub prefix and the owner of a multitoken balance key.
pub fn multitoken_balance_owner(key: &Key) -> (r: Option<(Key, &Address)>)
    ensures
        r is Some <==> is_multitoken_balance(key@),
        r is Some ==> r.unwrap().0@ == key@.subrange(1, key@.len() - 2) && key@.last()
            == address_seg(r.unwrap().1@),
{
    let len = key.segments.len();
    if len < 4 {
        return None;
    }
    assert(key@[len - 2] == key.segments@[len - 2]@ && key@[len - 1] == key.segments@[len - 1]@);
    match &key.segments[len - 1] {
        DbKeySeg::AddressSeg(owner) => {
            if key.segments[len - 2].is_string(BALANCE_STORAGE_KEY) {
                let sub_prefix = key.sub_key(1, len - 2);
                Some((sub_prefix, owner))
            } else {
                None
            }
        },
        _ => None,
    }
}

/// Check if the given storage key is multitoken balance key for the given
/// token. If it is, returns the sub prefix and the owner.
pub fn is_multitoken_balance_key<'a>(token_addr: &Address, key: &'a Key) -> (r: Option<
    (Key, &'a Address),
>)
    ensures
        r is Some <==> is_multitoken_balance(key@) && key@[0] == address_seg(token_addr@),
        r is Some ==> r.unwrap().0@ == key@.subrange(1, key@.len() - 2) && key@.last()
            == address_seg(r.unwrap().1@),
{
    if key.segments.len() == 0 {
        return None;
    }
    assert(key@[0] == key.segments@[0]@);
    match &key.segments[0] {
        DbKeySeg::AddressSeg(addr) => {
            if addr.equals(token_addr) {
                multitoken_balance_owner(key)
            } else {
                None
            }
        },
        _ => None,
    }
}

/// Check if the given storage key is multitoken balance key for unspecified
/// token. If it is, returns the sub prefix and the token and owner
/// addresses.
pub fn is_any_multitoken_balance_key(key: &Key) -> (r: Option<(Key, [&Address; 2])>)
    ensures
        r is Some <==> is_multitoken_balance(key@) && key@[0] is AddressSeg,
        r is Some ==> r.unwrap().0@ == key@.subrange(1, key@.len() - 2) && key@[0]
            == address_seg(r.unwrap().1[0]@) && key@.last() == address_seg(r.unwrap().1[1]@),
{
    if key.segments.len() == 0 {
        return None;
    }
    assert(key@[0] == key.segments@[0]@);
    match &key.segments[0] {
        DbKeySeg::AddressSeg(token) => match multitoken_balance_owner(key) {
            Some((sub, owner)) => Some((sub, [token, owner])),
            None => None,
        },
        _ => None,
    }
}

/// Check if the given storage key is a balance key of a token or of a
/// multitoken. If it is, returns the token and owner addresses.
pub fn is_any_token_or_multitoken_balance_key(key: &Key) -> (r: Option<[&Address; 2]>)
    ensures
        r is Some <==> (is_multitoken_balance(key@) && key@[0] is AddressSeg)
            || is_token_balance(key@),
        r is Some ==> key@[0] == address_seg(r.unwrap()[0]@) && key@.last() == address_seg(
            r.unwrap()[1]@,
        ),
{
    match is_any_multitoken_balance_key(key) {
        Some(found) => Some(found.1),
        None => is_any_token_balance_key(key),
    }
}

/// Why `data_encoding` could not decode a text.
#[verifier::external_type_specification]
#[verifier::external_body]
pub struct ExDecodeError(data_encoding::DecodeError);

/// The text that `data_encoding::BASE32HEX_NOPAD` encodes bytes to.
pub uninterp spec fn base32hex_nopad(bytes: Seq<u8>) -> Seq<char>;

/// `data_encoding::BASE32HEX_NOPAD.encode`: the unpadded base32hex text of
/// the bytes. The bytes alone decide it; it is made of ASCII symbols, one
/// for every five bits, the last one filled up. The call does not return
/// for inputs longer than a 512th of the address space, which are left out.
#[verifier::external_body]
fn base32hex_encode(input: &[u8]) -> (r: String)
    requires
        input@.len() <= usize::MAX / 512,
    ensures
        r@ == base32hex_nopad(input@),
        r@.len() == (8 * input@.len() + 4) / 5,
        vstd::utf8::is_ascii_chars(r@),
{
    data_encoding::BASE32HEX_NOPAD.encode(input)
}

/// `data_encoding::BASE32HEX_NOPAD.decode`: the bytes that the text
/// encodes. The encoding is canonical: what decodes is the text that
/// `encode` gives for the result, and the text of any bytes decodes to
/// those bytes and to no others. Five bits of each character make up the
/// bytes. The call does not return for inputs longer than an eighth of the
/// address space, which are left out.
#[verifier::external_body]
fn base32hex_decode(input: &str) -> (r: Result<Vec<u8>, data_encoding::DecodeError>)
    requires
        vstd::utf8::encode_utf8(input@).len() <= usize::MAX / 8,
    ensures
        r is Ok ==> base32hex_nopad(r.unwrap()@) == input@ && r.unwrap()@.len() == input@.len()
            * 5 / 8,
        forall|bytes: Seq<u8>| #[trigger]
            base32hex_nopad(bytes) == input@ ==> r is Ok && r.unwrap()@ == bytes,
{
    data_encoding::BASE32HEX_NOPAD.decode(input.as_bytes())
}

/// The message of a `data_encoding::DecodeError`, as its `Display` writes
/// it. Nothing is claimed of the text.
#[verifier::external_body]
fn decode_error_text(error: &data_encoding::DecodeError) -> (r: String) {
    format!("{}", error)
}

/// The message for a text that is no amount.
fn parse_failure(string: &str, reason: &str) -> (r: String)
    ensures
        r@ == "Failed parsing "@ + string@ + " with "@ + reason@,
{
    let mut message = String::from_str("Failed parsing ");
    message.append(string);
    message.append(" with ");
    message.append(reason);
    message
}

/// What reading an amount from the bytes of its key segment gives: the
/// number that they spell, most significant first, if it fits.
pub fn amount_from_key_bytes(string: &str, decoded: Result<Vec<u8>, data_encoding::DecodeError>)
    -> (r: Result<Amount, crate::storage::Error>)
    ensures
        r is Ok <==> decoded is Ok && be_value(decoded.unwrap()@) < modulus(),
        r is Ok ==> r.unwrap().value() == be_value(decoded.unwrap()@),
{
    match decoded {
        Err(err) => {
            let reason = decode_error_text(&err);
            Err(crate::storage::Error::ParseKeySeg(parse_failure(string, reason.as_str())))
        },
        Ok(bytes) => match Uint::from_big_endian(bytes.as_slice()) {
            Some(raw) => Ok(Amount { raw }),
            None => Err(
                crate::storage::Error::ParseKeySeg(
                    parse_failure(string, "a value of more than 256 bits"),
                ),
            ),
        },
    }
}

impl Amount {
    /// Read an amount from the text of its key segment: the unpadded
    /// base32hex text of its bytes, most significant first. A text that
    /// encodes no bytes, or bytes whose number does not fit, is refused, and
    /// so is a text of more than an eighth of the address space.
    pub fn parse(string: String) -> (r: Result<Self, crate::storage::Error>)
        ensures
            vstd::utf8::encode_utf8(string@).len() > usize::MAX / 8 ==> r is Err,
            vstd::utf8::encode_utf8(string@).len() <= usize::MAX / 8 ==> {
                &&& forall|bytes: Seq<u8>| #[trigger]
                    base32hex_nopad(bytes) == string@ ==> (r is Ok <==> be_value(bytes)
                        < modulus()) && (r is Ok ==> r.unwrap().value() == be_value(bytes))
                &&& (forall|bytes: Seq<u8>| #[trigger] base32hex_nopad(bytes) != string@)
                    ==> r is Err
            },
    {
        if string.as_str().as_bytes().len() > usize::MAX / 8 {
            return Err(
                crate::storage::Error::ParseKeySeg(
                    parse_failure(string.as_str(), "a text that is too long"),
                ),
            );
        }
        let decoded = base32hex_decode(string.as_str());
        amount_from_key_bytes(string.as_str(), decoded)
    }

    /// The text of the amount as a key segment: the unpadded base32hex text
    /// of its 32 bytes, most significant first.
    pub fn raw(&self) -> (r: String)
        ensures
            exists|bytes: Seq<u8>|
                bytes.len() == 32 && be_value(bytes) == self.value() && r@ == base32hex_nopad(
                    bytes,
                ),
            r@.len() == 52,
            vstd::utf8::is_ascii_chars(r@),
    {
        let buf = self.raw.to_big_endian();
        base32hex_encode(buf.as_slice())
    }

    /// The amount as a segment of a storage key.
    pub fn to_db_key(&self) -> (r: DbKeySeg)
        ensures
            exists|bytes: Seq<u8>|
                bytes.len() == 32 && be_value(bytes) == self.value() && r@ == string_seg(
                    base32hex_nopad(bytes),
                ),
    {
        DbKeySeg::StringSeg(self.raw())
    }
}

impl Default for Amount {
    /// Zero.
    fn default() -> (r: Amount)
        ensures
            r.value() == 0,
    {
        Amount { raw: Uint::zero() }
    }
}

impl From<u8> for Denomination {
    fn from(denom: u8) -> (r: Denomination) {
        Denomination(denom)
    }
}

impl vstd::std_specs::convert::FromSpecImpl<u8> for Denomination {
    open spec fn obeys_from_spec() -> bool {
        true
    }

    open spec fn from_spec(denom: u8) -> Denomination {
        Denomination(denom)
    }
}

impl From<Denomination> for u8 {
    fn from(denom: Denomination) -> (r: u8) {
        denom.0
    }
}

impl vstd::std_specs::convert::FromSpecImpl<Denomination> for u8 {
    open spec fn obeys_from_spec() -> bool {
        true
    }

    open spec fn from_spec(denom: Denomination) -> u8 {
        denom.0
    }
}

impl From<DenominatedAmount> for Amount {
    /// The mantissa.
    fn from(denom: DenominatedAmount) -> (r: Amount) {
        denom.amount
    }
}

impl vstd::std_specs::convert::FromSpecImpl<DenominatedAmount> for Amount {
    open spec fn obeys_from_spec() -> bool {
        true
    }

    open spec fn from_spec(denom: DenominatedAmount) -> Amount {
        denom.amount
    }
}

impl From<Amount> for Uint {
    /// The count of micro units.
    fn from(amount: Amount) -> (r: Uint) {
        amount.raw
    }
}

impl vstd::std_specs::convert::FromSpecImpl<Amount> for Uint {
    open spec fn obeys_from_spec() -> bool {
        true
    }

    open spec fn from_spec(amount: Amount) -> Uint {
        amount.raw
    }
}

impl From<Change> for Amount {
    /// The distance of the change from zero.
    fn from(change: Change) -> (r: Amount) {
        Amount { raw: change.abs() }
    }
}

impl vstd::std_specs::convert::FromSpecImpl<Change> for Amount {
    open spec fn obeys_from_spec() -> bool {
        true
    }

    open spec fn from_spec(change: Change) -> Amount {
        Amount { raw: change.magnitude }
    }
}

} // verus!
