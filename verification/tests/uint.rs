use ledger_core::uint::{digit_str, Uint};

const TOP: u64 = u64::MAX;

#[test]
fn sums_carry_between_limbs() {
    assert_eq!(Uint([TOP, 0, 0, 0]).checked_add(Uint::one()), Some(Uint([0, 1, 0, 0])));
    assert_eq!(Uint([TOP, TOP, TOP, 0]).checked_add(Uint::one()), Some(Uint([0, 0, 0, 1])));
    assert_eq!(Uint::max_value().checked_add(Uint::one()), None);
    assert_eq!(Uint::max_value().checked_add(Uint::zero()), Some(Uint::max_value()));
    assert_eq!(
        Uint([1, 2, 3, 4]).checked_add(Uint([TOP, TOP, 5, 6])),
        Some(Uint([0, 2, 9, 10]))
    );
    assert_eq!(Uint([0, 0, 0, 1 << 63]).checked_add(Uint([0, 0, 0, 1 << 63])), None);
}

#[test]
fn differences_borrow_between_limbs() {
    assert_eq!(Uint([0, 1, 0, 0]).checked_sub(Uint::one()), Some(Uint([TOP, 0, 0, 0])));
    assert_eq!(Uint([0, 0, 0, 1]).checked_sub(Uint::one()), Some(Uint([TOP, TOP, TOP, 0])));
    assert_eq!(Uint::zero().checked_sub(Uint::one()), None);
    assert_eq!(Uint([5, 0, 0, 0]).checked_sub(Uint([0, 1, 0, 0])), None);
    assert_eq!(Uint([0, 2, 9, 10]).checked_sub(Uint([TOP, TOP, 5, 6])), Some(Uint([1, 2, 3, 4])));
    assert_eq!(Uint::max_value().checked_sub(Uint::max_value()), Some(Uint::zero()));
}

#[test]
fn order_goes_by_the_highest_limb() {
    assert!(Uint([TOP, TOP, TOP, 0]).lt(&Uint([0, 0, 0, 1])));
    assert!(!Uint([0, 0, 0, 1]).lt(&Uint([TOP, TOP, TOP, 0])));
    assert!(Uint([1, 5, 0, 0]).lt(&Uint([2, 5, 0, 0])));
    assert!(!Uint([2, 5, 0, 0]).lt(&Uint([2, 5, 0, 0])));
    assert!(Uint([2, 5, 0, 0]).le(&Uint([2, 5, 0, 0])));
    assert!(Uint([2, 5, 0, 0]).equals(&Uint([2, 5, 0, 0])));
    assert!(!Uint([2, 5, 0, 0]).equals(&Uint([2, 5, 0, 1])));
    assert!(Uint::zero().is_zero() && !Uint([0, 0, 1, 0]).is_zero());
    assert_eq!(Uint::default(), Uint::zero());
    assert_eq!(Uint::from(7), Uint::from_u64(7));
}

#[test]
fn products_of_one_limb() {
    assert_eq!(Uint([TOP, TOP, TOP, TOP]).overflowing_mul_u64(TOP), (Uint([1, TOP, TOP, TOP]), TOP - 1));
    assert_eq!(Uint([3, 0, 0, 0]).overflowing_mul_u64(5), (Uint([15, 0, 0, 0]), 0));
    assert_eq!(Uint([0, 0, 0, 1 << 63]).overflowing_mul_u64(2), (Uint::zero(), 1));
    assert_eq!(Uint::max_value().overflowing_mul_u64(0), (Uint::zero(), 0));
}

#[test]
fn products_fit_or_not() {
    // (2^128 - 1)^2 = 2^256 - 2^129 + 1
    let low = Uint([TOP, TOP, 0, 0]);
    assert_eq!(low.checked_mul(low), Some(Uint([1, 0, TOP - 1, TOP])));
    // 2^128 * 2^128 does not fit
    assert_eq!(Uint([0, 0, 1, 0]).checked_mul(Uint([0, 0, 1, 0])), None);
    assert_eq!(Uint([0, 0, 1, 0]).checked_mul(Uint([TOP, TOP, 0, 0])), Some(Uint([0, 0, TOP, TOP])));
    assert_eq!(Uint([0, 1, 0, 0]).checked_mul(Uint([0, 0, 0, 1])), None);
    assert_eq!(Uint([0, 0, 0, 1]).checked_mul(Uint([0, 1, 0, 0])), None);
    assert_eq!(Uint([0, 0, 0, 1]).checked_mul(Uint([TOP, 0, 0, 0])), Some(Uint([0, 0, 0, TOP])));
    assert_eq!(Uint::max_value().checked_mul(Uint::zero()), Some(Uint::zero()));
    assert_eq!(Uint::zero().checked_mul(Uint::max_value()), Some(Uint::zero()));
    assert_eq!(Uint([0, 0, 0, 1 << 63]).checked_mul(Uint::from(2)), None);
    assert_eq!(
        Uint([7, 11, 13, 0]).checked_mul(Uint([3, 5, 0, 0])),
        Some(Uint([21, 68, 94, 65]))
    );
}

#[test]
fn powers_fit_or_not() {
    let ten = Uint::from(10);
    assert_eq!(ten.checked_pow(0), Some(Uint::one()));
    assert_eq!(ten.checked_pow(3), Some(Uint::from(1_000)));
    assert_eq!(ten.checked_pow(19), Some(Uint([10_000_000_000_000_000_000, 0, 0, 0])));
    assert_eq!(ten.checked_pow(20), Some(Uint([7766279631452241920, 5, 0, 0])));
    assert!(ten.checked_pow(77).is_some());
    assert_eq!(ten.checked_pow(78), None);
    assert_eq!(ten.checked_pow(u32::MAX), None);
    assert_eq!(Uint::from(2).checked_pow(255), Some(Uint([0, 0, 0, 1 << 63])));
    assert_eq!(Uint::from(2).checked_pow(256), None);
    assert_eq!(Uint::zero().checked_pow(0), Some(Uint::one()));
    assert_eq!(Uint::zero().checked_pow(9), Some(Uint::zero()));
    assert_eq!(Uint::one().checked_pow(1_000), Some(Uint::one()));
}

#[test]
fn division_by_one_limb() {
    assert_eq!(Uint::from(17).div_rem_u64(5), (Uint::from(3), 2));
    assert_eq!(Uint([0, 1, 0, 0]).div_rem_u64(2), (Uint([1 << 63, 0, 0, 0]), 0));
    assert_eq!(Uint([0, 0, 0, 1]).div_rem_u64(TOP), (Uint([1, 1, 1, 0]), 1));
    assert_eq!(Uint::max_value().div_rem_u64(1), (Uint::max_value(), 0));
    assert_eq!(Uint::max_value().div_rem_u64(TOP), (Uint([1, 1, 1, 1]), 0));
    assert_eq!(Uint::zero().div_rem_u64(9), (Uint::zero(), 0));
    let (q, r) = Uint([1, 2, 3, 4]).div_rem_u64(1_000_000_007);
    let (back, carry) = q.overflowing_mul_u64(1_000_000_007);
    assert_eq!(carry, 0);
    assert_eq!(back.checked_add(Uint::from(r)), Some(Uint([1, 2, 3, 4])));
    assert!(r < 1_000_000_007);
}

#[test]
fn decimal_numerals() {
    assert_eq!(Uint::zero().to_decimal_string(), "0");
    assert_eq!(Uint::from(9).to_decimal_string(), "9");
    assert_eq!(Uint::from(10).to_decimal_string(), "10");
    assert_eq!(Uint::from(u64::MAX).to_decimal_string(), "18446744073709551615");
    assert_eq!(Uint([0, 1, 0, 0]).to_decimal_string(), "18446744073709551616");
    assert_eq!(Uint([0, 0, 1, 0]).to_decimal_string(), "340282366920938463463374607431768211456");
    assert_eq!(Uint::from(1_020).to_decimal_digits(), vec![1, 0, 2, 0]);
    assert_eq!(Uint::zero().to_decimal_digits(), vec![0]);
    let digits: Vec<&str> = (0..10).map(digit_str).collect();
    assert_eq!(digits.concat(), "0123456789");
}

#[test]
fn bytes_most_significant_first() {
    let n = Uint([0x0807060504030201, 0x100f0e0d0c0b0a09, 0x1817161514131211, 0x201f1e1d1c1b1a19]);
    let bytes = n.to_big_endian();
    let expected: Vec<u8> = (1..=32u8).rev().collect();
    assert_eq!(bytes, expected);
    assert_eq!(Uint::from_big_endian(&bytes), Some(n));
    assert_eq!(Uint::from_big_endian(&[]), Some(Uint::zero()));
    assert_eq!(Uint::from_big_endian(&[1, 0]), Some(Uint::from(256)));
    assert_eq!(Uint::from_big_endian(&[0xff; 32]), Some(Uint::max_value()));
    // leading zeros do not count
    let mut long = vec![0u8; 8];
    long.extend_from_slice(&[0xff; 32]);
    assert_eq!(Uint::from_big_endian(&long), Some(Uint::max_value()));
    let mut too_large = vec![1u8];
    too_large.extend_from_slice(&[0; 32]);
    assert_eq!(Uint::from_big_endian(&too_large), None);
    assert_eq!(Uint::one().to_big_endian()[31], 1);
    assert_eq!(Uint::one().to_big_endian()[..31], [0u8; 31]);
}
