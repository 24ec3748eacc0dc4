use ledger_core::controller::{ArithError, Error, PDController};
use ledger_core::dec::{Dec, SCALE};
use ledger_core::int256::I256;
use ledger_core::uint::Uint;

/// The decimal of `units` units of 10^-12.
fn dec(units: i128) -> Dec {
    let magnitude = units.unsigned_abs();
    Dec(I256::from_parts(
        units < 0,
        Uint([magnitude as u64, (magnitude >> 64) as u64, 0, 0]),
    ))
}

fn whole(n: i64) -> Dec {
    dec(n as i128 * SCALE as i128)
}

/// A controller over a supply of a million, with at most a tenth of it as
/// rewards in a year of ten epochs: at most 10 000 in an epoch.
fn controller(last_inflation: u64, p: Dec, d: Dec, target: Dec, last: Dec) -> PDController {
    PDController::new(
        Uint::from(1_000_000),
        dec(SCALE as i128 / 10),
        Uint::from(last_inflation),
        p,
        d,
        10,
        target,
        last,
    )
}

#[test]
fn control_follows_the_formula() {
    // coeff * (current * (d - p) + target * p - last * d)
    let c = controller(0, whole(2), whole(5), whole(7), whole(3));
    // 4 * (11 * 3 + 7 * 2 - 3 * 5) = 4 * 32
    assert_eq!(c.compute_control(whole(4), whole(11)), Ok(whole(128)));
    // fractions: 0.5 * (0.25 * 3 + 14 - 15) = -0.125
    assert_eq!(c.compute_control(dec(SCALE as i128 / 2), dec(SCALE as i128 / 4)), Ok(dec(-125_000_000_000)));
    // products are cut off towards zero at twelve places
    let c = controller(0, dec(1), whole(0), dec(1), whole(0));
    assert_eq!(c.compute_control(whole(1), whole(0)), Ok(dec(0)));
    let c = controller(0, dec(3), whole(0), dec(-500_000_000_000), whole(0));
    // target * p = -0.5 * 3e-12 = -1.5e-12, cut to -1e-12
    assert_eq!(c.compute_control(whole(1), whole(0)), Ok(dec(-1)));
}

#[test]
fn inflation_moves_by_the_control_within_its_bounds() {
    // p = 1, d = 0: control = coeff * (target - current)
    let c = controller(100, whole(1), whole(0), whole(50), whole(0));
    assert_eq!(c.get_max_inflation(), Ok(Uint::from(10_000)));
    assert_eq!(c.get_epochs_per_year(), 10);
    assert_eq!(c.get_total_native_dec(), Ok(whole(1_000_000)));
    // 100 + 2.5 * (50 - 10) = 200
    assert_eq!(c.compute_inflation(dec(2_500_000_000_000), whole(10)), Ok(Uint::from(200)));
    // 100 + 0.25: the fraction is dropped
    assert_eq!(c.compute_inflation(dec(SCALE as i128 / 4), whole(49)), Ok(Uint::from(100)));
    // 100 - 0.25 = 99.75
    assert_eq!(c.compute_inflation(dec(SCALE as i128 / 4), whole(51)), Ok(Uint::from(99)));
    // never below zero
    assert_eq!(c.compute_inflation(whole(1), whole(151)), Ok(Uint::zero()));
    assert_eq!(c.compute_inflation(whole(1), whole(150)), Ok(Uint::zero()));
    // never above the largest inflation
    assert_eq!(c.compute_inflation(whole(1_000), whole(0)), Ok(Uint::from(10_000)));
    assert_eq!(c.compute_inflation_aux(whole(9_900)), Ok(Uint::from(10_000)));
    assert_eq!(c.compute_inflation_aux(whole(9_899)), Ok(Uint::from(9_999)));
}

#[test]
fn failures_name_their_cause() {
    let big = Dec(I256::from_parts(false, Uint::max_signed_value()));
    let c = controller(100, whole(1), whole(0), big, whole(0));
    assert_eq!(c.compute_control(whole(1), whole(0)), Err(ArithError::Overflow));
    assert_eq!(c.compute_inflation(whole(1), whole(0)), Err(Error::Arith(ArithError::Overflow)));

    let mut c = controller(100, whole(1), whole(0), whole(50), whole(0));
    c.epochs_per_year = 0;
    assert_eq!(c.get_max_inflation(), Err(Error::Arith(ArithError::Overflow)));
    c.epochs_per_year = 10;
    c.max_reward_rate = dec(-1_000_000_000);
    assert_eq!(c.get_max_inflation(), Err(Error::MaxInflationOverflow));
    c.max_reward_rate = dec(0);
    assert_eq!(c.get_max_inflation(), Ok(Uint::zero()));
    c.total_native_amount = Uint::max_signed_value();
    assert_eq!(c.get_total_native_dec(), Err(Error::Dec(ledger_core::dec::Error::Overflow)));
    assert_eq!(c.get_max_inflation(), Err(Error::Dec(ledger_core::dec::Error::Overflow)));
    c.total_native_amount = Uint::from(1);
    c.last_inflation_amount = Uint::max_value();
    assert_eq!(
        c.compute_inflation(whole(0), whole(0)),
        Err(Error::Dec(ledger_core::dec::Error::Overflow))
    );
}

#[test]
fn decimals_keep_twelve_places() {
    assert_eq!(Dec::from_u64(3), whole(3));
    assert_eq!(whole(3).checked_mul(dec(SCALE as i128 / 2)), Some(dec(1_500_000_000_000)));
    assert_eq!(dec(-7).checked_mul(dec(SCALE as i128 / 2)), Some(dec(-3)));
    assert_eq!(whole(7).checked_div_u64(2), Some(dec(3_500_000_000_000)));
    assert_eq!(dec(-7).checked_div_u64(2), Some(dec(-3)));
    assert_eq!(dec(7).checked_div_u64(0), None);
    assert_eq!(whole(1).checked_add(dec(-1)), Some(dec(999_999_999_999)));
    assert_eq!(whole(1).checked_sub(whole(3)), Some(whole(-2)));
    assert_eq!(dec(5).checked_sub(dec(5)), Some(Dec::zero()));
    assert_eq!(whole(5).to_uint(), Some(Uint::from(5)));
    assert_eq!(dec(5_999_999_999_999).to_uint(), Some(Uint::from(5)));
    assert_eq!(dec(-1).to_uint(), None);
    assert!(dec(-1).is_negative());
    assert!(!Dec::zero().is_negative());
    let most = Dec(I256::from_parts(false, Uint::max_signed_value()));
    assert_eq!(most.checked_add(dec(1)), None);
    assert_eq!(most.checked_mul(whole(1)), None);
    assert!(Dec::try_from_uint(Uint::from(u64::MAX)).is_ok());
    assert!(Dec::try_from_uint(Uint::max_signed_value()).is_err());
    let least = I256::from_parts(true, Uint([0, 0, 0, 1 << 63]));
    assert_eq!(least.checked_neg(), None);
    assert_eq!(least.checked_add(I256::from_parts(true, Uint::from(1))), None);
    assert_eq!(least.checked_add(I256::from_parts(false, Uint::from(1))).map(|v| v.is_negative()), Some(true));
}
