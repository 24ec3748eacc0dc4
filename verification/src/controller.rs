//! The controller that sets the inflation of an epoch from how far a
//! metric is from its target and how fast it moves.

use crate::dec::{dec_add, dec_div, dec_mul, dec_sub, Dec, SCALE};
use crate::int256::in_range;
use crate::uint::Uint;
use vstd::prelude::*;

verus! {

/// Why arithmetic failed.
#[derive(Debug, Clone, Copy, PartialEq, Eq, Structural)]
pub enum ArithError {
    /// A result was out of range, or a divisor was zero.
    Overflow,
}

/// Why no inflation could be computed.
#[derive(Debug, Clone, Copy, PartialEq, Eq, Structural)]
pub enum Error {
    /// A step of the computation was out of range.
    Arith(ArithError),
    /// An amount is too large for a decimal.
    Dec(crate::dec::Error),
    /// The largest inflation allowed is negative.
    MaxInflationOverflow,
    /// The new inflation is out of range.
    InflationOverflow,
}

/// A controller that moves the inflation of an epoch in proportion to how
/// far a metric is from its target and to how fast it moves.
#[derive(Debug, Clone, Copy)]
pub struct PDController {
    pub total_native_amount: Uint,
    pub max_reward_rate: Dec,
    pub last_inflation_amount: Uint,
    pub p_gain_nom: Dec,
    pub d_gain_nom: Dec,
    pub epochs_per_year: u64,
    pub target_metric: Dec,
    pub last_metric: Dec,
}

/// The control value, in units of 10^-12:
/// `coeff * (current * (d - p) + target * p - last * d)`, each step rounded
/// towards zero and none of them out of range.
pub open spec fn control_of(
    coeff: int,
    current: int,
    p_gain: int,
    d_gain: int,
    target: int,
    last: int,
) -> Option<int> {
    let gains = dec_sub(d_gain, p_gain);
    if gains is None {
        None
    } else {
        let moved = dec_mul(current, gains.unwrap());
        let wanted = dec_mul(target, p_gain);
        if moved is None || wanted is None {
            None
        } else {
            let sum = dec_add(moved.unwrap(), wanted.unwrap());
            let damped = dec_mul(last, d_gain);
            if sum is None || damped is None {
                None
            } else {
                let val = dec_sub(sum.unwrap(), damped.unwrap());
                if val is None {
                    None
                } else {
                    dec_mul(coeff, val.unwrap())
                }
            }
        }
    }
}

/// The largest inflation of one epoch: the total supply times the largest
/// reward rate of a year, shared between the epochs of the year.
pub open spec fn max_inflation_of(total: nat, max_rate: int, epochs: u64) -> Result<nat, Error> {
    if !in_range(total * SCALE) {
        Err(Error::Dec(crate::dec::Error::Overflow))
    } else {
        let yearly = dec_mul(total * SCALE, max_rate);
        if yearly is None {
            Err(Error::Arith(ArithError::Overflow))
        } else {
            let share = dec_div(yearly.unwrap(), epochs * SCALE);
            if share is None {
                Err(Error::Arith(ArithError::Overflow))
            } else if share.unwrap() < 0 {
                Err(Error::MaxInflationOverflow)
            } else {
                Ok((share.unwrap() / (SCALE as int)) as nat)
            }
        }
    }
}

/// The new inflation for a control value: the last inflation moved by the
/// control, not below zero and not above the largest inflation.
pub open spec fn inflation_of(
    last_inflation: nat,
    control: int,
    total: nat,
    max_rate: int,
    epochs: u64,
) -> Result<nat, Error> {
    if !in_range(last_inflation * SCALE) {
        Err(Error::Dec(crate::dec::Error::Overflow))
    } else {
        let moved = dec_add(last_inflation * SCALE, control);
        if moved is None {
            Err(Error::Arith(ArithError::Overflow))
        } else {
            let new_amount: nat = if moved.unwrap() < 0 {
                0
            } else {
                (moved.unwrap() / (SCALE as int)) as nat
            };
            match max_inflation_of(total, max_rate, epochs) {
                Err(e) => Err(e),
                Ok(max) => if new_amount <= max {
                    Ok(new_amount)
                } else {
                    Ok(max)
                },
            }
        }
    }
}

impl PDController {
    /// The decimals of the controller are within range.
    pub open spec fn wf(&self) -> bool {
        &&& self.max_reward_rate.wf()
        &&& self.p_gain_nom.wf()
        &&& self.d_gain_nom.wf()
        &&& self.target_metric.wf()
        &&& self.last_metric.wf()
    }

    /// A controller of the given settings.
    #[allow(clippy::too_many_arguments)]
    pub fn new(
        total_native_amount: Uint,
        max_reward_rate: Dec,
        last_inflation_amount: Uint,
        p_gain_nom: Dec,
        d_gain_nom: Dec,
        epochs_per_year: u64,
        target_metric: Dec,
        last_metric: Dec,
    ) -> (r: PDController)
        ensures
            r.total_native_amount == total_native_amount,
            r.max_reward_rate == max_reward_rate,
            r.last_inflation_amount == last_inflation_amount,
            r.p_gain_nom == p_gain_nom,
            r.d_gain_nom == d_gain_nom,
            r.epochs_per_year == epochs_per_year,
            r.target_metric == target_metric,
            r.last_metric == last_metric,
    {
        PDController {
            total_native_amount,
            max_reward_rate,
            last_inflation_amount,
            p_gain_nom,
            d_gain_nom,
            epochs_per_year,
            target_metric,
            last_metric,
        }
    }

    /// The control value that the controller gives for a coefficient and
    /// the metric of the epoch.
    pub open spec fn control(&self, coeff: Dec, current_metric: Dec) -> Option<int> {
        control_of(
            coeff.raw(),
            current_metric.raw(),
            self.p_gain_nom.raw(),
            self.d_gain_nom.raw(),
            self.target_metric.raw(),
            self.last_metric.raw(),
        )
    }

    /// The inflation of the epoch.
    pub fn compute_inflation(&self, control_coeff: Dec, current_metric: Dec) -> (r: Result<
        Uint,
        Error,
    >)
        requires
            self.wf(),
            control_coeff.wf(),
            current_metric.wf(),
        ensures
            match self.control(control_coeff, current_metric) {
                None => r == Err::<Uint, Error>(Error::Arith(ArithError::Overflow)),
                Some(control) => match inflation_of(
                    self.last_inflation_amount.value(),
                    control,
                    self.total_native_amount.value(),
                    self.max_reward_rate.raw(),
                    self.epochs_per_year,
                ) {
                    Ok(amount) => r is Ok && r.unwrap().value() == amount,
                    Err(e) => r == Err::<Uint, Error>(e),
                },
            },
    {
        let control = match self.compute_control(control_coeff, current_metric) {
            Ok(control) => control,
            Err(e) => {
                return Err(Error::Arith(e));
            },
        };
        self.compute_inflation_aux(control)
    }

    /// The total supply as a decimal.
    pub fn get_total_native_dec(&self) -> (r: Result<Dec, Error>)
        ensures
            r is Ok <==> in_range(self.total_native_amount.value() * SCALE),
            r is Ok ==> r.unwrap().wf() && r.unwrap().raw() == self.total_native_amount.value()
                * SCALE,
            r is Err ==> r == Err::<Dec, Error>(Error::Dec(crate::dec::Error::Overflow)),
    {
        match Dec::try_from_uint(self.total_native_amount) {
            Ok(dec) => Ok(dec),
            Err(e) => Err(Error::Dec(e)),
        }
    }

    /// The number of epochs in a year.
    pub fn get_epochs_per_year(&self) -> (r: u64)
        ensures
            r == self.epochs_per_year,
    {
        self.epochs_per_year
    }

    /// The largest inflation of one epoch.
    pub fn get_max_inflation(&self) -> (r: Result<Uint, Error>)
        requires
            self.wf(),
        ensures
            match max_inflation_of(
                self.total_native_amount.value(),
                self.max_reward_rate.raw(),
                self.epochs_per_year,
            ) {
                Ok(amount) => r is Ok && r.unwrap().value() == amount,
                Err(e) => r == Err::<Uint, Error>(e),
            },
    {
        let total_native = match self.get_total_native_dec() {
            Ok(total) => total,
            Err(e) => {
                return Err(e);
            },
        };
        let yearly = match total_native.checked_mul(self.max_reward_rate) {
            Some(yearly) => yearly,
            None => {
                return Err(Error::Arith(ArithError::Overflow));
            },
        };
        let max_inflation = match yearly.checked_div_u64(self.epochs_per_year) {
            Some(share) => share,
            None => {
                return Err(Error::Arith(ArithError::Overflow));
            },
        };
        match max_inflation.to_uint() {
            Some(amount) => Ok(amount),
            None => Err(Error::MaxInflationOverflow),
        }
    }

    /// The inflation that a control value leads to.
    pub fn compute_inflation_aux(&self, control: Dec) -> (r: Result<Uint, Error>)
        requires
            self.wf(),
            control.wf(),
        ensures
            match inflation_of(
                self.last_inflation_amount.value(),
                control.raw(),
                self.total_native_amount.value(),
                self.max_reward_rate.raw(),
                self.epochs_per_year,
            ) {
                Ok(amount) => r is Ok && r.unwrap().value() == amount,
                Err(e) => r == Err::<Uint, Error>(e),
            },
    {
        let last_inflation_amount = match Dec::try_from_uint(self.last_inflation_amount) {
            Ok(last) => last,
            Err(e) => {
                return Err(Error::Dec(e));
            },
        };
        let new_inflation_amount = match last_inflation_amount.checked_add(control) {
            Some(moved) => moved,
            None => {
                return Err(Error::Arith(ArithError::Overflow));
            },
        };
        let new_inflation_amount = if new_inflation_amount.is_negative() {
            Uint::zero()
        } else {
            match new_inflation_amount.to_uint() {
                Some(amount) => amount,
                None => {
                    return Err(Error::InflationOverflow);
                },
            }
        };
        let max_inflation = match self.get_max_inflation() {
            Ok(max) => max,
            Err(e) => {
                return Err(e);
            },
        };
        if new_inflation_amount.le(&max_inflation) {
            Ok(new_inflation_amount)
        } else {
            Ok(max_inflation)
        }
    }

    /// The control value: how far the inflation is to move.
    pub fn compute_control(&self, coeff: Dec, current_metric: Dec) -> (r: Result<Dec, ArithError>)
        requires
            self.wf(),
            coeff.wf(),
            current_metric.wf(),
        ensures
            r is Ok <==> self.control(coeff, current_metric) is Some,
            r is Ok ==> r.unwrap().wf() && r.unwrap().raw() == self.control(
                coeff,
                current_metric,
            ).unwrap(),
            r is Err ==> r == Err::<Dec, ArithError>(ArithError::Overflow),
    {
        let gains = match self.d_gain_nom.checked_sub(self.p_gain_nom) {
            Some(v) => v,
            None => {
                return Err(ArithError::Overflow);
            },
        };
        let moved = match current_metric.checked_mul(gains) {
            Some(v) => v,
            None => {
                return Err(ArithError::Overflow);
            },
        };
        let wanted = match self.target_metric.checked_mul(self.p_gain_nom) {
            Some(v) => v,
            None => {
                return Err(ArithError::Overflow);
            },
        };
        let sum = match moved.checked_add(wanted) {
            Some(v) => v,
            None => {
                return Err(ArithError::Overflow);
            },
        };
        let damped = match self.last_metric.checked_mul(self.d_gain_nom) {
            Some(v) => v,
            None => {
                return Err(ArithError::Overflow);
            },
        };
        let val = match sum.checked_sub(damped) {
            Some(v) => v,
            None => {
                return Err(ArithError::Overflow);
            },
        };
        match coeff.checked_mul(val) {
            Some(v) => Ok(v),
            None => Err(ArithError::Overflow),
        }
    }
}

} // verus!
