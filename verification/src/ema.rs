//! Exponential moving average with smoothing factor `2 / (period + 1)`.

use crate::decimal::{
    checked_difference, checked_product, checked_quotient, checked_sum, difference_of, product_of,
    quotient_of, sum_of, Dec,
};
use crate::errors::IndicatorError;
use crate::label::indicator_label;
use crate::label::label_text;
use vstd::prelude::*;

verus! {

/// The decimal `2.0`.
pub open spec fn two_value() -> Dec {
    Dec { mantissa: 20, scale: 1 }
}

/// The smoothing factor `2.0 / (period + 1)`, where the decimal arithmetic
/// has a result for it.
pub open spec fn smoothing_factor_of(period: nat) -> Option<Dec> {
    match sum_of(Dec::of_nat(period), Dec::one_value()) {
        None => None,
        Some(divisor) => quotient_of(two_value(), divisor),
    }
}

/// The weighted mean `k * x + (1 - k) * current`.
pub open spec fn blended(k: Dec, x: Dec, current: Dec) -> Option<Dec> {
    match product_of(k, x) {
        None => None,
        Some(fresh_part) => match difference_of(Dec::one_value(), k) {
            None => None,
            Some(rest) => match product_of(rest, current) {
                None => None,
                Some(kept_part) => sum_of(fresh_part, kept_part),
            },
        },
    }
}

/// What an exponential moving average remembers.
pub struct EmaState {
    /// The period that the smoothing factor is made from.
    pub period: nat,
    /// The average so far; zero before the first sample.
    pub current: Dec,
    /// No sample has been seen yet.
    pub is_new: bool,
}

impl EmaState {
    /// The state right after construction.
    pub open spec fn fresh(period: nat) -> EmaState {
        EmaState { period, current: Dec::zero_value(), is_new: true }
    }

    /// The state that `reset` leaves behind.
    pub open spec fn after_reset(self) -> EmaState {
        EmaState::fresh(self.period)
    }

    pub open spec fn wf(self) -> bool {
        &&& self.period > 0
        &&& self.current.wf()
    }

    /// One sample: the first sample is the average; every later one is
    /// blended into the average with the smoothing factor. `None` where the
    /// decimal arithmetic has no result.
    pub open spec fn step(self, x: Dec) -> Option<(EmaState, Dec)> {
        if self.is_new {
            Some((EmaState { period: self.period, current: x, is_new: false }, x))
        } else {
            match smoothing_factor_of(self.period) {
                None => None,
                Some(k) => match blended(k, x, self.current) {
                    None => None,
                    Some(value) => Some(
                        (EmaState { period: self.period, current: value, is_new: false }, value),
                    ),
                },
            }
        }
    }
}

/// Exponential moving average.
#[derive(Debug, Clone)]
pub struct ExponentialMovingAverage {
    period: usize,
    k: Option<Dec>,
    current: Dec,
    is_new: bool,
}

impl View for ExponentialMovingAverage {
    type V = EmaState;

    closed spec fn view(&self) -> EmaState {
        EmaState { period: self.period as nat, current: self.current, is_new: self.is_new }
    }
}

/// The smoothing factor `2.0 / (period + 1)`.
pub fn smoothing_factor(period: usize) -> (r: Option<Dec>)
    ensures
        r == smoothing_factor_of(period as nat),
        r matches Some(k) ==> k.wf(),
{
    match checked_sum(Dec::from_usize(period), Dec::one()) {
        None => None,
        Some(divisor) => checked_quotient(Dec { mantissa: 20, scale: 1 }, divisor),
    }
}

/// The weighted mean `k * x + (1 - k) * current`.
pub fn blend(k: Dec, x: Dec, current: Dec) -> (r: Option<Dec>)
    requires
        k.wf(),
        x.wf(),
        current.wf(),
    ensures
        r == blended(k, x, current),
        r matches Some(value) ==> value.wf(),
{
    match checked_product(k, x) {
        None => None,
        Some(fresh_part) => match checked_difference(Dec::one(), k) {
            None => None,
            Some(rest) => match checked_product(rest, current) {
                None => None,
                Some(kept_part) => checked_sum(fresh_part, kept_part),
            },
        },
    }
}

impl ExponentialMovingAverage {
    /// The stored factor is the one of the period, and the average is a
    /// valid decimal.
    pub closed spec fn wf(&self) -> bool {
        &&& self.period > 0
        &&& self.k == smoothing_factor_of(self.period as nat)
        &&& (self.k matches Some(k) ==> k.wf())
        &&& self.current.wf()
    }

    /// A well-formed average has a well-formed state.
    pub proof fn lemma_view_wf(&self)
        requires
            self.wf(),
        ensures
            self@.wf(),
    {
    }

    /// A new average over `period` samples; `period` must be positive.
    pub fn new(period: usize) -> (r: Result<Self, IndicatorError>)
        ensures
            period == 0 ==> r == Err::<Self, IndicatorError>(IndicatorError::InvalidParameter),
            period > 0 ==> r is Ok,
            r matches Ok(ema) ==> ema.wf() && ema@ == EmaState::fresh(period as nat),
    {
        if period == 0 {
            return Err(IndicatorError::InvalidParameter);
        }
        Ok(
            ExponentialMovingAverage {
                period,
                k: smoothing_factor(period),
                current: Dec::zero(),
                is_new: true,
            },
        )
    }

    /// The configured period.
    pub fn period(&self) -> (r: usize)
        requires
            self.wf(),
        ensures
            r == self@.period,
            r > 0,
    {
        self.period
    }

    /// The average that the next sample would give.
    fn compute(&self, input: Dec) -> (r: Option<Dec>)
        requires
            self.wf(),
            input.wf(),
        ensures
            r == match self@.step(input) {
                Some((_, value)) => Some(value),
                None => None,
            },
            r matches Some(value) ==> value.wf(),
    {
        if self.is_new {
            Some(input)
        } else {
            match self.k {
                None => None,
                Some(k) => blend(k, input, self.current),
            }
        }
    }

    /// Feeds one sample and returns the average.
    pub fn next(&mut self, input: Dec) -> (r: Dec)
        requires
            old(self).wf(),
            input.wf(),
            old(self)@.step(input) is Some,
        ensures
            final(self).wf(),
            r.wf(),
            (final(self)@, r) == old(self)@.step(input).unwrap(),
    {
        let value = self.compute(input).unwrap();
        self.is_new = false;
        self.current = value;
        value
    }

    /// The average that `next` would return for `input`, or `None` where the
    /// decimal arithmetic has no result. The average itself stays as it is.
    pub fn preview(&self, input: Dec) -> (r: Option<Dec>)
        requires
            self.wf(),
            input.wf(),
        ensures
            r == match self@.step(input) {
                Some((_, value)) => Some(value),
                None => None,
            },
            r matches Some(value) ==> value.wf(),
    {
        self.compute(input)
    }

    /// Feeds one sample if the decimal arithmetic has a result for it, and
    /// leaves the average untouched otherwise.
    pub fn try_next(&mut self, input: Dec) -> (r: Option<Dec>)
        requires
            old(self).wf(),
            input.wf(),
        ensures
            final(self).wf(),
            match old(self)@.step(input) {
                Some((next, value)) => final(self)@ == next && r == Some(value),
                None => *final(self) == *old(self) && r is None,
            },
            r matches Some(value) ==> value.wf(),
    {
        if self.preview(input).is_some() {
            Some(self.next(input))
        } else {
            None
        }
    }

    /// Back to the state right after construction.
    pub fn reset(&mut self)
        requires
            old(self).wf(),
        ensures
            final(self).wf(),
            final(self)@ == old(self)@.after_reset(),
    {
        self.current = Dec::zero();
        self.is_new = true;
    }

    /// The name of the indicator with its period, such as `EMA(9)`.
    pub fn label(&self) -> (r: String)
        requires
            self.wf(),
        ensures
            r@ == label_text("EMA"@, self@.period),
    {
        indicator_label("EMA", self.period)
    }
}

impl Default for ExponentialMovingAverage {
    /// An average over 9 samples.
    fn default() -> (r: Self)
        ensures
            r.wf(),
            r@ == EmaState::fresh(9),
    {
        ExponentialMovingAverage::new(9).unwrap()
    }
}

/// The first sample fed to a new average is returned as it is, and is the
/// average from then on.
pub proof fn lemma_first_sample_is_the_seed(period: nat, x: Dec)
    ensures
        EmaState::fresh(period).step(x) == Some(
            (EmaState { period, current: x, is_new: false }, x),
        ),
{
}

/// Whatever an average has seen, after `reset` it answers the next sample as
/// a newly built average of the same period does.
pub proof fn lemma_reset_replays(s: EmaState, x: Dec)
    ensures
        s.after_reset().step(x) == EmaState::fresh(s.period).step(x),
{
}

} // verus!
