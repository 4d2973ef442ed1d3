//! Wilder's smoothing: a moving average seeded by a simple average.

use crate::decimal::{
    checked_product, checked_quotient, checked_sum, product_of, quotient_of, sum_of, Dec,
};
use crate::errors::IndicatorError;
use crate::label::indicator_label;
use crate::label::label_text;
use crate::simple_moving_average::{SimpleMovingAverage, SmaState};
use vstd::prelude::*;

verus! {

/// What a rolling moving average remembers.
pub struct RmaState {
    /// Smoothing period.
    pub period: nat,
    /// The smoothed value, once the warm-up is over.
    pub current: Option<Dec>,
    /// The simple average that seeds the smoothed value.
    pub sma: SmaState,
    /// Samples seen so far, counted up to `period`.
    pub count: nat,
}

/// Wilder's recurrence `(current * (period - 1) + x) / period`.
pub open spec fn smoothed(current: Dec, x: Dec, period: nat) -> Option<Dec> {
    match product_of(current, Dec::of_nat((period - 1) as nat)) {
        None => None,
        Some(weighted) => match sum_of(weighted, x) {
            None => None,
            Some(total) => quotient_of(total, Dec::of_nat(period)),
        },
    }
}

impl RmaState {
    /// The state right after construction.
    pub open spec fn fresh(period: nat) -> RmaState {
        RmaState { period, current: None, sma: SmaState::fresh(period), count: 0 }
    }

    /// The state that `reset` leaves behind.
    pub open spec fn after_reset(self) -> RmaState {
        RmaState::fresh(self.period)
    }

    pub open spec fn wf(self) -> bool {
        &&& self.period > 0
        &&& self.sma.wf()
        &&& self.sma.period == self.period
        &&& self.count <= self.period
        &&& (self.count < self.period <==> self.current is None)
        &&& (self.current matches Some(c) ==> c.wf())
    }

    /// One sample.
    ///
    /// During the first `period - 1` samples the inner simple average is fed
    /// and nothing is available. The `period`-th sample seeds the smoothed
    /// value with the simple average of all samples so far. From then on each
    /// sample moves the smoothed value by Wilder's recurrence. `None` where
    /// the decimal arithmetic has no result.
    pub open spec fn step(self, x: Dec) -> Option<(RmaState, Option<Dec>)> {
        if self.count + 1 < self.period {
            match self.sma.step(x) {
                None => None,
                Some((sma, _)) => Some(
                    (
                        RmaState {
                            period: self.period,
                            current: self.current,
                            sma,
                            count: self.count + 1,
                        },
                        self.current,
                    ),
                ),
            }
        } else if self.count + 1 == self.period {
            match self.sma.step(x) {
                None => None,
                Some((sma, average)) => Some(
                    (
                        RmaState {
                            period: self.period,
                            current: Some(average),
                            sma,
                            count: self.count + 1,
                        },
                        Some(average),
                    ),
                ),
            }
        } else {
            match self.current {
                None => Some((self, None)),
                Some(current) => match smoothed(current, x, self.period) {
                    None => None,
                    Some(value) => Some(
                        (
                            RmaState {
                                period: self.period,
                                current: Some(value),
                                sma: self.sma,
                                count: self.count,
                            },
                            Some(value),
                        ),
                    ),
                },
            }
        }
    }

    /// The state after feeding `inputs`, oldest first, to a new average; `None`
    /// where the decimal arithmetic has no result on the way.
    pub open spec fn fed(period: nat, inputs: Seq<Dec>) -> Option<RmaState>
        decreases inputs.len(),
    {
        if inputs.len() == 0 {
            Some(RmaState::fresh(period))
        } else {
            match RmaState::fed(period, inputs.drop_last()) {
                None => None,
                Some(before) => match before.step(inputs.last()) {
                    None => None,
                    Some((after, _)) => Some(after),
                },
            }
        }
    }

    /// What is returned for the last of `inputs` when they are fed, oldest
    /// first, to a new average.
    pub open spec fn last_output(period: nat, inputs: Seq<Dec>) -> Option<Option<Dec>>
        recommends
            inputs.len() > 0,
    {
        match RmaState::fed(period, inputs.drop_last()) {
            None => None,
            Some(before) => before.output(inputs.last()),
        }
    }

    /// The value that `step` makes available, if it has a result.
    pub open spec fn output(self, x: Dec) -> Option<Option<Dec>> {
        match self.step(x) {
            Some((_, value)) => Some(value),
            None => None,
        }
    }
}

/// Rolling moving average (Wilder's smoothing) with weight `1 / period`,
/// pending until `period` samples have been seen.
#[derive(Debug, Clone)]
pub struct RollingMovingAverage {
    period: usize,
    opt_current: Option<Dec>,
    sma: SimpleMovingAverage,
    no_invokes: usize,
}

impl View for RollingMovingAverage {
    type V = RmaState;

    closed spec fn view(&self) -> RmaState {
        RmaState {
            period: self.period as nat,
            current: self.opt_current,
            sma: self.sma@,
            count: self.no_invokes as nat,
        }
    }
}

/// Wilder's recurrence on decimals.
pub fn smooth(current: Dec, input: Dec, period: usize) -> (r: Option<Dec>)
    requires
        current.wf(),
        input.wf(),
        period > 0,
    ensures
        r == smoothed(current, input, period as nat),
        r matches Some(value) ==> value.wf(),
{
    match checked_product(current, Dec::from_usize(period - 1)) {
        None => None,
        Some(weighted) => match checked_sum(weighted, input) {
            None => None,
            Some(total) => checked_quotient(total, Dec::from_usize(period)),
        },
    }
}

impl RollingMovingAverage {
    /// The inner average has the same period and the counter is in range.
    pub closed spec fn wf(&self) -> bool {
        &&& self.period > 0
        &&& self.sma.wf()
        &&& self.sma@.period == self.period
        &&& self.no_invokes <= self.period
        &&& (self.no_invokes < self.period <==> self.opt_current is None)
        &&& (self.opt_current matches Some(c) ==> c.wf())
    }

    /// A well-formed average has a well-formed state.
    pub proof fn lemma_view_wf(&self)
        requires
            self.wf(),
        ensures
            self@.wf(),
    {
        self.sma.lemma_view_wf();
    }

    /// A new average with smoothing period `period`, which must be positive.
    pub fn new(period: usize) -> (r: Result<Self, IndicatorError>)
        ensures
            period == 0 ==> r == Err::<Self, IndicatorError>(IndicatorError::InvalidParameter),
            period > 0 ==> r is Ok,
            r matches Ok(rma) ==> rma.wf() && rma@ == RmaState::fresh(period as nat),
    {
        match SimpleMovingAverage::new(period) {
            Err(e) => Err(e),
            Ok(sma) => Ok(RollingMovingAverage { period, opt_current: None, sma, no_invokes: 0 }),
        }
    }

    /// The configured smoothing period.
    pub fn period(&self) -> (r: usize)
        requires
            self.wf(),
        ensures
            r == self@.period,
            r > 0,
    {
        self.period
    }

    /// Feeds one sample and returns the smoothed value, `None` while pending.
    pub fn next(&mut self, input: Dec) -> (r: Option<Dec>)
        requires
            old(self).wf(),
            input.wf(),
            old(self)@.step(input) is Some,
        ensures
            final(self).wf(),
            r matches Some(value) ==> value.wf(),
            (final(self)@, r) == old(self)@.step(input).unwrap(),
    {
        if self.no_invokes < self.period - 1 {
            self.no_invokes += 1;
            self.sma.next(input);
        } else if self.no_invokes == self.period - 1 {
            self.no_invokes += 1;
            self.opt_current = Some(self.sma.next(input));
        } else {
            match self.opt_current {
                Some(current) => {
                    self.opt_current = smooth(current, input, self.period);
                },
                None => {},
            }
        }
        self.opt_current
    }

    /// What `next` would return for `input`, or `None` where the decimal
    /// arithmetic has no result. The average itself stays as it is.
    pub fn preview(&self, input: Dec) -> (r: Option<Option<Dec>>)
        requires
            self.wf(),
            input.wf(),
        ensures
            r == self@.output(input),
            r matches Some(Some(value)) ==> value.wf(),
    {
        if self.no_invokes < self.period - 1 {
            match self.sma.preview(input) {
                None => None,
                Some(_) => Some(self.opt_current),
            }
        } else if self.no_invokes == self.period - 1 {
            match self.sma.preview(input) {
                None => None,
                Some(average) => Some(Some(average)),
            }
        } else {
            match self.opt_current {
                None => Some(None),
                Some(current) => match smooth(current, input, self.period) {
                    None => None,
                    Some(value) => Some(Some(value)),
                },
            }
        }
    }

    /// Feeds one sample if the decimal arithmetic has a result for it, and
    /// leaves the average untouched otherwise. The outer `Option` tells which.
    pub fn try_next(&mut self, input: Dec) -> (r: Option<Option<Dec>>)
        requires
            old(self).wf(),
            input.wf(),
        ensures
            final(self).wf(),
            match old(self)@.step(input) {
                Some((next, value)) => final(self)@ == next && r == Some(value),
                None => *final(self) == *old(self) && r is None,
            },
            r matches Some(Some(value)) ==> value.wf(),
    {
        if self.preview(input).is_some() {
            Some(self.next(input))
        } else {
            None
        }
    }

    /// Back to the state right after construction.
    pub fn reset(&mut self)
        requires
            old(self).wf(),
        ensures
            final(self).wf(),
            final(self)@ == old(self)@.after_reset(),
    {
        self.opt_current = None;
        self.no_invokes = 0;
        self.sma.reset();
    }

    /// The name of the indicator with its period, such as `RMA(14)`.
    pub fn label(&self) -> (r: String)
        requires
            self.wf(),
        ensures
            r@ == label_text("RMA"@, self@.period),
    {
        indicator_label("RMA", self.period)
    }
}

impl Default for RollingMovingAverage {
    /// An average with smoothing period 14.
    fn default() -> (r: Self)
        ensures
            r.wf(),
            r@ == RmaState::fresh(14),
    {
        RollingMovingAverage::new(14).unwrap()
    }
}

/// What holds of a rolling average that was fed `inputs` from new: it has
/// counted them up to the period, its inner simple average has seen the same
/// samples while warming up, and its smoothed value exists exactly from the
/// `period`-th sample on.
pub proof fn lemma_fed_state(period: nat, inputs: Seq<Dec>)
    requires
        period > 0,
        RmaState::fed(period, inputs) is Some,
    ensures
        ({
            let s = RmaState::fed(period, inputs).unwrap();
            &&& s.period == period
            &&& s.count == (if inputs.len() < period {
                inputs.len()
            } else {
                period
            })
            &&& (inputs.len() <= period ==> SmaState::fed(period, inputs) == Some(s.sma))
            &&& (inputs.len() < period <==> s.current is None)
        }),
    decreases inputs.len(),
{
    if inputs.len() > 0 {
        lemma_fed_state(period, inputs.drop_last());
    }
}

/// Warm-up: fed to a new average of period `P`, each of the first `P - 1`
/// samples leaves the result pending.
pub proof fn lemma_warm_up_is_pending(period: nat, inputs: Seq<Dec>)
    requires
        period > 0,
        0 < inputs.len() < period,
        RmaState::fed(period, inputs) is Some,
    ensures
        RmaState::last_output(period, inputs) == Some(None::<Dec>),
{
    lemma_fed_state(period, inputs.drop_last());
}

/// Seeding: the `P`-th sample fed to a new average of period `P` makes the
/// simple average of the first `P` samples available.
pub proof fn lemma_seed_is_simple_average(period: nat, inputs: Seq<Dec>)
    requires
        period > 0,
        inputs.len() == period,
        RmaState::fed(period, inputs) is Some,
    ensures
        SmaState::last_average(period, inputs) is Some,
        RmaState::last_output(period, inputs) == Some(SmaState::last_average(period, inputs)),
        RmaState::fed(period, inputs).unwrap().current == SmaState::last_average(period, inputs),
{
    lemma_fed_state(period, inputs.drop_last());
}

/// Smoothing: every sample after the `P`-th moves the available value by
/// Wilder's recurrence `(current * (P - 1) + x) / P`.
pub proof fn lemma_recurrence_after_warm_up(period: nat, inputs: Seq<Dec>)
    requires
        period > 0,
        inputs.len() > period,
        RmaState::fed(period, inputs) is Some,
    ensures
        RmaState::fed(period, inputs.drop_last()) matches Some(before) && before.current matches Some(
            current,
        ) && smoothed(current, inputs.last(), period) is Some && RmaState::last_output(
            period,
            inputs,
        ) == Some(smoothed(current, inputs.last(), period)) && RmaState::fed(
            period,
            inputs,
        ).unwrap().current == smoothed(current, inputs.last(), period),
{
    lemma_fed_state(period, inputs.drop_last());
}

/// The result is pending exactly while fewer than `period` samples have been
/// seen, and what is returned is what the average holds afterwards.
pub proof fn lemma_pending_exactly_during_warm_up(s: RmaState, x: Dec)
    requires
        s.wf(),
        s.step(x) is Some,
    ensures
        ({
            let (after, value) = s.step(x).unwrap();
            &&& value is None <==> s.count + 1 < s.period
            &&& value == after.current
            &&& after.period == s.period
            &&& after.count == (if s.count < s.period {
                s.count + 1
            } else {
                s.count
            })
        }),
{
}

/// Availability never regresses: once a value is available, every later
/// sample returns a value.
pub proof fn lemma_available_stays_available(s: RmaState, x: Dec)
    requires
        s.wf(),
        s.current is Some,
        s.step(x) is Some,
    ensures
        s.step(x).unwrap().1 is Some,
        s.step(x).unwrap().0.current is Some,
{
}

/// Whatever an average has seen, after `reset` it answers the next sample as
/// a newly built average of the same period does.
pub proof fn lemma_reset_replays(s: RmaState, x: Dec)
    ensures
        s.after_reset().step(x) == RmaState::fresh(s.period).step(x),
{
}

} // verus!
