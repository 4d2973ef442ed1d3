//! Simple moving average over a sliding window.

use crate::decimal::{
    checked_difference, checked_quotient, checked_sum, difference_of, pow10, quotient_of, sum_of,
    Dec,
};
use crate::errors::IndicatorError;
use crate::label::indicator_label;
use crate::label::label_text;
use vstd::prelude::*;

verus! {

/// What a simple moving average remembers.
pub struct SmaState {
    /// Size of the window.
    pub period: nat,
    /// The window, oldest slot first. Slots not yet written hold zero.
    pub window: Seq<Dec>,
    /// Samples seen so far, counted up to `period`.
    pub count: nat,
    /// Running sum of the window.
    pub sum: Dec,
}

impl SmaState {
    /// The state right after construction: an all-zero window.
    pub open spec fn fresh(period: nat) -> SmaState {
        SmaState {
            period,
            window: Seq::new(period, |i: int| Dec::zero_value()),
            count: 0,
            sum: Dec::zero_value(),
        }
    }

    /// The state that `reset` leaves behind.
    pub open spec fn after_reset(self) -> SmaState {
        SmaState::fresh(self.period)
    }

    pub open spec fn wf(self) -> bool {
        &&& self.period > 0
        &&& self.window.len() == self.period
        &&& self.count <= self.period
        &&& self.sum.wf()
        &&& forall|i: int| 0 <= i < self.window.len() ==> (#[trigger] self.window[i]).wf()
    }

    /// Number of samples the next average is taken over.
    pub open spec fn next_count(self) -> nat {
        if self.count < self.period {
            self.count + 1
        } else {
            self.count
        }
    }

    /// The state after feeding `inputs`, oldest first, to a new average; `None`
    /// where the decimal arithmetic has no result on the way.
    pub open spec fn fed(period: nat, inputs: Seq<Dec>) -> Option<SmaState>
        decreases inputs.len(),
    {
        if inputs.len() == 0 {
            Some(SmaState::fresh(period))
        } else {
            match SmaState::fed(period, inputs.drop_last()) {
                None => None,
                Some(before) => match before.step(inputs.last()) {
                    None => None,
                    Some((after, _)) => Some(after),
                },
            }
        }
    }

    /// The average returned for the last of `inputs` when they are fed,
    /// oldest first, to a new average.
    pub open spec fn last_average(period: nat, inputs: Seq<Dec>) -> Option<Dec>
        recommends
            inputs.len() > 0,
    {
        match SmaState::fed(period, inputs.drop_last()) {
            None => None,
            Some(before) => match before.step(inputs.last()) {
                None => None,
                Some((_, average)) => Some(average),
            },
        }
    }

    /// One sample: the oldest slot leaves the window and the sum, `x` enters
    /// both, and the average is the new sum divided by the number of samples
    /// seen, at most `period`. `None` where the decimal arithmetic has no
    /// result.
    pub open spec fn step(self, x: Dec) -> Option<(SmaState, Dec)> {
        match difference_of(self.sum, self.window[0]) {
            None => None,
            Some(rest) => match sum_of(rest, x) {
                None => None,
                Some(sum) => match quotient_of(sum, Dec::of_nat(self.next_count())) {
                    None => None,
                    Some(average) => Some(
                        (
                            SmaState {
                                period: self.period,
                                window: self.window.drop_first().push(x),
                                count: self.next_count(),
                                sum,
                            },
                            average,
                        ),
                    ),
                },
            },
        }
    }
}

/// Simple moving average: the mean of the last `period` samples, and of the
/// samples seen so far while there are fewer.
#[derive(Debug, Clone)]
pub struct SimpleMovingAverage {
    period: usize,
    index: usize,
    count: usize,
    sum: Dec,
    deque: Vec<Dec>,
}

impl View for SimpleMovingAverage {
    type V = SmaState;

    closed spec fn view(&self) -> SmaState {
        SmaState {
            period: self.period as nat,
            window: Seq::new(
                self.deque@.len(),
                |i: int|
                    if self.index + i < self.deque@.len() {
                        self.deque@[self.index + i]
                    } else {
                        self.deque@[self.index + i - self.deque@.len()]
                    },
            ),
            count: self.count as nat,
            sum: self.sum,
        }
    }
}

impl SimpleMovingAverage {
    /// The ring buffer is consistent with the counters and holds valid
    /// decimals.
    pub closed spec fn wf(&self) -> bool {
        &&& self.period > 0
        &&& self.deque@.len() == self.period
        &&& self.index < self.period
        &&& self.count <= self.period
        &&& self.sum.wf()
        &&& forall|i: int| 0 <= i < self.deque@.len() ==> (#[trigger] self.deque@[i]).wf()
    }

    /// A well-formed average has a well-formed state.
    pub proof fn lemma_view_wf(&self)
        requires
            self.wf(),
        ensures
            self@.wf(),
    {
    }

    /// A new average over `period` samples; `period` must be positive.
    pub fn new(period: usize) -> (r: Result<Self, IndicatorError>)
        ensures
            period == 0 ==> r == Err::<Self, IndicatorError>(IndicatorError::InvalidParameter),
            period > 0 ==> r is Ok,
            r matches Ok(sma) ==> sma.wf() && sma@ == SmaState::fresh(period as nat),
    {
        if period == 0 {
            return Err(IndicatorError::InvalidParameter);
        }
        let mut deque: Vec<Dec> = Vec::new();
        let mut i: usize = 0;
        while i < period
            invariant
                i <= period,
                deque@.len() == i,
                forall|j: int| 0 <= j < i ==> deque@[j] == Dec::zero_value(),
            decreases period - i,
        {
            deque.push(Dec::zero());
            i += 1;
        }
        let sma = SimpleMovingAverage { period, index: 0, count: 0, sum: Dec::zero(), deque };
        assert(sma@.window =~= SmaState::fresh(period as nat).window);
        Ok(sma)
    }

    /// The configured window size.
    pub fn period(&self) -> (r: usize)
        requires
            self.wf(),
        ensures
            r == self@.period,
            r > 0,
    {
        self.period
    }

    /// The new sum and the average that the next sample would give.
    fn compute(&self, input: Dec) -> (r: Option<(Dec, Dec)>)
        requires
            self.wf(),
            input.wf(),
        ensures
            match self@.step(input) {
                Some((next, average)) => r == Some((next.sum, average)),
                None => r is None,
            },
            r matches Some((sum, average)) ==> sum.wf() && average.wf(),
    {
        let evicted = self.deque[self.index];
        let count = if self.count < self.period {
            self.count + 1
        } else {
            self.count
        };
        assert(self@.window[0] == evicted);
        match checked_difference(self.sum, evicted) {
            None => None,
            Some(rest) => match checked_sum(rest, input) {
                None => None,
                Some(sum) => match checked_quotient(sum, Dec::from_usize(count)) {
                    None => None,
                    Some(average) => Some((sum, average)),
                },
            },
        }
    }

    /// Feeds one sample and returns the average.
    ///
    /// The running sum loses the oldest slot and gains `input`; the result is
    /// that sum divided by the number of samples seen, at most `period`.
    pub fn next(&mut self, input: Dec) -> (r: Dec)
        requires
            old(self).wf(),
            input.wf(),
            old(self)@.step(input) is Some,
        ensures
            final(self).wf(),
            r.wf(),
            (final(self)@, r) == old(self)@.step(input).unwrap(),
    {
        let (sum, average) = self.compute(input).unwrap();
        let ghost before = self@;
        let ghost slots = self.deque@;
        let ghost at = self.index as int;
        self.deque[self.index] = input;
        self.index = if self.index + 1 < self.period {
            self.index + 1
        } else {
            0
        };
        if self.count < self.period {
            self.count += 1;
        }
        self.sum = sum;
        proof {
            assert(self.deque@ == slots.update(at, input));
            assert(self@.window =~= before.window.drop_first().push(input));
        }
        average
    }

    /// The average that `next` would return for `input`, or `None` where the
    /// decimal arithmetic has no result. The average itself stays as it is.
    pub fn preview(&self, input: Dec) -> (r: Option<Dec>)
        requires
            self.wf(),
            input.wf(),
        ensures
            r == match self@.step(input) {
                Some((_, average)) => Some(average),
                None => None,
            },
            r matches Some(average) ==> average.wf(),
    {
        match self.compute(input) {
            Some((_, average)) => Some(average),
            None => None,
        }
    }

    /// Feeds one sample if the decimal arithmetic has a result for it, and
    /// leaves the average untouched otherwise.
    pub fn try_next(&mut self, input: Dec) -> (r: Option<Dec>)
        requires
            old(self).wf(),
            input.wf(),
        ensures
            final(self).wf(),
            match old(self)@.step(input) {
                Some((next, average)) => final(self)@ == next && r == Some(average),
                None => *final(self) == *old(self) && r is None,
            },
            r matches Some(average) ==> average.wf(),
    {
        if self.preview(input).is_some() {
            Some(self.next(input))
        } else {
            None
        }
    }

    /// Back to the state right after construction.
    pub fn reset(&mut self)
        requires
            old(self).wf(),
        ensures
            final(self).wf(),
            final(self)@ == old(self)@.after_reset(),
    {
        self.index = 0;
        self.count = 0;
        self.sum = Dec::zero();
        let mut i: usize = 0;
        while i < self.period
            invariant
                i <= self.period,
                self.period == old(self).period,
                self.period > 0,
                self.index == 0,
                self.count == 0,
                self.sum == Dec::zero_value(),
                self.deque@.len() == self.period,
                forall|j: int| 0 <= j < i ==> self.deque@[j] == Dec::zero_value(),
                forall|j: int| i <= j < self.deque@.len() ==> (#[trigger] self.deque@[j]).wf(),
            decreases self.period - i,
        {
            self.deque[i] = Dec::zero();
            i += 1;
        }
        assert(self@.window =~= SmaState::fresh(self.period as nat).window);
    }

    /// The name of the indicator with its period, such as `SMA(9)`.
    pub fn label(&self) -> (r: String)
        requires
            self.wf(),
        ensures
            r@ == label_text("SMA"@, self@.period),
    {
        indicator_label("SMA", self.period)
    }
}

impl Default for SimpleMovingAverage {
    /// An average over 9 samples.
    fn default() -> (r: Self)
        ensures
            r.wf(),
            r@ == SmaState::fresh(9),
    {
        SimpleMovingAverage::new(9).unwrap()
    }
}

/// The first sample fed to a fresh average is its own average: the result
/// stands for the same number as the sample, and is the sample itself unless
/// the sample is a zero of another scale.
pub proof fn lemma_first_sample_identity(period: nat, x: Dec)
    requires
        period > 0,
    ensures
        SmaState::fresh(period).step(x) matches Some((_, average)) && average.value_eq(x) && (
        x.mantissa != 0 ==> average == x),
{
    let s = SmaState::fresh(period);
    assert(s.window[0] == Dec::zero_value());
    assert(Dec::zero_value().negated() == Dec::zero_value());
    assert(difference_of(s.sum, s.window[0]) == Some(Dec::zero_value()));
    assert(sum_of(Dec::zero_value(), x) == Some(x));
    assert(s.next_count() == 1);
    assert(Dec::of_nat(1) == Dec::one_value());
    let average = quotient_of(x, Dec::one_value()).unwrap();
    if x.mantissa == 0 {
        assert(average == Dec::zero_value());
        assert(average.mantissa * pow10(x.scale as nat) == 0);
        assert(x.mantissa * pow10(average.scale as nat) == 0);
    } else {
        assert(average == x);
    }
}

/// The window never grows and evicts the oldest sample first: an average
/// that was fed `inputs` from new holds the last `period` of them, newest
/// last, behind the zeros that they have not yet pushed out, and has counted
/// them up to `period`.
pub proof fn lemma_fed_window(period: nat, inputs: Seq<Dec>)
    requires
        period > 0,
        SmaState::fed(period, inputs) is Some,
    ensures
        ({
            let s = SmaState::fed(period, inputs).unwrap();
            &&& s.period == period
            &&& s.window.len() == period
            &&& s.count == (if inputs.len() < period {
                inputs.len()
            } else {
                period
            })
            &&& forall|i: int|
                0 <= i < period ==> #[trigger] s.window[i] == (if i + inputs.len() < period {
                    Dec::zero_value()
                } else {
                    inputs[i + inputs.len() - period]
                })
        }),
    decreases inputs.len(),
{
    if inputs.len() > 0 {
        lemma_fed_window(period, inputs.drop_last());
        let before = SmaState::fed(period, inputs.drop_last()).unwrap();
        let s = SmaState::fed(period, inputs).unwrap();
        assert(s.window == before.window.drop_first().push(inputs.last()));
        assert forall|i: int| 0 <= i < period implies #[trigger] s.window[i] == (if i
            + inputs.len() < period {
            Dec::zero_value()
        } else {
            inputs[i + inputs.len() - period]
        }) by {
            if i < period - 1 {
                assert(s.window[i] == before.window[i + 1]);
                if !(i + inputs.len() < period) {
                    assert(inputs.drop_last()[i + inputs.len() - period] == inputs[i
                        + inputs.len() - period]);
                }
            }
        }
    }
}

/// Whatever an average has seen, after `reset` it answers the next sample as
/// a newly built average of the same period does.
pub proof fn lemma_reset_replays(s: SmaState, x: Dec)
    ensures
        s.after_reset().step(x) == SmaState::fresh(s.period).step(x),
{
}

} // verus!
