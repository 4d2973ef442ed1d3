//! Pivot points: fractal highs and lows in a sliding window of bars.

use crate::bar::Bar;
use crate::decimal::{lemma_value_lt_is_strict_order, less_than, Dec};
use crate::errors::IndicatorError;
use std::collections::VecDeque;
use vstd::prelude::*;

verus! {

/// The kind of a pivot.
#[derive(Debug, Clone, Copy, PartialEq, Eq, Structural)]
pub enum PivotType {
    High,
    Low,
    Unknown,
}

/// A detected price extreme.
#[derive(Debug, Clone, Copy, PartialEq, Eq, Structural)]
pub struct Pivot {
    pub price: Dec,
    pub pivot_type: PivotType,
}

impl Pivot {
    /// The placeholder that fills the history before pivots are found.
    pub open spec fn unknown_value() -> Pivot {
        Pivot { price: Dec::zero_value(), pivot_type: PivotType::Unknown }
    }

    pub open spec fn wf(self) -> bool {
        self.price.wf()
    }
}

/// The highs rise strictly towards the bar at `lookback` and fall strictly
/// after it.
pub open spec fn is_pivot_high(bars: Seq<Bar>, lookback: nat) -> bool {
    &&& forall|i: int|
        0 <= i < lookback ==> (#[trigger] bars[i]).high.value_lt(bars[i + 1].high)
    &&& forall|i: int|
        lookback <= i < 2 * lookback ==> bars[i + 1].high.value_lt((#[trigger] bars[i]).high)
}

/// The lows fall strictly towards the bar at `lookback` and rise strictly
/// after it.
pub open spec fn is_pivot_low(bars: Seq<Bar>, lookback: nat) -> bool {
    &&& forall|i: int|
        0 <= i < lookback ==> bars[i + 1].low.value_lt((#[trigger] bars[i]).low)
    &&& forall|i: int|
        lookback <= i < 2 * lookback ==> (#[trigger] bars[i]).low.value_lt(bars[i + 1].low)
}

/// The high of the centre bar, if the centre is a pivot high.
pub open spec fn pivot_high_of(bars: Seq<Bar>, lookback: nat) -> Option<Dec> {
    if is_pivot_high(bars, lookback) {
        Some(bars[lookback as int].high)
    } else {
        None
    }
}

/// The low of the centre bar, if the centre is a pivot low.
pub open spec fn pivot_low_of(bars: Seq<Bar>, lookback: nat) -> Option<Dec> {
    if is_pivot_low(bars, lookback) {
        Some(bars[lookback as int].low)
    } else {
        None
    }
}

/// The history with its oldest pivot replaced by a new, newest one. A
/// history without room keeps nothing.
pub open spec fn recorded(pivots: Seq<Pivot>, pivot: Pivot) -> Seq<Pivot> {
    if pivots.len() == 0 {
        pivots
    } else {
        pivots.drop_first().push(pivot)
    }
}

/// What a pivot detector remembers.
pub struct PivotState {
    /// Bars on each side of the centre that a pivot must dominate.
    pub lookback: nat,
    /// Size of the history.
    pub num_pivots: nat,
    /// The history, oldest first.
    pub pivots: Seq<Pivot>,
    /// The window of `2 * lookback + 1` bars, oldest first. The bars not yet
    /// observed are zero bars.
    pub bars: Seq<Bar>,
    /// Bars observed so far, counted up to the size of the window.
    pub observed: nat,
}

impl PivotState {
    /// The state right after construction: a history of placeholders and a
    /// window of zero bars.
    pub open spec fn fresh(lookback: nat, num_pivots: nat) -> PivotState {
        PivotState {
            lookback,
            num_pivots,
            pivots: Seq::new(num_pivots, |i: int| Pivot::unknown_value()),
            bars: Seq::new(2 * lookback + 1, |i: int| Bar::zero_value()),
            observed: 0,
        }
    }

    pub open spec fn wf(self) -> bool {
        &&& self.pivots.len() == self.num_pivots
        &&& self.bars.len() == 2 * self.lookback + 1
        &&& self.observed <= 2 * self.lookback + 1
        &&& forall|i: int| 0 <= i < self.bars.len() ==> (#[trigger] self.bars[i]).wf()
        &&& forall|i: int| 0 <= i < self.pivots.len() ==> (#[trigger] self.pivots[i]).wf()
    }

    /// The window after `bar` has pushed the oldest bar out.
    pub open spec fn window_after(self, bar: Bar) -> Seq<Bar> {
        self.bars.drop_first().push(bar)
    }

    /// The state after feeding `inputs`, oldest first, to a new detector.
    pub open spec fn fed(lookback: nat, num_pivots: nat, inputs: Seq<Bar>) -> PivotState
        decreases inputs.len(),
    {
        if inputs.len() == 0 {
            PivotState::fresh(lookback, num_pivots)
        } else {
            PivotState::fed(lookback, num_pivots, inputs.drop_last()).step(inputs.last())
        }
    }

    /// The number of bars observed once one more has come, counted up to
    /// the size of the window.
    pub open spec fn observed_after(self) -> nat {
        if self.observed < 2 * self.lookback + 1 {
            self.observed + 1
        } else {
            self.observed
        }
    }

    /// The window holds observed bars only, once one more has come.
    pub open spec fn full_after(self) -> bool {
        self.observed_after() == 2 * self.lookback + 1
    }

    /// The history after the centre of `bars` has been tested as a pivot
    /// high and then as a pivot low, each pivot found being recorded.
    pub open spec fn detected(self, bars: Seq<Bar>) -> Seq<Pivot> {
        let with_high = match pivot_high_of(bars, self.lookback) {
            Some(price) => recorded(self.pivots, Pivot { price, pivot_type: PivotType::High }),
            None => self.pivots,
        };
        match pivot_low_of(bars, self.lookback) {
            Some(price) => recorded(with_high, Pivot { price, pivot_type: PivotType::Low }),
            None => with_high,
        }
    }

    /// One bar: it enters the window and is counted. While the window still
    /// holds a zero bar from construction nothing is tested and the history
    /// stays as it is; once it holds `2 * lookback + 1` observed bars its
    /// centre is tested and each pivot found is recorded.
    pub open spec fn step(self, bar: Bar) -> PivotState {
        let bars = self.window_after(bar);
        PivotState {
            lookback: self.lookback,
            num_pivots: self.num_pivots,
            pivots: if self.full_after() {
                self.detected(bars)
            } else {
                self.pivots
            },
            bars,
            observed: self.observed_after(),
        }
    }
}

/// Pivot point detector with a bounded history.
#[derive(Debug, Clone)]
pub struct PivotPoints {
    lookback_period: usize,
    num_pivots: usize,
    pivots: VecDeque<Pivot>,
    bars: VecDeque<Bar>,
    observed: usize,
}

impl View for PivotPoints {
    type V = PivotState;

    closed spec fn view(&self) -> PivotState {
        PivotState {
            lookback: self.lookback_period as nat,
            num_pivots: self.num_pivots as nat,
            pivots: self.pivots@,
            bars: self.bars@,
            observed: self.observed as nat,
        }
    }
}

/// The high of the centre bar of a window of `2 * period + 1` bars, if it is
/// a pivot high.
pub fn find_pivot_high(period: usize, b: &VecDeque<Bar>) -> (r: Option<Dec>)
    requires
        b@.len() == 2 * period + 1,
        forall|i: int| 0 <= i < b@.len() ==> (#[trigger] b@[i]).wf(),
    ensures
        r == pivot_high_of(b@, period as nat),
        r matches Some(price) ==> price.wf(),
{
    let mut i: usize = 0;
    while i < b.len() - 1
        invariant
            b@.len() == 2 * period + 1,
            i <= 2 * period,
            forall|j: int| 0 <= j < b@.len() ==> (#[trigger] b@[j]).wf(),
            forall|j: int|
                0 <= j < i && j < period ==> (#[trigger] b@[j]).high.value_lt(b@[j + 1].high),
            forall|j: int|
                period <= j < i ==> b@[j + 1].high.value_lt((#[trigger] b@[j]).high),
        decreases 2 * period - i,
    {
        if i >= period {
            if !less_than(b[i + 1].high, b[i].high) {
                assert(!b@[i + 1].high.value_lt(b@[i as int].high));
                return None;
            }
        } else {
            if !less_than(b[i].high, b[i + 1].high) {
                assert(!b@[i as int].high.value_lt(b@[i + 1].high));
                return None;
            }
        }
        i += 1;
    }
    Some(b[period].high)
}

/// The low of the centre bar of a window of `2 * period + 1` bars, if it is
/// a pivot low.
pub fn find_pivot_low(period: usize, b: &VecDeque<Bar>) -> (r: Option<Dec>)
    requires
        b@.len() == 2 * period + 1,
        forall|i: int| 0 <= i < b@.len() ==> (#[trigger] b@[i]).wf(),
    ensures
        r == pivot_low_of(b@, period as nat),
        r matches Some(price) ==> price.wf(),
{
    let mut i: usize = 0;
    while i < b.len() - 1
        invariant
            b@.len() == 2 * period + 1,
            i <= 2 * period,
            forall|j: int| 0 <= j < b@.len() ==> (#[trigger] b@[j]).wf(),
            forall|j: int|
                0 <= j < i && j < period ==> b@[j + 1].low.value_lt((#[trigger] b@[j]).low),
            forall|j: int|
                period <= j < i ==> (#[trigger] b@[j]).low.value_lt(b@[j + 1].low),
        decreases 2 * period - i,
    {
        if i >= period {
            if !less_than(b[i].low, b[i + 1].low) {
                assert(!b@[i as int].low.value_lt(b@[i + 1].low));
                return None;
            }
        } else {
            if !less_than(b[i + 1].low, b[i].low) {
                assert(!b@[i + 1].low.value_lt(b@[i as int].low));
                return None;
            }
        }
        i += 1;
    }
    Some(b[period].low)
}

/// Replaces the oldest pivot of a history by a new, newest one.
fn record(pivots: &mut VecDeque<Pivot>, pivot: Pivot)
    ensures
        final(pivots)@ == recorded(old(pivots)@, pivot),
{
    match pivots.pop_front() {
        Some(_) => {
            pivots.push_back(pivot);
            assert(pivots@ =~= recorded(old(pivots)@, pivot));
        },
        None => {},
    }
}

impl PivotPoints {
    /// The history and the window have their configured sizes and hold valid
    /// decimals.
    pub closed spec fn wf(&self) -> bool {
        &&& self.pivots@.len() == self.num_pivots
        &&& self.bars@.len() == 2 * self.lookback_period + 1
        &&& self.observed <= 2 * self.lookback_period + 1
        &&& forall|i: int| 0 <= i < self.bars@.len() ==> (#[trigger] self.bars@[i]).wf()
        &&& forall|i: int| 0 <= i < self.pivots@.len() ==> (#[trigger] self.pivots@[i]).wf()
    }

    /// A well-formed detector has a well-formed state.
    pub proof fn lemma_view_wf(&self)
        requires
            self.wf(),
        ensures
            self@.wf(),
    {
    }

    /// A new detector that looks `lookback_period` bars to each side and
    /// keeps `num_pivots` pivots. Fails when both are zero.
    pub fn new(lookback_period: usize, num_pivots: usize) -> (r: Result<Self, IndicatorError>)
        requires
            2 * lookback_period + 1 <= usize::MAX,
        ensures
            lookback_period == 0 && num_pivots == 0 ==> r == Err::<Self, IndicatorError>(
                IndicatorError::InvalidParameter,
            ),
            lookback_period > 0 || num_pivots > 0 ==> r is Ok,
            r matches Ok(pp) ==> pp.wf() && pp@ == PivotState::fresh(
                lookback_period as nat,
                num_pivots as nat,
            ),
    {
        if lookback_period == 0 && num_pivots == 0 {
            return Err(IndicatorError::InvalidParameter);
        }
        let mut pivots: VecDeque<Pivot> = VecDeque::new();
        let mut i: usize = 0;
        while i < num_pivots
            invariant
                i <= num_pivots,
                pivots@.len() == i,
                forall|j: int| 0 <= j < i ==> pivots@[j] == Pivot::unknown_value(),
            decreases num_pivots - i,
        {
            pivots.push_back(Pivot { price: Dec::zero(), pivot_type: PivotType::Unknown });
            i += 1;
        }
        let width = lookback_period * 2 + 1;
        let mut bars: VecDeque<Bar> = VecDeque::new();
        let mut k: usize = 0;
        while k < width
            invariant
                k <= width,
                bars@.len() == k,
                forall|j: int| 0 <= j < k ==> bars@[j] == Bar::zero_value(),
            decreases width - k,
        {
            bars.push_back(Bar::zero());
            k += 1;
        }
        let pp = PivotPoints { lookback_period, num_pivots, pivots, bars, observed: 0 };
        assert(pp@.pivots =~= PivotState::fresh(lookback_period as nat, num_pivots as nat).pivots);
        assert(pp@.bars =~= PivotState::fresh(lookback_period as nat, num_pivots as nat).bars);
        Ok(pp)
    }

    /// Bars on each side of the centre that a pivot must dominate.
    pub fn lookback_period(&self) -> (r: usize)
        ensures
            r == self@.lookback,
    {
        self.lookback_period
    }

    /// Size of the history.
    pub fn num_pivots(&self) -> (r: usize)
        ensures
            r == self@.num_pivots,
    {
        self.num_pivots
    }

    /// Feeds one bar and returns the pivot history, oldest first.
    pub fn next(&mut self, input: &Bar) -> (r: VecDeque<Pivot>)
        requires
            old(self).wf(),
            input.wf(),
        ensures
            final(self).wf(),
            final(self)@ == old(self)@.step(*input),
            r@ == final(self)@.pivots,
    {
        self.bars.pop_front();
        self.bars.push_back(*input);
        assert(self.bars@ =~= old(self)@.window_after(*input));
        if self.observed < self.bars.len() {
            self.observed += 1;
        }
        if self.observed == self.bars.len() {
            if let Some(ph) = find_pivot_high(self.lookback_period, &self.bars) {
                record(&mut self.pivots, Pivot { price: ph, pivot_type: PivotType::High });
            }
            if let Some(pl) = find_pivot_low(self.lookback_period, &self.bars) {
                record(&mut self.pivots, Pivot { price: pl, pivot_type: PivotType::Low });
            }
        }
        let history = self.pivots.clone();
        assert(history@ =~= self.pivots@);
        history
    }
}

impl Default for PivotPoints {
    /// A detector that looks 3 bars to each side and keeps 5 pivots.
    fn default() -> (r: Self)
        ensures
            r.wf(),
            r@ == PivotState::fresh(3, 5),
    {
        PivotPoints::new(3, 5).unwrap()
    }
}

/// A pivot high is strictly above every other high of its window, not only
/// above its neighbours.
pub proof fn lemma_pivot_high_dominates(bars: Seq<Bar>, lookback: nat, j: int)
    requires
        bars.len() == 2 * lookback + 1,
        is_pivot_high(bars, lookback),
        0 <= j < bars.len(),
        j != lookback,
    ensures
        bars[j].high.value_lt(bars[lookback as int].high),
    decreases
            (if j < lookback {
                lookback - j
            } else {
                j - lookback
            }),
{
    let centre = bars[lookback as int].high;
    if j < lookback {
        assert(bars[j].high.value_lt(bars[j + 1].high));
        if j + 1 < lookback {
            lemma_pivot_high_dominates(bars, lookback, j + 1);
            lemma_value_lt_is_strict_order(bars[j].high, bars[j + 1].high, centre);
        }
    } else {
        assert(bars[j].high.value_lt(bars[j - 1].high));
        if j - 1 > lookback {
            lemma_pivot_high_dominates(bars, lookback, j - 1);
            lemma_value_lt_is_strict_order(bars[j].high, bars[j - 1].high, centre);
        }
    }
}

/// A pivot low is strictly below every other low of its window, not only
/// below its neighbours.
pub proof fn lemma_pivot_low_dominates(bars: Seq<Bar>, lookback: nat, j: int)
    requires
        bars.len() == 2 * lookback + 1,
        is_pivot_low(bars, lookback),
        0 <= j < bars.len(),
        j != lookback,
    ensures
        bars[lookback as int].low.value_lt(bars[j].low),
    decreases
            (if j < lookback {
                lookback - j
            } else {
                j - lookback
            }),
{
    let centre = bars[lookback as int].low;
    if j < lookback {
        assert(bars[j + 1].low.value_lt(bars[j].low));
        if j + 1 < lookback {
            lemma_pivot_low_dominates(bars, lookback, j + 1);
            lemma_value_lt_is_strict_order(centre, bars[j + 1].low, bars[j].low);
        }
    } else {
        assert(bars[j - 1].low.value_lt(bars[j].low));
        if j - 1 > lookback {
            lemma_pivot_low_dominates(bars, lookback, j - 1);
            lemma_value_lt_is_strict_order(centre, bars[j - 1].low, bars[j].low);
        }
    }
}

/// Every bar keeps the window at `2 * lookback + 1` bars and the history at
/// `num_pivots` pivots: nothing grows.
pub proof fn lemma_step_keeps_sizes(s: PivotState, bar: Bar)
    requires
        s.wf(),
        bar.wf(),
    ensures
        s.step(bar).wf(),
        s.step(bar).lookback == s.lookback,
        s.step(bar).num_pivots == s.num_pivots,
{
    let bars = s.window_after(bar);
    assert forall|i: int| 0 <= i < bars.len() implies (#[trigger] bars[i]).wf() by {
        if i < bars.len() - 1 {
            assert(bars[i] == s.bars[i + 1]);
        }
    }
    let high = Pivot { price: bars[s.lookback as int].high, pivot_type: PivotType::High };
    let low = Pivot { price: bars[s.lookback as int].low, pivot_type: PivotType::Low };
    assert(bars[s.lookback as int].wf());
    lemma_recorded_keeps_size(s.pivots, high);
    let with_high = if is_pivot_high(bars, s.lookback) {
        recorded(s.pivots, high)
    } else {
        s.pivots
    };
    lemma_recorded_keeps_size(with_high, low);
}

/// Recording a pivot keeps the length of the history and the validity of
/// its entries.
pub proof fn lemma_recorded_keeps_size(pivots: Seq<Pivot>, pivot: Pivot)
    requires
        pivot.wf(),
        forall|i: int| 0 <= i < pivots.len() ==> (#[trigger] pivots[i]).wf(),
    ensures
        recorded(pivots, pivot).len() == pivots.len(),
        forall|i: int|
            0 <= i < pivots.len() ==> (#[trigger] recorded(pivots, pivot)[i]).wf(),
        pivots.len() > 0 ==> recorded(pivots, pivot).last() == pivot,
{
    let after = recorded(pivots, pivot);
    assert forall|i: int| 0 <= i < pivots.len() implies (#[trigger] after[i]).wf() by {
        if i < pivots.len() - 1 {
            assert(after[i] == pivots[i + 1]);
        }
    }
}

/// The window of a detector that was fed `inputs` from new: the bars fed,
/// newest last, behind the zero bars that they have not yet pushed out.
pub proof fn lemma_fed_window(lookback: nat, num_pivots: nat, inputs: Seq<Bar>)
    ensures
        ({
            let s = PivotState::fed(lookback, num_pivots, inputs);
            let width = 2 * lookback + 1;
            &&& s.lookback == lookback
            &&& s.num_pivots == num_pivots
            &&& s.bars.len() == width
            &&& s.observed == (if inputs.len() < width {
                inputs.len()
            } else {
                width
            })
            &&& forall|i: int|
                0 <= i < width ==> #[trigger] s.bars[i] == (if i + inputs.len() < width {
                    Bar::zero_value()
                } else {
                    inputs[i + inputs.len() - width]
                })
        }),
    decreases inputs.len(),
{
    if inputs.len() > 0 {
        lemma_fed_window(lookback, num_pivots, inputs.drop_last());
        let before = PivotState::fed(lookback, num_pivots, inputs.drop_last());
        let s = PivotState::fed(lookback, num_pivots, inputs);
        let width = 2 * lookback + 1;
        assert(s.bars == before.window_after(inputs.last()));
        assert forall|i: int| 0 <= i < width implies #[trigger] s.bars[i] == (if i + inputs.len()
            < width {
            Bar::zero_value()
        } else {
            inputs[i + inputs.len() - width]
        }) by {
            if i < width - 1 {
                assert(s.bars[i] == before.bars[i + 1]);
                if !(i + inputs.len() < width) {
                    assert(inputs.drop_last()[i + inputs.len() - width] == inputs[i + inputs.len()
                        - width]);
                }
            }
        }
    }
}

/// No pivot is found before the window is full: a detector that has
/// observed fewer than `2 * lookback + 1` bars has its history of
/// placeholders untouched, whatever the bars hold.
pub proof fn lemma_no_pivot_during_fill(lookback: nat, num_pivots: nat, inputs: Seq<Bar>)
    requires
        inputs.len() < 2 * lookback + 1,
    ensures
        PivotState::fed(lookback, num_pivots, inputs).pivots == PivotState::fresh(
            lookback,
            num_pivots,
        ).pivots,
    decreases inputs.len(),
{
    if inputs.len() > 0 {
        lemma_no_pivot_during_fill(lookback, num_pivots, inputs.drop_last());
        lemma_fed_window(lookback, num_pivots, inputs.drop_last());
    }
}

/// From the bar that fills the window on, the window holds the last
/// `2 * lookback + 1` bars observed and nothing else, and its centre is
/// tested on every bar.
pub proof fn lemma_full_window_is_tested(lookback: nat, num_pivots: nat, inputs: Seq<Bar>)
    requires
        inputs.len() >= 2 * lookback + 1,
    ensures
        ({
            let before = PivotState::fed(lookback, num_pivots, inputs.drop_last());
            let s = PivotState::fed(lookback, num_pivots, inputs);
            &&& s.bars == inputs.subrange(inputs.len() - (2 * lookback + 1), inputs.len() as int)
            &&& s.pivots == before.detected(s.bars)
        }),
{
    lemma_fed_window(lookback, num_pivots, inputs);
    lemma_fed_window(lookback, num_pivots, inputs.drop_last());
    let s = PivotState::fed(lookback, num_pivots, inputs);
    assert(s.bars =~= inputs.subrange(inputs.len() - (2 * lookback + 1), inputs.len() as int));
}

} // verus!
