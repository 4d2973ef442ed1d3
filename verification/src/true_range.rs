//! True range: the reach of a bar, gaps from the previous close included.

use crate::bar::Bar;
use crate::decimal::{checked_difference, difference_of, lemma_value_lt_is_strict_order, Dec};
use vstd::prelude::*;

verus! {

/// What a true range remembers: the close of the previous bar.
pub struct TrState {
    pub prev_close: Option<Dec>,
}

/// `|a - b|` as the decimal arithmetic computes it.
pub open spec fn distance_of(a: Dec, b: Dec) -> Option<Dec> {
    match difference_of(a, b) {
        None => None,
        Some(d) => Some(d.magnitude()),
    }
}

/// The largest of the bar's own range and the distances of its high and its
/// low from the previous close.
pub open spec fn range_with_gap(bar: Bar, prev_close: Dec) -> Option<Dec> {
    match difference_of(bar.high, bar.low) {
        None => None,
        Some(range) => match distance_of(bar.high, prev_close) {
            None => None,
            Some(up) => match distance_of(bar.low, prev_close) {
                None => None,
                Some(down) => Some(range.value_max(up).value_max(down)),
            },
        },
    }
}

impl TrState {
    /// The state right after construction: no bar seen.
    pub open spec fn fresh() -> TrState {
        TrState { prev_close: None }
    }

    /// The state that `reset` leaves behind.
    pub open spec fn after_reset(self) -> TrState {
        TrState::fresh()
    }

    pub open spec fn wf(self) -> bool {
        self.prev_close matches Some(c) ==> c.wf()
    }

    /// One bar: `high - low` for the first bar, and the largest of
    /// `high - low`, `|high - previous close|` and `|low - previous close|`
    /// after it. The bar's close is remembered. `None` where the decimal
    /// arithmetic has no result.
    pub open spec fn step(self, bar: Bar) -> Option<(TrState, Dec)> {
        let range = match self.prev_close {
            None => difference_of(bar.high, bar.low),
            Some(prev_close) => range_with_gap(bar, prev_close),
        };
        match range {
            None => None,
            Some(value) => Some((TrState { prev_close: Some(bar.close) }, value)),
        }
    }
}

/// True range of a stream of bars.
#[derive(Debug, Clone)]
pub struct TrueRange {
    prev_close: Option<Dec>,
}

impl View for TrueRange {
    type V = TrState;

    closed spec fn view(&self) -> TrState {
        TrState { prev_close: self.prev_close }
    }
}

/// `|a - b|` on decimals.
pub fn distance(a: Dec, b: Dec) -> (r: Option<Dec>)
    requires
        a.wf(),
        b.wf(),
    ensures
        r == distance_of(a, b),
        r matches Some(d) ==> d.wf(),
{
    match checked_difference(a, b) {
        None => None,
        Some(d) => Some(d.abs()),
    }
}

impl TrueRange {
    /// The remembered close is a valid decimal.
    pub closed spec fn wf(&self) -> bool {
        self.prev_close matches Some(c) ==> c.wf()
    }

    /// A well-formed true range has a well-formed state.
    pub proof fn lemma_view_wf(&self)
        requires
            self.wf(),
        ensures
            self@.wf(),
    {
    }

    /// A true range that has seen no bar.
    pub fn new() -> (r: Self)
        ensures
            r.wf(),
            r@ == TrState::fresh(),
    {
        TrueRange { prev_close: None }
    }

    /// The range that the next bar would give.
    fn compute(&self, bar: &Bar) -> (r: Option<Dec>)
        requires
            self.wf(),
            bar.wf(),
        ensures
            r == match self@.step(*bar) {
                Some((_, range)) => Some(range),
                None => None,
            },
            r matches Some(range) ==> range.wf(),
    {
        match self.prev_close {
            None => checked_difference(bar.high, bar.low),
            Some(prev_close) => match checked_difference(bar.high, bar.low) {
                None => None,
                Some(range) => match distance(bar.high, prev_close) {
                    None => None,
                    Some(up) => match distance(bar.low, prev_close) {
                        None => None,
                        Some(down) => Some(range.max(up).max(down)),
                    },
                },
            },
        }
    }

    /// Feeds one bar and returns its true range.
    pub fn next(&mut self, bar: &Bar) -> (r: Dec)
        requires
            old(self).wf(),
            bar.wf(),
            old(self)@.step(*bar) is Some,
        ensures
            final(self).wf(),
            r.wf(),
            (final(self)@, r) == old(self)@.step(*bar).unwrap(),
    {
        let range = self.compute(bar).unwrap();
        self.prev_close = Some(bar.close);
        range
    }

    /// The range that `next` would return for `bar`, or `None` where the
    /// decimal arithmetic has no result. The indicator stays as it is.
    pub fn preview(&self, bar: &Bar) -> (r: Option<Dec>)
        requires
            self.wf(),
            bar.wf(),
        ensures
            r == match self@.step(*bar) {
                Some((_, range)) => Some(range),
                None => None,
            },
            r matches Some(range) ==> range.wf(),
    {
        self.compute(bar)
    }

    /// Feeds one bar if the decimal arithmetic has a result for it, and
    /// leaves the indicator untouched otherwise.
    pub fn try_next(&mut self, bar: &Bar) -> (r: Option<Dec>)
        requires
            old(self).wf(),
            bar.wf(),
        ensures
            final(self).wf(),
            match old(self)@.step(*bar) {
                Some((next, range)) => final(self)@ == next && r == Some(range),
                None => *final(self) == *old(self) && r is None,
            },
            r matches Some(range) ==> range.wf(),
    {
        if self.preview(bar).is_some() {
            Some(self.next(bar))
        } else {
            None
        }
    }

    /// Forgets the previous close.
    pub fn reset(&mut self)
        ensures
            final(self).wf(),
            final(self)@ == old(self)@.after_reset(),
    {
        self.prev_close = None;
    }
}

impl Default for TrueRange {
    fn default() -> (r: Self)
        ensures
            r.wf(),
            r@ == TrState::fresh(),
    {
        TrueRange::new()
    }
}

/// The first bar's true range is its own range `high - low`, whatever the
/// bar's close.
pub proof fn lemma_first_bar_range(bar: Bar)
    ensures
        TrState::fresh().step(bar) == match difference_of(bar.high, bar.low) {
            None => None::<(TrState, Dec)>,
            Some(range) => Some((TrState { prev_close: Some(bar.close) }, range)),
        },
{
}

/// With a previous close, the true range is one of the three distances and
/// none of them stands for a larger number.
pub proof fn lemma_range_is_the_largest(bar: Bar, prev_close: Dec)
    requires
        range_with_gap(bar, prev_close) is Some,
    ensures
        ({
            let range = difference_of(bar.high, bar.low).unwrap();
            let up = distance_of(bar.high, prev_close).unwrap();
            let down = distance_of(bar.low, prev_close).unwrap();
            let r = range_with_gap(bar, prev_close).unwrap();
            &&& (r == range || r == up || r == down)
            &&& !r.value_lt(range)
            &&& !r.value_lt(up)
            &&& !r.value_lt(down)
        }),
{
    let range = difference_of(bar.high, bar.low).unwrap();
    let up = distance_of(bar.high, prev_close).unwrap();
    let down = distance_of(bar.low, prev_close).unwrap();
    let wider = range.value_max(up);
    lemma_value_lt_is_strict_order(range, up, range);
    lemma_value_lt_is_strict_order(up, up, up);
    lemma_value_lt_is_strict_order(down, down, down);
    lemma_value_lt_is_strict_order(wider, down, range);
    lemma_value_lt_is_strict_order(wider, down, up);
}

/// Whatever a true range has seen, after `reset` it answers the next bar as
/// a new one does.
pub proof fn lemma_reset_replays(s: TrState, bar: Bar)
    ensures
        s.after_reset().step(bar) == TrState::fresh().step(bar),
{
}

} // verus!
