//! Average true range: Wilder's smoothing of the true range.

use crate::bar::Bar;
use crate::decimal::Dec;
use crate::errors::IndicatorError;
use crate::label::indicator_label;
use crate::label::label_text;
use crate::rolling_moving_average::{RmaState, RollingMovingAverage};
use crate::true_range::{TrState, TrueRange};
use vstd::prelude::*;

verus! {

/// What an average true range remembers: its two parts.
pub struct AtrState {
    pub true_range: TrState,
    pub rma: RmaState,
}

impl AtrState {
    /// The state right after construction.
    pub open spec fn fresh(period: nat) -> AtrState {
        AtrState { true_range: TrState::fresh(), rma: RmaState::fresh(period) }
    }

    /// The state that `reset` leaves behind: both parts reset.
    pub open spec fn after_reset(self) -> AtrState {
        AtrState { true_range: self.true_range.after_reset(), rma: self.rma.after_reset() }
    }

    pub open spec fn wf(self) -> bool {
        &&& self.true_range.wf()
        &&& self.rma.wf()
    }

    /// One bar: its true range is fed to the rolling average, whose answer is
    /// the answer. `None` where the decimal arithmetic has no result.
    pub open spec fn step(self, bar: Bar) -> Option<(AtrState, Option<Dec>)> {
        match self.true_range.step(bar) {
            None => None,
            Some((true_range, range)) => match self.rma.step(range) {
                None => None,
                Some((rma, value)) => Some((AtrState { true_range, rma }, value)),
            },
        }
    }

    /// The value that `step` makes available, if it has a result.
    pub open spec fn output(self, bar: Bar) -> Option<Option<Dec>> {
        match self.step(bar) {
            Some((_, value)) => Some(value),
            None => None,
        }
    }
}

/// Average true range, pending until `period` bars have been seen.
#[derive(Debug, Clone)]
pub struct AverageTrueRange {
    true_range: TrueRange,
    rma: RollingMovingAverage,
}

impl View for AverageTrueRange {
    type V = AtrState;

    closed spec fn view(&self) -> AtrState {
        AtrState { true_range: self.true_range@, rma: self.rma@ }
    }
}

impl AverageTrueRange {
    /// Both parts are well formed.
    pub closed spec fn wf(&self) -> bool {
        &&& self.true_range.wf()
        &&& self.rma.wf()
    }

    /// A well-formed indicator has a well-formed state.
    pub proof fn lemma_view_wf(&self)
        requires
            self.wf(),
        ensures
            self@.wf(),
    {
        self.true_range.lemma_view_wf();
        self.rma.lemma_view_wf();
    }

    /// A new average true range with smoothing period `period`, which must be
    /// positive.
    pub fn new(period: usize) -> (r: Result<Self, IndicatorError>)
        ensures
            period == 0 ==> r == Err::<Self, IndicatorError>(IndicatorError::InvalidParameter),
            period > 0 ==> r is Ok,
            r matches Ok(atr) ==> atr.wf() && atr@ == AtrState::fresh(period as nat),
    {
        match RollingMovingAverage::new(period) {
            Err(e) => Err(e),
            Ok(rma) => Ok(AverageTrueRange { true_range: TrueRange::new(), rma }),
        }
    }

    /// The configured smoothing period.
    pub fn period(&self) -> (r: usize)
        requires
            self.wf(),
        ensures
            r == self@.rma.period,
            r > 0,
    {
        self.rma.period()
    }

    /// Feeds one bar and returns the average true range, `None` while
    /// pending.
    pub fn next(&mut self, bar: &Bar) -> (r: Option<Dec>)
        requires
            old(self).wf(),
            bar.wf(),
            old(self)@.step(*bar) is Some,
        ensures
            final(self).wf(),
            r matches Some(value) ==> value.wf(),
            (final(self)@, r) == old(self)@.step(*bar).unwrap(),
    {
        let range = self.true_range.next(bar);
        self.rma.next(range)
    }

    /// What `next` would return for `bar`, or `None` where the decimal
    /// arithmetic has no result. The indicator stays as it is.
    pub fn preview(&self, bar: &Bar) -> (r: Option<Option<Dec>>)
        requires
            self.wf(),
            bar.wf(),
        ensures
            r == self@.output(*bar),
            r matches Some(Some(value)) ==> value.wf(),
    {
        match self.true_range.preview(bar) {
            None => None,
            Some(range) => self.rma.preview(range),
        }
    }

    /// Feeds one bar if the decimal arithmetic has a result for it, and
    /// leaves the indicator untouched otherwise. The outer `Option` tells
    /// which.
    pub fn try_next(&mut self, bar: &Bar) -> (r: Option<Option<Dec>>)
        requires
            old(self).wf(),
            bar.wf(),
        ensures
            final(self).wf(),
            match old(self)@.step(*bar) {
                Some((next, value)) => final(self)@ == next && r == Some(value),
                None => *final(self) == *old(self) && r is None,
            },
            r matches Some(Some(value)) ==> value.wf(),
    {
        if self.preview(bar).is_some() {
            Some(self.next(bar))
        } else {
            None
        }
    }

    /// Back to the state right after construction.
    pub fn reset(&mut self)
        requires
            old(self).wf(),
        ensures
            final(self).wf(),
            final(self)@ == old(self)@.after_reset(),
    {
        self.true_range.reset();
        self.rma.reset();
    }

    /// The name of the indicator with its period, such as `ATR(14)`.
    pub fn label(&self) -> (r: String)
        requires
            self.wf(),
        ensures
            r@ == label_text("ATR"@, self@.rma.period),
    {
        indicator_label("ATR", self.rma.period())
    }
}

impl Default for AverageTrueRange {
    /// An average true range with smoothing period 14.
    fn default() -> (r: Self)
        ensures
            r.wf(),
            r@ == AtrState::fresh(14),
    {
        AverageTrueRange::new(14).unwrap()
    }
}

/// An average true range is the rolling average of the true ranges: the
/// answer for a bar is the rolling average's answer for that bar's true
/// range.
pub proof fn lemma_composition(s: AtrState, bar: Bar)
    ensures
        s.output(bar) == match s.true_range.step(bar) {
            None => None,
            Some((_, range)) => s.rma.output(range),
        },
{
}

/// Whatever an indicator has seen, after `reset` it answers the next bar as
/// a newly built indicator of the same period does.
pub proof fn lemma_reset_replays(s: AtrState, bar: Bar)
    ensures
        s.after_reset().step(bar) == AtrState::fresh(s.rma.period).step(bar),
{
}

} // verus!
