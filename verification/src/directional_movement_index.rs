//! Directional movement index: the two directional indicators and the
//! average directional index (ADX) of a stream of bars.

use crate::average_true_range::{AtrState, AverageTrueRange};
use crate::bar::Bar;
use crate::decimal::{
    checked_difference, checked_product, checked_quotient, checked_sum, difference_of, less_than,
    product_of, quotient_of, sum_of, Dec,
};
use crate::errors::IndicatorError;
use crate::label::indicator_label;
use crate::label::label_text;
use crate::model::ADX;
use crate::rolling_moving_average::{
    lemma_pending_exactly_during_warm_up, RmaState, RollingMovingAverage,
};
use vstd::prelude::*;

verus! {

/// The upward move `high - previous high` and the downward move
/// `previous low - low` of a bar.
pub open spec fn moves_of(bar: Bar, prev_high: Dec, prev_low: Dec) -> Option<(Dec, Dec)> {
    match difference_of(bar.high, prev_high) {
        None => None,
        Some(up_move) => match difference_of(prev_low, bar.low) {
            None => None,
            Some(down_move) => Some((up_move, down_move)),
        },
    }
}

/// Wilder's directional movement `(+DM, -DM)` of an upward and a downward
/// move: the larger move counts if it is positive, the other is zero, and
/// both are zero when the moves are equal or neither is positive.
pub open spec fn directional_movement_of(up_move: Dec, down_move: Dec) -> (Dec, Dec) {
    if down_move.value_lt(up_move) && Dec::zero_value().value_lt(up_move) {
        (up_move, Dec::zero_value())
    } else if up_move.value_lt(down_move) && Dec::zero_value().value_lt(down_move) {
        (Dec::zero_value(), down_move)
    } else {
        (Dec::zero_value(), Dec::zero_value())
    }
}

/// The range that normalises the directional indicators: the average true
/// range, and one in its place while it is pending or zero, so that the
/// indicators are never divided by zero.
pub open spec fn normaliser_of(atr_opt: Option<Dec>) -> Dec {
    match atr_opt {
        Some(atr) => if atr.mantissa == 0 {
            Dec::one_value()
        } else {
            atr
        },
        None => Dec::one_value(),
    }
}

/// A directional indicator `(value / atr) * 100` of a smoothed movement,
/// pending while the movement is. The outer `Option` is `None` where the
/// decimal arithmetic has no result, as it has none for an `atr` of zero:
/// `adx_indicator_of` divides by `normaliser_of`, which is never zero.
pub open spec fn directional_indicator_of(smoothed: Option<Dec>, atr: Dec) -> Option<Option<Dec>> {
    match smoothed {
        None => Some(None),
        Some(value) => match quotient_of(value, atr) {
            None => None,
            Some(ratio) => match product_of(ratio, Dec::hundred_value()) {
                None => None,
                Some(indicator) => Some(Some(indicator)),
            },
        },
    }
}

/// The directional index `|(+DI - -DI) / (+DI + -DI)|`: pending unless both
/// indicators are available, and pending where their sum is zero. The outer
/// `Option` is `None` where the decimal arithmetic has no result.
pub open spec fn directional_index_of(di_plus_opt: Option<Dec>, di_minus_opt: Option<Dec>) -> Option<
    Option<Dec>,
> {
    match (di_plus_opt, di_minus_opt) {
        (Some(di_plus), Some(di_minus)) => match difference_of(di_plus, di_minus) {
            None => None,
            Some(spread) => match sum_of(di_plus, di_minus) {
                None => None,
                Some(total) => if total.mantissa == 0 {
                    Some(None)
                } else {
                    match quotient_of(spread, total) {
                        None => None,
                        Some(ratio) => Some(Some(ratio.magnitude())),
                    }
                },
            },
        },
        _ => Some(None),
    }
}

/// A smoothed value times one hundred, pending while the value is. The outer
/// `Option` is `None` where the decimal arithmetic has no result.
pub open spec fn percent_of(smoothed: Option<Dec>) -> Option<Option<Dec>> {
    match smoothed {
        None => Some(None),
        Some(value) => match product_of(value, Dec::hundred_value()) {
            None => None,
            Some(percent) => Some(Some(percent)),
        },
    }
}

/// The two directional indicators of a bar: each movement goes through its
/// own rolling average and is normalised by `atr`. Returns the averages
/// after the bar and the two indicators.
pub open spec fn directional_indicators_of(
    dm_plus: Dec,
    dm_minus: Dec,
    atr: Dec,
    plus: RmaState,
    minus: RmaState,
) -> Option<(RmaState, RmaState, Option<Dec>, Option<Dec>)> {
    match plus.step(dm_plus) {
        None => None,
        Some((plus_after, smoothed_plus)) => match directional_indicator_of(smoothed_plus, atr) {
            None => None,
            Some(di_plus_opt) => match minus.step(dm_minus) {
                None => None,
                Some((minus_after, smoothed_minus)) => match directional_indicator_of(
                    smoothed_minus,
                    atr,
                ) {
                    None => None,
                    Some(di_minus_opt) => Some(
                        (plus_after, minus_after, di_plus_opt, di_minus_opt),
                    ),
                },
            },
        },
    }
}

/// The average directional index of a bar: the directional index goes
/// through a rolling average of its own, which is left alone while the index
/// is pending, and the smoothed value is taken times one hundred. Returns
/// the average after the bar and the index.
pub open spec fn average_index_of(
    di_plus_opt: Option<Dec>,
    di_minus_opt: Option<Dec>,
    adx: RmaState,
) -> Option<(RmaState, Option<Dec>)> {
    match directional_index_of(di_plus_opt, di_minus_opt) {
        None => None,
        Some(None) => Some((adx, None)),
        Some(Some(dx)) => match adx.step(dx) {
            None => None,
            Some((adx_after, smoothed)) => match percent_of(smoothed) {
                None => None,
                Some(adx_opt) => Some((adx_after, adx_opt)),
            },
        },
    }
}

/// What one bar does to the three rolling averages and what it returns.
///
/// The first bar (`is_new`) touches nothing and returns everything pending.
/// Any other bar is compared with the previous high and low, its directional
/// movement is smoothed and normalised into `+DI` and `-DI`, and their index
/// is smoothed into the ADX. `None` where the decimal arithmetic has no
/// result.
pub open spec fn adx_indicator_of(
    bar: Bar,
    atr_opt: Option<Dec>,
    prev_low: Dec,
    prev_high: Dec,
    plus: RmaState,
    minus: RmaState,
    adx: RmaState,
    is_new: bool,
) -> Option<(RmaState, RmaState, RmaState, ADX)> {
    if is_new {
        Some((plus, minus, adx, ADX::pending_value()))
    } else {
        match moves_of(bar, prev_high, prev_low) {
            None => None,
            Some((up_move, down_move)) => {
                let (dm_plus, dm_minus) = directional_movement_of(up_move, down_move);
                match directional_indicators_of(
                    dm_plus,
                    dm_minus,
                    normaliser_of(atr_opt),
                    plus,
                    minus,
                ) {
                    None => None,
                    Some(
                        (plus_after, minus_after, di_plus_opt, di_minus_opt),
                    ) => match average_index_of(di_plus_opt, di_minus_opt, adx) {
                        None => None,
                        Some((adx_after, adx_opt)) => Some(
                            (
                                plus_after,
                                minus_after,
                                adx_after,
                                ADX { adx_opt, di_plus_opt, di_minus_opt },
                            ),
                        ),
                    },
                }
            },
        }
    }
}

/// What a directional movement index remembers.
pub struct DmiState {
    /// Smoothing period of all four averages.
    pub period: nat,
    /// Rolling average of the positive directional movement.
    pub dmi_plus: RmaState,
    /// Rolling average of the negative directional movement.
    pub dmi_minus: RmaState,
    /// Rolling average of the directional index.
    pub adx: RmaState,
    /// Average true range of the bars.
    pub atr: AtrState,
    /// The previous bar; the zero bar before the first.
    pub previous: Bar,
    /// No bar has been seen yet.
    pub is_new: bool,
}

impl DmiState {
    /// The state right after construction.
    pub open spec fn fresh(period: nat) -> DmiState {
        DmiState {
            period,
            dmi_plus: RmaState::fresh(period),
            dmi_minus: RmaState::fresh(period),
            adx: RmaState::fresh(period),
            atr: AtrState::fresh(period),
            previous: Bar::zero_value(),
            is_new: true,
        }
    }

    /// The state that `reset` leaves behind: that of a new index of the same
    /// period.
    pub open spec fn after_reset(self) -> DmiState {
        DmiState::fresh(self.period)
    }

    pub open spec fn wf(self) -> bool {
        &&& self.period > 0
        &&& self.dmi_plus.wf()
        &&& self.dmi_minus.wf()
        &&& self.adx.wf()
        &&& self.atr.wf()
        &&& self.previous.wf()
        &&& self.dmi_plus.period == self.period
        &&& self.dmi_minus.period == self.period
        &&& self.adx.period == self.period
        &&& self.atr.rma.period == self.period
    }

    /// One bar: the average true range is fed first, then the three rolling
    /// averages as `adx_indicator_of` says, against the previous bar. The
    /// bar is remembered and is no longer the first.
    pub open spec fn step(self, bar: Bar) -> Option<(DmiState, ADX)> {
        match self.atr.step(bar) {
            None => None,
            Some((atr, atr_opt)) => match adx_indicator_of(
                bar,
                atr_opt,
                self.previous.low,
                self.previous.high,
                self.dmi_plus,
                self.dmi_minus,
                self.adx,
                self.is_new,
            ) {
                None => None,
                Some((dmi_plus, dmi_minus, adx, result)) => Some(
                    (
                        DmiState {
                            period: self.period,
                            dmi_plus,
                            dmi_minus,
                            adx,
                            atr,
                            previous: bar,
                            is_new: false,
                        },
                        result,
                    ),
                ),
            },
        }
    }

    /// The record that `step` returns, if it has a result.
    pub open spec fn output(self, bar: Bar) -> Option<ADX> {
        match self.step(bar) {
            Some((_, result)) => Some(result),
            None => None,
        }
    }
}

/// Directional movement index with ADX.
#[derive(Debug, Clone)]
pub struct DirectionalMovementIndex {
    period: usize,
    dmi_plus: RollingMovingAverage,
    dmi_minus: RollingMovingAverage,
    adx: RollingMovingAverage,
    atr: AverageTrueRange,
    current_di: Bar,
    is_new: bool,
}

impl View for DirectionalMovementIndex {
    type V = DmiState;

    closed spec fn view(&self) -> DmiState {
        DmiState {
            period: self.period as nat,
            dmi_plus: self.dmi_plus@,
            dmi_minus: self.dmi_minus@,
            adx: self.adx@,
            atr: self.atr@,
            previous: self.current_di,
            is_new: self.is_new,
        }
    }
}

/// The upward and the downward move of a bar against the previous high and
/// low.
pub fn moves(bar: &Bar, prev_high: &Dec, prev_low: &Dec) -> (r: Option<(Dec, Dec)>)
    requires
        bar.wf(),
        prev_high.wf(),
        prev_low.wf(),
    ensures
        r == moves_of(*bar, *prev_high, *prev_low),
        r matches Some((up_move, down_move)) ==> up_move.wf() && down_move.wf(),
{
    match checked_difference(bar.high, *prev_high) {
        None => None,
        Some(up_move) => match checked_difference(*prev_low, bar.low) {
            None => None,
            Some(down_move) => Some((up_move, down_move)),
        },
    }
}

/// Wilder's directional movement `(+DM, -DM)` of an upward and a downward
/// move.
pub fn directional_movement(up_move: Dec, down_move: Dec) -> (r: (Dec, Dec))
    requires
        up_move.wf(),
        down_move.wf(),
    ensures
        r == directional_movement_of(up_move, down_move),
        r.0.wf(),
        r.1.wf(),
{
    if less_than(down_move, up_move) && less_than(Dec::zero(), up_move) {
        (up_move, Dec::zero())
    } else if less_than(up_move, down_move) && less_than(Dec::zero(), down_move) {
        (Dec::zero(), down_move)
    } else {
        (Dec::zero(), Dec::zero())
    }
}

/// The range that normalises the directional indicators: the average true
/// range, and one in its place while it is pending or zero.
pub fn normaliser(atr_opt: Option<Dec>) -> (r: Dec)
    requires
        atr_opt matches Some(atr) ==> atr.wf(),
    ensures
        r == normaliser_of(atr_opt),
        r.wf(),
        r.mantissa != 0,
{
    match atr_opt {
        Some(atr) => if atr.is_zero() {
            Dec::one()
        } else {
            atr
        },
        None => Dec::one(),
    }
}

/// `(value / atr) * 100` of a smoothed movement, pending while it is.
pub fn directional_indicator(smoothed: Option<Dec>, atr: Dec) -> (r: Option<Option<Dec>>)
    requires
        smoothed matches Some(value) ==> value.wf(),
        atr.wf(),
    ensures
        r == directional_indicator_of(smoothed, atr),
        r matches Some(Some(indicator)) ==> indicator.wf(),
{
    match smoothed {
        None => Some(None),
        Some(value) => match checked_quotient(value, atr) {
            None => None,
            Some(ratio) => match checked_product(ratio, Dec::hundred()) {
                None => None,
                Some(indicator) => Some(Some(indicator)),
            },
        },
    }
}

/// `|(+DI - -DI) / (+DI + -DI)|`, pending unless both are available and
/// their sum is not zero.
pub fn directional_index(di_plus_opt: Option<Dec>, di_minus_opt: Option<Dec>) -> (r: Option<
    Option<Dec>,
>)
    requires
        di_plus_opt matches Some(value) ==> value.wf(),
        di_minus_opt matches Some(value) ==> value.wf(),
    ensures
        r == directional_index_of(di_plus_opt, di_minus_opt),
        r matches Some(Some(dx)) ==> dx.wf(),
{
    match (di_plus_opt, di_minus_opt) {
        (Some(di_plus), Some(di_minus)) => match checked_difference(di_plus, di_minus) {
            None => None,
            Some(spread) => match checked_sum(di_plus, di_minus) {
                None => None,
                Some(total) => if total.is_zero() {
                    Some(None)
                } else {
                    match checked_quotient(spread, total) {
                        None => None,
                        Some(ratio) => Some(Some(ratio.abs())),
                    }
                },
            },
        },
        _ => Some(None),
    }
}

/// A smoothed value times one hundred, pending while it is.
pub fn percent(smoothed: Option<Dec>) -> (r: Option<Option<Dec>>)
    requires
        smoothed matches Some(value) ==> value.wf(),
    ensures
        r == percent_of(smoothed),
        r matches Some(Some(value)) ==> value.wf(),
{
    match smoothed {
        None => Some(None),
        Some(value) => match checked_product(value, Dec::hundred()) {
            None => None,
            Some(scaled) => Some(Some(scaled)),
        },
    }
}

/// Feeds one bar to the three rolling averages of a directional movement
/// index and returns the record for it.
///
/// `atr_opt` is the average true range of the same bar; while it is pending
/// or zero the indicators are normalised by one instead. `prev_low` and `prev_high`
/// are those of the bar before. With `is_new` the bar is the first: nothing
/// is fed and everything is pending.
pub fn get_adx_indicator(
    data_item: &Bar,
    atr_opt: Option<Dec>,
    prev_low: &Dec,
    prev_high: &Dec,
    ema_di_plus: &mut RollingMovingAverage,
    ema_di_minus: &mut RollingMovingAverage,
    ema_di_adx: &mut RollingMovingAverage,
    is_new: bool,
) -> (r: ADX)
    requires
        data_item.wf(),
        atr_opt matches Some(atr) ==> atr.wf(),
        prev_low.wf(),
        prev_high.wf(),
        old(ema_di_plus).wf(),
        old(ema_di_minus).wf(),
        old(ema_di_adx).wf(),
        adx_indicator_of(
            *data_item,
            atr_opt,
            *prev_low,
            *prev_high,
            old(ema_di_plus)@,
            old(ema_di_minus)@,
            old(ema_di_adx)@,
            is_new,
        ) is Some,
    ensures
        final(ema_di_plus).wf(),
        final(ema_di_minus).wf(),
        final(ema_di_adx).wf(),
        r.wf(),
        (final(ema_di_plus)@, final(ema_di_minus)@, final(ema_di_adx)@, r) == adx_indicator_of(
            *data_item,
            atr_opt,
            *prev_low,
            *prev_high,
            old(ema_di_plus)@,
            old(ema_di_minus)@,
            old(ema_di_adx)@,
            is_new,
        ).unwrap(),
{
    if is_new {
        ADX::pending()
    } else {
        let (up_move, down_move) = moves(data_item, prev_high, prev_low).unwrap();
        let (dm_plus, dm_minus) = directional_movement(up_move, down_move);
        let atr_output = normaliser(atr_opt);
        let di_plus_opt = directional_indicator(ema_di_plus.next(dm_plus), atr_output).unwrap();
        let di_minus_opt = directional_indicator(ema_di_minus.next(dm_minus), atr_output).unwrap();
        let adx_temp_opt = directional_index(di_plus_opt, di_minus_opt).unwrap();
        let adx_opt = match adx_temp_opt {
            Some(adx_temp) => percent(ema_di_adx.next(adx_temp)).unwrap(),
            None => None,
        };
        ADX { adx_opt, di_plus_opt, di_minus_opt }
    }
}

/// The record that `get_adx_indicator` would return, or `None` where the
/// decimal arithmetic has no result. The rolling averages stay as they are.
pub fn preview_adx_indicator(
    data_item: &Bar,
    atr_opt: Option<Dec>,
    prev_low: &Dec,
    prev_high: &Dec,
    ema_di_plus: &RollingMovingAverage,
    ema_di_minus: &RollingMovingAverage,
    ema_di_adx: &RollingMovingAverage,
    is_new: bool,
) -> (r: Option<ADX>)
    requires
        data_item.wf(),
        atr_opt matches Some(atr) ==> atr.wf(),
        prev_low.wf(),
        prev_high.wf(),
        ema_di_plus.wf(),
        ema_di_minus.wf(),
        ema_di_adx.wf(),
    ensures
        r == match adx_indicator_of(
            *data_item,
            atr_opt,
            *prev_low,
            *prev_high,
            ema_di_plus@,
            ema_di_minus@,
            ema_di_adx@,
            is_new,
        ) {
            Some((_, _, _, result)) => Some(result),
            None => None,
        },
        r matches Some(result) ==> result.wf(),
{
    if is_new {
        return Some(ADX::pending());
    }
    let (up_move, down_move) = match moves(data_item, prev_high, prev_low) {
        Some(pair) => pair,
        None => { return None; },
    };
    let (dm_plus, dm_minus) = directional_movement(up_move, down_move);
    let atr_output = normaliser(atr_opt);
    let smoothed_plus = match ema_di_plus.preview(dm_plus) {
        Some(value) => value,
        None => { return None; },
    };
    let di_plus_opt = match directional_indicator(smoothed_plus, atr_output) {
        Some(value) => value,
        None => { return None; },
    };
    let smoothed_minus = match ema_di_minus.preview(dm_minus) {
        Some(value) => value,
        None => { return None; },
    };
    let di_minus_opt = match directional_indicator(smoothed_minus, atr_output) {
        Some(value) => value,
        None => { return None; },
    };
    let adx_temp_opt = match directional_index(di_plus_opt, di_minus_opt) {
        Some(value) => value,
        None => { return None; },
    };
    let adx_opt = match adx_temp_opt {
        None => None,
        Some(adx_temp) => {
            let smoothed = match ema_di_adx.preview(adx_temp) {
                Some(value) => value,
                None => { return None; },
            };
            match percent(smoothed) {
                Some(value) => value,
                None => { return None; },
            }
        },
    };
    Some(ADX { adx_opt, di_plus_opt, di_minus_opt })
}

impl DirectionalMovementIndex {
    /// All parts are well formed.
    pub closed spec fn wf(&self) -> bool {
        &&& self.period > 0
        &&& self.dmi_plus.wf()
        &&& self.dmi_minus.wf()
        &&& self.adx.wf()
        &&& self.atr.wf()
        &&& self.current_di.wf()
        &&& self.dmi_plus@.period == self.period
        &&& self.dmi_minus@.period == self.period
        &&& self.adx@.period == self.period
        &&& self.atr@.rma.period == self.period
    }

    /// A well-formed index has a well-formed state.
    pub proof fn lemma_view_wf(&self)
        requires
            self.wf(),
        ensures
            self@.wf(),
    {
        self.dmi_plus.lemma_view_wf();
        self.dmi_minus.lemma_view_wf();
        self.adx.lemma_view_wf();
        self.atr.lemma_view_wf();
    }

    /// A new index with smoothing period `period`, which must be positive.
    pub fn new(period: usize) -> (r: Result<Self, IndicatorError>)
        ensures
            period == 0 ==> r == Err::<Self, IndicatorError>(IndicatorError::InvalidParameter),
            period > 0 ==> r is Ok,
            r matches Ok(dmi) ==> dmi.wf() && dmi@ == DmiState::fresh(period as nat),
    {
        if period == 0 {
            return Err(IndicatorError::InvalidParameter);
        }
        let dmi_plus = RollingMovingAverage::new(period).unwrap();
        let dmi_minus = RollingMovingAverage::new(period).unwrap();
        let adx = RollingMovingAverage::new(period).unwrap();
        let atr = AverageTrueRange::new(period).unwrap();
        Ok(
            DirectionalMovementIndex {
                period,
                dmi_plus,
                dmi_minus,
                adx,
                atr,
                current_di: Bar::zero(),
                is_new: true,
            },
        )
    }

    /// The configured smoothing period.
    pub fn period(&self) -> (r: usize)
        requires
            self.wf(),
        ensures
            r == self@.period,
            r > 0,
    {
        self.period
    }

    /// Feeds one bar and returns the record for it.
    pub fn next(&mut self, di: &Bar) -> (r: ADX)
        requires
            old(self).wf(),
            di.wf(),
            old(self)@.step(*di) is Some,
        ensures
            final(self).wf(),
            r.wf(),
            (final(self)@, r) == old(self)@.step(*di).unwrap(),
    {
        let atr_opt = self.atr.next(di);
        let prev_low = self.current_di.low;
        let prev_high = self.current_di.high;
        let adx = get_adx_indicator(
            di,
            atr_opt,
            &prev_low,
            &prev_high,
            &mut self.dmi_plus,
            &mut self.dmi_minus,
            &mut self.adx,
            self.is_new,
        );
        if self.is_new {
            self.is_new = false;
        }
        self.current_di = *di;
        adx
    }

    /// The record that `next` would return for `di`, or `None` where the
    /// decimal arithmetic has no result. The index stays as it is.
    pub fn preview(&self, di: &Bar) -> (r: Option<ADX>)
        requires
            self.wf(),
            di.wf(),
        ensures
            r == self@.output(*di),
            r matches Some(result) ==> result.wf(),
    {
        match self.atr.preview(di) {
            None => None,
            Some(atr_opt) => preview_adx_indicator(
                di,
                atr_opt,
                &self.current_di.low,
                &self.current_di.high,
                &self.dmi_plus,
                &self.dmi_minus,
                &self.adx,
                self.is_new,
            ),
        }
    }

    /// Feeds one bar if the decimal arithmetic has a result for it, and
    /// leaves the index untouched otherwise.
    pub fn try_next(&mut self, di: &Bar) -> (r: Option<ADX>)
        requires
            old(self).wf(),
            di.wf(),
        ensures
            final(self).wf(),
            match old(self)@.step(*di) {
                Some((next, result)) => final(self)@ == next && r == Some(result),
                None => *final(self) == *old(self) && r is None,
            },
            r matches Some(result) ==> result.wf(),
    {
        if self.preview(di).is_some() {
            Some(self.next(di))
        } else {
            None
        }
    }

    /// Back to the state right after construction: the average true range
    /// and the three rolling averages are reset, the previous bar is
    /// forgotten and the next bar is the first again.
    pub fn reset(&mut self)
        requires
            old(self).wf(),
        ensures
            final(self).wf(),
            final(self)@ == old(self)@.after_reset(),
    {
        self.adx.reset();
        self.dmi_plus.reset();
        self.dmi_minus.reset();
        self.atr.reset();
        self.current_di = Bar::zero();
        self.is_new = true;
    }

    /// The name of the indicator with its period.
    pub fn label(&self) -> (r: String)
        requires
            self.wf(),
        ensures
            r@ == label_text("RMA"@, self@.period),
    {
        indicator_label("RMA", self.period)
    }
}

impl Default for DirectionalMovementIndex {
    /// An index with smoothing period 14.
    fn default() -> (r: Self)
        ensures
            r.wf(),
            r@ == DmiState::fresh(14),
    {
        DirectionalMovementIndex::new(14).unwrap()
    }
}

/// The first bar fed to a new index returns everything pending, whatever the
/// bar holds; and it has a result exactly when the bar's range `high - low`
/// has one.
pub proof fn lemma_first_bar_is_pending(period: nat, bar: Bar)
    requires
        period > 0,
    ensures
        DmiState::fresh(period).step(bar) is Some <==> difference_of(bar.high, bar.low) is Some,
        DmiState::fresh(period).output(bar) matches Some(result) ==> result
            == ADX::pending_value(),
{
}

/// While a bar is the first, nothing but the average true range moves: the
/// three rolling averages are as before and the record is pending.
pub proof fn lemma_first_observation(s: DmiState, bar: Bar)
    requires
        s.is_new,
    ensures
        s.step(bar) matches Some((next, result)) ==> {
            &&& result == ADX::pending_value()
            &&& next.dmi_plus == s.dmi_plus
            &&& next.dmi_minus == s.dmi_minus
            &&& next.adx == s.adx
            &&& next.previous == bar
            &&& !next.is_new
        },
{
}

/// Nothing is ever divided by zero: the indicators are divided by a
/// normaliser that is not zero, and the index is pending where the sum of the
/// indicators is zero. Where the movement is zero its indicator is exactly
/// zero, so a bar without movement in either direction gives two indicators
/// of zero and a pending index.
pub proof fn lemma_no_division_by_zero(atr_opt: Option<Dec>, value: Dec)
    ensures
        normaliser_of(atr_opt).mantissa != 0,
        normaliser_of(Some(Dec::zero_value())) == Dec::one_value(),
        value.mantissa == 0 ==> directional_indicator_of(Some(value), normaliser_of(atr_opt))
            == Some(Some(Dec::zero_value())),
        directional_index_of(Some(Dec::zero_value()), Some(Dec::zero_value())) == Some(
            None::<Dec>,
        ),
{
}

/// After the first bar each field runs on a clock of its own: a directional
/// indicator is available exactly when its rolling average has seen `period`
/// movements, and the ADX only when both indicators are, their sum is not
/// zero and its own rolling average has seen `period` indices.
pub proof fn lemma_warm_up_clocks(s: DmiState, bar: Bar)
    requires
        s.wf(),
        !s.is_new,
        s.step(bar) is Some,
    ensures
        ({
            let (after, result) = s.step(bar).unwrap();
            &&& result.di_plus_opt is Some <==> s.dmi_plus.count + 1 >= s.period
            &&& result.di_minus_opt is Some <==> s.dmi_minus.count + 1 >= s.period
            &&& result.adx_opt is Some <==> {
                &&& result.di_plus_opt matches Some(di_plus)
                &&& result.di_minus_opt matches Some(di_minus)
                &&& sum_of(di_plus, di_minus) matches Some(total)
                &&& total.mantissa != 0
                &&& s.adx.count + 1 >= s.period
            }
        }),
{
    let atr_opt = s.atr.step(bar).unwrap().1;
    let (up_move, down_move) = moves_of(bar, s.previous.high, s.previous.low).unwrap();
    let (dm_plus, dm_minus) = directional_movement_of(up_move, down_move);
    lemma_pending_exactly_during_warm_up(s.dmi_plus, dm_plus);
    lemma_pending_exactly_during_warm_up(s.dmi_minus, dm_minus);
    let (_, _, di_plus_opt, di_minus_opt) = directional_indicators_of(
        dm_plus,
        dm_minus,
        normaliser_of(atr_opt),
        s.dmi_plus,
        s.dmi_minus,
    ).unwrap();
    match directional_index_of(di_plus_opt, di_minus_opt).unwrap() {
        Some(dx) => {
            lemma_pending_exactly_during_warm_up(s.adx, dx);
        },
        None => {},
    }
}

/// Whatever an index has seen, after `reset` it answers the next bar as a
/// newly built index of the same period does.
pub proof fn lemma_reset_replays(s: DmiState, bar: Bar)
    ensures
        s.after_reset().step(bar) == DmiState::fresh(s.period).step(bar),
{
}

} // verus!
