//! Streaming technical-analysis indicators over fixed-point decimals.
//!
//! Every indicator consumes one sample per call and answers in constant time
//! from a bounded state: simple, exponential and rolling (Wilder) moving
//! averages, true range and its average, the directional movement index with
//! ADX, and a detector of pivot highs and lows.
//!
//! Numbers are [`decimal::Dec`] values, the mantissa and scale of a
//! `rust_decimal::Decimal`, and the arithmetic on them is that of
//! `rust_decimal`. It rounds and can overflow, so an indicator's contract is
//! stated over the results of that arithmetic:
//!
//! * each indicator has a state type (`SmaState`, `RmaState`, ...) that is
//!   its view, and a `step` on it that says what one sample does to the
//!   state and what is returned, or that the arithmetic has no result;
//! * `next` feeds a sample where `step` has a result, `preview` computes
//!   what `next` would return without feeding it, and `try_next` feeds the
//!   sample only if there is a result and says so otherwise;
//! * the laws that hold of `step` stand beside it as proof functions.

pub mod average_true_range;
pub mod bar;
pub mod decimal;
pub mod directional_movement_index;
pub mod ema;
pub mod errors;
pub mod label;
pub mod model;
pub mod pivot;
pub mod rolling_moving_average;
pub mod simple_moving_average;
pub mod true_range;

pub use pivot::pivot_points::{Pivot, PivotPoints, PivotType};
