//! The price bar that the bar-based indicators consume.

use crate::decimal::Dec;
use vstd::prelude::*;

verus! {

/// One open/high/low/close/volume snapshot.
///
/// The indicators read the fields and ask nothing of how they relate; a bar
/// is valid as soon as its five numbers are valid decimals.
#[derive(Clone, Copy, Debug, PartialEq, Eq, Structural)]
pub struct Bar {
    pub open: Dec,
    pub high: Dec,
    pub low: Dec,
    pub close: Dec,
    pub volume: Dec,
}

impl Bar {
    pub open spec fn wf(self) -> bool {
        &&& self.open.wf()
        &&& self.high.wf()
        &&& self.low.wf()
        &&& self.close.wf()
        &&& self.volume.wf()
    }

    /// The bar whose five numbers are zero.
    pub open spec fn zero_value() -> Bar {
        Bar {
            open: Dec::zero_value(),
            high: Dec::zero_value(),
            low: Dec::zero_value(),
            close: Dec::zero_value(),
            volume: Dec::zero_value(),
        }
    }

    /// The bar whose five numbers are `value`.
    pub open spec fn flat_value(value: Dec) -> Bar {
        Bar { open: value, high: value, low: value, close: value, volume: value }
    }

    /// A bar from its five numbers.
    pub fn new(open: Dec, high: Dec, low: Dec, close: Dec, volume: Dec) -> (r: Bar)
        ensures
            r == (Bar { open, high, low, close, volume }),
    {
        Bar { open, high, low, close, volume }
    }

    /// The bar whose five numbers are zero.
    pub fn zero() -> (r: Bar)
        ensures
            r == Bar::zero_value(),
            r.wf(),
    {
        Bar {
            open: Dec::zero(),
            high: Dec::zero(),
            low: Dec::zero(),
            close: Dec::zero(),
            volume: Dec::zero(),
        }
    }

    /// The bar whose five numbers are `value`: a single price seen as a bar.
    pub fn flat(value: Dec) -> (r: Bar)
        ensures
            r == Bar::flat_value(value),
            value.wf() ==> r.wf(),
    {
        Bar { open: value, high: value, low: value, close: value, volume: value }
    }
}

} // verus!
