//! The record that the directional movement index returns.

use crate::decimal::Dec;
use vstd::prelude::*;

verus! {

/// Average directional index with its two directional indicators. Each field
/// is `None` while pending, on a clock of its own.
#[derive(Debug, Clone, Copy, PartialEq, Eq, Structural)]
pub struct ADX {
    pub adx_opt: Option<Dec>,
    pub di_plus_opt: Option<Dec>,
    pub di_minus_opt: Option<Dec>,
}

impl ADX {
    /// The record with all three fields pending.
    pub open spec fn pending_value() -> ADX {
        ADX { adx_opt: None, di_plus_opt: None, di_minus_opt: None }
    }

    pub open spec fn wf(self) -> bool {
        &&& (self.adx_opt matches Some(v) ==> v.wf())
        &&& (self.di_plus_opt matches Some(v) ==> v.wf())
        &&& (self.di_minus_opt matches Some(v) ==> v.wf())
    }

    /// The record with all three fields pending.
    pub fn pending() -> (r: ADX)
        ensures
            r == ADX::pending_value(),
    {
        ADX { adx_opt: None, di_plus_opt: None, di_minus_opt: None }
    }
}

} // verus!
