//! The one way in which building an indicator can fail.

use vstd::prelude::*;

verus! {

/// Why an indicator could not be built.
#[derive(Clone, Copy, Debug, PartialEq, Eq, Structural)]
pub enum IndicatorError {
    /// A size parameter that must be positive was zero.
    InvalidParameter,
}

impl IndicatorError {
    /// The message shown for the error.
    pub fn message(&self) -> (r: &'static str)
        ensures
            r@ == "invalid parameter"@,
    {
        "invalid parameter"
    }
}

} // verus!
