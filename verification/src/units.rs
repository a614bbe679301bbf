//! Fixed-point conventions shared by the whole crate.
//!
//! | quantity                  | stored as                         |
//! |---------------------------|-----------------------------------|
//! | latitude, longitude       | millionths of a degree            |
//! | altitude                  | thousandths of a foot             |
//! | speed, heading, rates     | thousandths of their unit         |
//! | distance on the ground    | metres (thousandths of a km)      |
//! | screen lengths            | thousandths of a pixel            |
//! | zoom factor               | thousandths (`1000` is 1:1)       |
//! | sine and cosine           | millionths                        |
//! | time                      | whole seconds since the Unix epoch|

use vstd::prelude::*;

verus! {

/// The mathematical clamp of `value` into `[low, high]`.
pub open spec fn spec_clamp(value: int, low: int, high: int) -> int {
    if value < low {
        low
    } else if value > high {
        high
    } else {
        value
    }
}

} // verus!
