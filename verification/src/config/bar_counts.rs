//! Bar-stream indices: monotonic bar counter, spike bar references, spike-window limits.

use vstd::prelude::*;

verus! {

/// Position along the strategy bar stream (signal bar index, IV spike bar, IV scan).
pub type BarIndex = i64;

/// The IV lookback window as a [`BarIndex`], for spike-age checks.
pub const IV_LOOKBACK_BARS_INDEX: BarIndex = 50;

} // verus!
