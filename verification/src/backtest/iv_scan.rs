//! IV-scan outcome buckets.

use vstd::prelude::*;

verus! {

/// How a scanned trade turned out: best, middle (good run-up, bad exit) or
/// worst.
#[derive(Debug, Clone, Copy, PartialEq, Eq, Structural)]
pub enum ScanBucket {
    Best,
    Middle,
    Worst,
}

} // verus!
