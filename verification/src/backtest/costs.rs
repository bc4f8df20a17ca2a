//! Trading cost units.

use vstd::prelude::*;

verus! {

/// One price tick, in cents (prices are kept in cents).
pub const TICK_SIZE_CENTS: u32 = 1;

} // verus!
