//! Shared types: price bars, the trade signal kinds and the `YYYY-MM-DD`
//! date format.

use vstd::prelude::*;
use crate::backtest::state::HasTime;

verus! {

/// Date format used for every `YYYY-MM-DD` text in caches and results.
pub const DATE_FMT: &'static str = "%Y-%m-%d";

/// One OHLCV price bar. Prices are in price ticks (cents), the time is the
/// bar's start in Unix seconds.
#[derive(Debug, Clone, Copy, PartialEq, Eq, Structural)]
pub struct OhlcBar {
    pub timestamp: i64,
    pub open: i64,
    pub high: i64,
    pub low: i64,
    pub close: i64,
    pub volume: u64,
}

impl HasTime for OhlcBar {
    open spec fn time_of(&self) -> i64 {
        self.timestamp
    }

    fn time(&self) -> (t: i64) {
        self.timestamp
    }
}

/// What the strategy holds or enters.
#[derive(Debug, Clone, Copy, PartialEq, Eq, Hash, Structural)]
pub enum Signal {
    /// Long entry on an IV spike followed by vanna unwind.
    LongVannaFlip,
    /// Long entry on a calm bounce off the put wall.
    LongWallBounce,
    /// No position.
    Flat,
}

/// Short tag of each signal, used as chart-marker prefix.
pub open spec fn signal_short_name(s: Signal) -> Seq<char> {
    match s {
        Signal::LongVannaFlip => "VF"@,
        Signal::LongWallBounce => "WB"@,
        Signal::Flat => "FLAT"@,
    }
}

impl Signal {
    /// Short tag: `"VF"`, `"WB"` or `"FLAT"`.
    pub fn short_name(self) -> (r: &'static str)
        ensures
            r@ == signal_short_name(self),
    {
        match self {
            Signal::LongVannaFlip => "VF",
            Signal::LongWallBounce => "WB",
            Signal::Flat => "FLAT",
        }
    }

    /// Whether this is the no-position signal.
    pub fn is_flat(self) -> (r: bool)
        ensures
            r == (self == Signal::Flat),
    {
        match self {
            Signal::Flat => true,
            _ => false,
        }
    }
}

} // verus!
