//! Indices of notable losing trades in a backtest.

use vstd::prelude::*;

verus! {

/// Indices of losing trades: those that first ran up at least two ATRs
/// (largest run-up first) and all losers (worst loss first).
#[derive(Debug, Clone, Default)]
pub struct TradeAnalysis {
    pub high_runup_losers: Vec<usize>,
    pub worst_losses: Vec<usize>,
}

} // verus!
