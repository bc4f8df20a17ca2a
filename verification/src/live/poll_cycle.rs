//! Decisions of one live poll cycle (the loop itself, with its broker and
//! network calls, runs around them).

use vstd::prelude::*;
use super::reconcile::ReconcileAction;
use crate::types::OhlcBar;

verus! {

/// Seconds of broker disconnection after which the process restarts.
pub const DISCONNECT_RESTART_SECS: u64 = 60;

/// `a - b`, or 0 when `b` is larger.
pub open spec fn sat_sub(a: u64, b: u64) -> int {
    if a >= b { a - b } else { 0 }
}

/// Entry decisions need fresh data: the newest bar and the last GEX poll both
/// younger than the freshness timeout.
pub fn is_data_fresh(now_ms: u64, newest_bar_ms: u64, gex_last_ms: u64, timeout_ms: u64) -> (r: bool)
    ensures
        r == (sat_sub(now_ms, newest_bar_ms) < timeout_ms && sat_sub(now_ms, gex_last_ms) < timeout_ms),
{
    now_ms.saturating_sub(newest_bar_ms) < timeout_ms && now_ms.saturating_sub(gex_last_ms) < timeout_ms
}

/// The broker's position list is suspect when it is empty while positions are
/// held locally; orphaned orders are then left alone.
pub fn positions_fetch_suspect(local_positions: usize, broker_positions: usize) -> (r: bool)
    ensures
        r == (local_positions > 0 && broker_positions == 0),
{
    local_positions > 0 && broker_positions == 0
}

/// Whether a reconciliation found stale extra stops (the bracket is then
/// placed afresh).
pub fn has_extra_stops(action: &ReconcileAction) -> (r: bool)
    ensures
        r == match *action {
            ReconcileAction::AdoptPosition { extra_stop_ids, .. } => extra_stop_ids@.len() > 0,
            ReconcileAction::BracketStale { extra_stop_ids, .. } => extra_stop_ids@.len() > 0,
            _ => false,
        },
{
    match action {
        ReconcileAction::AdoptPosition { extra_stop_ids, .. } => extra_stop_ids.len() > 0,
        ReconcileAction::BracketStale { extra_stop_ids, .. } => extra_stop_ids.len() > 0,
        _ => false,
    }
}

/// Restart once the broker has been disconnected long enough.
pub fn should_restart_after_disconnect(down_secs: u64) -> (r: bool)
    ensures
        r == (down_secs >= DISCONNECT_RESTART_SECS),
{
    down_secs >= DISCONNECT_RESTART_SECS
}

/// What to do about a held position's protective bracket.
#[derive(Debug, Clone, Copy, PartialEq, Eq)]
pub enum BracketRecovery {
    /// Nothing to do: no position, or its bracket is in place.
    Keep,
    /// Place the bracket again at the saved stop and target.
    Replace,
    /// No usable stop and target: close the position.
    EmergencyClose,
}

/// Decide how to protect a position after reconciliation: a held position
/// without bracket ids is re-protected when its saved stop-loss and
/// take-profit (cents) are both positive, and closed otherwise.
pub fn bracket_recovery(has_position: bool, has_bracket: bool, stop_loss: i64, take_profit: i64) -> (r: BracketRecovery)
    ensures
        !has_position || has_bracket ==> r == BracketRecovery::Keep,
        has_position && !has_bracket && stop_loss > 0 && take_profit > 0 ==> r == BracketRecovery::Replace,
        has_position && !has_bracket && !(stop_loss > 0 && take_profit > 0) ==> r == BracketRecovery::EmergencyClose,
{
    if !has_position || has_bracket {
        BracketRecovery::Keep
    } else if stop_loss > 0 && take_profit > 0 {
        BracketRecovery::Replace
    } else {
        BracketRecovery::EmergencyClose
    }
}

/// The first `n` bars whose start (in milliseconds) is after `last_ms`.
pub open spec fn bars_after(bars: Seq<OhlcBar>, last_ms: i64, n: int) -> Seq<OhlcBar>
    decreases n,
{
    if n <= 0 {
        Seq::empty()
    } else if bars[n - 1].timestamp * 1000 > last_ms {
        bars_after(bars, last_ms, n - 1).push(bars[n - 1])
    } else {
        bars_after(bars, last_ms, n - 1)
    }
}

/// The bars not processed yet: those starting after `last_processed_ms`.
pub fn new_bars(bars: &[OhlcBar], last_processed_ms: i64) -> (r: Vec<OhlcBar>)
    ensures
        r@ == bars_after(bars@, last_processed_ms, bars@.len() as int),
{
    let mut out: Vec<OhlcBar> = Vec::new();
    let mut i: usize = 0;
    while i < bars.len()
        invariant
            i <= bars@.len(),
            out@ == bars_after(bars@, last_processed_ms, i as int),
        decreases bars.len() - i,
    {
        let b = bars[i];
        if (b.timestamp as i128) * 1000 > (last_processed_ms as i128) {
            out.push(b);
        }
        i = i + 1;
    }
    out
}

} // verus!
