//! The retry rule of reading the account's equity from the broker: up to
//! three attempts, three seconds apart.

use vstd::prelude::*;

verus! {

/// Attempts at reading the account's equity.
pub const EQUITY_ATTEMPTS: u32 = 3;
/// Seconds waited after a failed attempt.
pub const EQUITY_RETRY_SECS: u64 = 3;
/// Seconds allowed for listing the accounts and for subscribing.
pub const EQUITY_REQUEST_TIMEOUT_SECS: u64 = 10;
/// Seconds allowed for reading the subscribed values.
pub const EQUITY_READ_TIMEOUT_SECS: u64 = 15;

/// What follows one attempt at reading the equity.
#[derive(Debug, Clone, Copy, PartialEq, Eq)]
pub enum EquityStep {
    /// Values were read: return them.
    Done,
    /// Wait `secs` seconds, then make attempt `attempt` (1-based).
    RetryAfter { attempt: u32, secs: u64 },
    /// Wait `secs` seconds, then report that no equity could be read.
    GiveUpAfter { secs: u64 },
}

/// The response to attempt `attempt` (1-based): done when it read a net
/// liquidation value or an available USD balance, otherwise a retry after
/// three seconds while attempts are left, and after the third a give-up
/// (also after three seconds).
pub open spec fn equity_step_spec(attempt: u32, got_values: bool) -> EquityStep {
    if got_values {
        EquityStep::Done
    } else if attempt < EQUITY_ATTEMPTS {
        EquityStep::RetryAfter { attempt: (attempt + 1) as u32, secs: EQUITY_RETRY_SECS }
    } else {
        EquityStep::GiveUpAfter { secs: EQUITY_RETRY_SECS }
    }
}

/// Decide what follows attempt `attempt` (1-based, at most
/// [`EQUITY_ATTEMPTS`]); `got_values` when it read any equity value (an empty
/// account list, a failed or timed-out request, or a read without values
/// counts as none).
pub fn equity_retry_step(attempt: u32, got_values: bool) -> (r: EquityStep)
    requires
        1 <= attempt <= EQUITY_ATTEMPTS,
    ensures
        r == equity_step_spec(attempt, got_values),
{
    if got_values {
        EquityStep::Done
    } else if attempt < EQUITY_ATTEMPTS {
        EquityStep::RetryAfter { attempt: attempt + 1, secs: EQUITY_RETRY_SECS }
    } else {
        EquityStep::GiveUpAfter { secs: EQUITY_RETRY_SECS }
    }
}

/// Reading the equity takes at most three attempts: a retry always moves to
/// the next attempt and only while one is left.
pub proof fn law_equity_attempts_bounded(attempt: u32, got_values: bool)
    requires
        1 <= attempt <= EQUITY_ATTEMPTS,
    ensures
        equity_step_spec(attempt, got_values) matches EquityStep::RetryAfter { attempt: a, .. } ==> a == attempt
            + 1 && a <= EQUITY_ATTEMPTS,
        attempt == EQUITY_ATTEMPTS && !got_values ==> equity_step_spec(attempt, got_values) is GiveUpAfter,
{
}

} // verus!
