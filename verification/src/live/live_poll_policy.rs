//! Live polling and failure backoff policy.

use vstd::prelude::*;
use vstd::arithmetic::power2::pow2;

verus! {

/// Live polling / backoff policy (constants and derived delays).
pub struct LivePollPolicy;


/// Backoff after `n` consecutive failures: the poll interval scaled by
/// `2^(e)` with `e` the failure count, read as a signed 32-bit integer, less
/// one; truncated to whole milliseconds and capped at [`LivePollPolicy::MAX_BACKOFF_MS`].
/// (`e` is negative at zero failures and for counts past `i32::MAX`.)
pub open spec fn backoff_spec(n: u32) -> u64 {
    let e: int = if n <= i32::MAX { n - 1 } else { n - 0x1_0000_0000 - 1 };
    if e >= 0 {
        if e >= 3 {
            LivePollPolicy::MAX_BACKOFF_MS
        } else {
            (LivePollPolicy::POLL_INTERVAL_MS * pow2(e as nat)) as u64
        }
    } else if -e >= 64 {
        0
    } else {
        (LivePollPolicy::POLL_INTERVAL_MS as nat / pow2((-e) as nat)) as u64
    }
}

impl LivePollPolicy {
    /// Milliseconds between live polls.
    pub const POLL_INTERVAL_MS: u64 = 60_000;
    /// Milliseconds a single fetch may take.
    pub const FETCH_TIMEOUT_MS: u64 = 30_000;
    /// Consecutive failures after which an open position is closed.
    pub const MAX_CONSECUTIVE_FAILURES: u32 = 5;
    /// Longest backoff, five minutes.
    pub const MAX_BACKOFF_MS: u64 = 300_000;
    /// Delay before the next poll after `consecutive_failures` failures in a
    /// row: the poll interval doubled per failure past the first, capped at
    /// five minutes. (A count of exactly `2^31` overflows the exponent.)
    pub fn backoff_ms(consecutive_failures: u32) -> (r: u64)
        requires
            consecutive_failures != 0x8000_0000,
        ensures
            r == backoff_spec(consecutive_failures),
            r <= LivePollPolicy::MAX_BACKOFF_MS,
    {
        let n = consecutive_failures;
        if n >= 1 && n <= 0x7fff_ffff {
            if n >= 4 {
                return LivePollPolicy::MAX_BACKOFF_MS;
            }
            proof {
                vstd::arithmetic::power2::lemma2_to64();
            }
            if n == 1 {
                LivePollPolicy::POLL_INTERVAL_MS
            } else if n == 2 {
                LivePollPolicy::POLL_INTERVAL_MS * 2
            } else {
                LivePollPolicy::POLL_INTERVAL_MS * 4
            }
        } else {
            let k: u64 = if n == 0 { 1 } else { 0x1_0000_0001u64 - (n as u64) };
            if k >= 64 {
                0
            } else {
                proof {
                    vstd::bits::lemma_u64_shr_is_div(LivePollPolicy::POLL_INTERVAL_MS, k);
                    vstd::arithmetic::power2::lemma_pow2_pos(k as nat);
                }
                LivePollPolicy::POLL_INTERVAL_MS >> k
            }
        }
    }

    /// Close the position once the failure streak reaches the limit while
    /// holding one.
    pub fn should_emergency_close(consecutive_failures: u32, has_position: bool) -> (r: bool)
        ensures
            r == (consecutive_failures >= LivePollPolicy::MAX_CONSECUTIVE_FAILURES && has_position),
    {
        consecutive_failures >= LivePollPolicy::MAX_CONSECUTIVE_FAILURES && has_position
    }
}

/// Each further failure doubles the backoff until it reaches the cap, where
/// it stays (for failure counts from 1 up to `i32::MAX`).
pub proof fn law_backoff_doubles_then_caps(n: u32)
    requires
        1 <= n < i32::MAX,
    ensures
        backoff_spec((n + 1) as u32) == if 2 * backoff_spec(n) <= LivePollPolicy::MAX_BACKOFF_MS {
            2 * backoff_spec(n)
        } else {
            LivePollPolicy::MAX_BACKOFF_MS as int
        },
{
    vstd::arithmetic::power2::lemma2_to64();
}

} // verus!
