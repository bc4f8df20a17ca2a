//! ThetaData client rules: option sides, and which failed requests are
//! retried and after how long.

use vstd::prelude::*;
use crate::text::{contains, seq_contains, str_eq};

verus! {

/// One row of the expirations listing.
#[derive(Debug)]
pub struct ExpirationRow {
    pub symbol: String,
    pub expiration: String,
}

/// ASCII lower case of a character; any other character unchanged.
pub open spec fn ascii_lower(c: char) -> char {
    if 'A' <= c && c <= 'Z' {
        ((c as u32) + 32) as char
    } else {
        c
    }
}

/// Equal up to ASCII case.
pub open spec fn eq_ignore_ascii_case(a: Seq<char>, b: Seq<char>) -> bool {
    a.len() == b.len() && forall|i: int| 0 <= i < a.len() ==> ascii_lower(#[trigger] a[i]) == ascii_lower(b[i])
}

fn ascii_lower_exec(c: char) -> (r: char)
    ensures
        r == ascii_lower(c),
{
    if 'A' <= c && c <= 'Z' {
        ((c as u8) + 32) as char
    } else {
        c
    }
}

/// Whether `a` equals `b` up to ASCII case.
fn equals_ignoring_ascii_case(a: &str, b: &str) -> (r: bool)
    ensures
        r == eq_ignore_ascii_case(a@, b@),
{
    let n = a.unicode_len();
    if n != b.unicode_len() {
        return false;
    }
    let mut i: usize = 0;
    while i < n
        invariant
            n == a@.len(),
            n == b@.len(),
            i <= n,
            forall|j: int| 0 <= j < i ==> ascii_lower(#[trigger] a@[j]) == ascii_lower(b@[j]),
        decreases n - i,
    {
        if ascii_lower_exec(a.get_char(i)) != ascii_lower_exec(b.get_char(i)) {
            return false;
        }
        i = i + 1;
    }
    true
}

/// A call option: the side reads `call` in any ASCII case, or exactly `C`.
pub open spec fn is_call_side(right: Seq<char>) -> bool {
    eq_ignore_ascii_case(right, "call"@) || right == "C"@
}

/// Whether an option side names a call.
pub fn right_is_call(right: &str) -> (r: bool)
    ensures
        r == is_call_side(right@),
{
    equals_ignoring_ascii_case(right, "call") || str_eq(right, "C")
}

/// A failure of the connection itself.
pub open spec fn connection_error(msg: Seq<char>) -> bool {
    seq_contains(msg, "Connection refused"@) || seq_contains(msg, "Connection reset"@)
        || seq_contains(msg, "connection reset"@) || seq_contains(msg, "Broken pipe"@)
        || seq_contains(msg, "timed out"@)
}

/// A failure worth retrying: rate limiting, a server error, or a connection
/// failure.
pub open spec fn retryable(msg: Seq<char>) -> bool {
    seq_contains(msg, "429"@) || seq_contains(msg, "Too Many"@) || seq_contains(msg, "500"@)
        || seq_contains(msg, "Internal Server Error"@) || seq_contains(msg, "502"@)
        || seq_contains(msg, "503"@) || seq_contains(msg, "504"@) || connection_error(msg)
}

/// Rate limiting.
pub open spec fn rate_limited(msg: Seq<char>) -> bool {
    seq_contains(msg, "429"@) || seq_contains(msg, "Too Many"@)
}

/// Whether an error message reports a connection failure.
pub fn is_connection_error(msg: &str) -> (r: bool)
    ensures
        r == connection_error(msg@),
{
    contains(msg, "Connection refused") || contains(msg, "Connection reset") || contains(
        msg,
        "connection reset",
    ) || contains(msg, "Broken pipe") || contains(msg, "timed out")
}

/// Whether an error message is worth a retry.
pub fn is_retryable(msg: &str) -> (r: bool)
    ensures
        r == retryable(msg@),
{
    contains(msg, "429") || contains(msg, "Too Many") || contains(msg, "500") || contains(
        msg,
        "Internal Server Error",
    ) || contains(msg, "502") || contains(msg, "503") || contains(msg, "504")
        || is_connection_error(msg)
}

/// Whether a failed download means the day simply has no data (status 472).
pub fn is_no_data_error(msg: &str) -> (r: bool)
    ensures
        r == (seq_contains(msg@, "472"@) || seq_contains(msg@, "No data found"@)),
{
    contains(msg, "472") || contains(msg, "No data found")
}

/// Attempts of one request before giving up.
pub const GREEKS_MAX_RETRIES: u32 = 6;

/// What follows a failed request.
#[derive(Debug, Clone, Copy, PartialEq, Eq)]
pub enum RetryStep {
    /// Return the error now.
    Fail,
    /// Wait this many seconds, then try again.
    RetryAfterSecs(u64),
}

/// Seconds to wait after failed attempt `attempt` (0-based): 15·2^k when rate
/// limited and 5·2^k after a connection failure, with `k` the attempt capped
/// at 3; otherwise 2^attempt.
pub open spec fn retry_delay_secs(attempt: nat, msg: Seq<char>) -> int {
    let k: nat = if attempt < 3 { attempt } else { 3 };
    if rate_limited(msg) {
        (15 * vstd::arithmetic::power2::pow2(k)) as int
    } else if connection_error(msg) {
        (5 * vstd::arithmetic::power2::pow2(k)) as int
    } else {
        vstd::arithmetic::power2::pow2(attempt) as int
    }
}

/// Decide what follows failed attempt `attempt` (0-based, below
/// [`GREEKS_MAX_RETRIES`]) with error text `msg`: a first failure that is not
/// worth retrying is returned at once; anything else is retried after the
/// backoff delay.
pub fn retry_step(attempt: u32, msg: &str) -> (r: RetryStep)
    requires
        attempt < GREEKS_MAX_RETRIES,
    ensures
        (!retryable(msg@) && attempt == 0) ==> r == RetryStep::Fail,
        !(!retryable(msg@) && attempt == 0) ==> r == RetryStep::RetryAfterSecs(
            retry_delay_secs(attempt as nat, msg@) as u64,
        ),
{
    if !is_retryable(msg) && attempt == 0 {
        return RetryStep::Fail;
    }
    proof {
        vstd::arithmetic::power2::lemma2_to64();
    }
    let k: u64 = if attempt < 3 { attempt as u64 } else { 3 };
    let p: u64 = if k == 0 { 1 } else if k == 1 { 2 } else if k == 2 { 4 } else { 8 };
    let delay = if contains(msg, "429") || contains(msg, "Too Many") {
        15 * p
    } else if is_connection_error(msg) {
        5 * p
    } else if attempt == 0 {
        1
    } else if attempt == 1 {
        2
    } else if attempt == 2 {
        4
    } else if attempt == 3 {
        8
    } else if attempt == 4 {
        16
    } else {
        32
    };
    RetryStep::RetryAfterSecs(delay)
}

/// What the retry loop of a request does after one attempt.
#[derive(Debug, Clone, Copy, PartialEq, Eq)]
pub enum RetryAction {
    /// The attempt succeeded: return its value.
    Succeed,
    /// Return this attempt's error now.
    FailNow,
    /// Wait `secs` seconds, then make attempt `attempt` (0-based).
    RetryAfter { attempt: u32, secs: u64 },
    /// Wait `secs` seconds, then return this attempt's error: it was the last.
    GiveUpAfter { secs: u64 },
}

/// The loop's response to attempt `attempt` (0-based) ending with `error`
/// (`None` on success).
pub open spec fn theta_retry_spec(attempt: u32, error: Option<Seq<char>>) -> RetryAction {
    match error {
        None => RetryAction::Succeed,
        Some(msg) => if !retryable(msg) && attempt == 0 {
            RetryAction::FailNow
        } else if attempt + 1 < GREEKS_MAX_RETRIES {
            RetryAction::RetryAfter {
                attempt: (attempt + 1) as u32,
                secs: retry_delay_secs(attempt as nat, msg) as u64,
            }
        } else {
            RetryAction::GiveUpAfter { secs: retry_delay_secs(attempt as nat, msg) as u64 }
        },
    }
}

/// One step of a request's retry loop: attempt `attempt` (0-based, below
/// [`GREEKS_MAX_RETRIES`]) ended with `error` (`None` on success).
pub fn theta_retry_step(attempt: u32, error: Option<&str>) -> (r: RetryAction)
    requires
        attempt < GREEKS_MAX_RETRIES,
    ensures
        r == theta_retry_spec(
            attempt,
            match error {
                Some(m) => Some(m@),
                None => None,
            },
        ),
{
    match error {
        None => RetryAction::Succeed,
        Some(msg) => match retry_step(attempt, msg) {
            RetryStep::Fail => RetryAction::FailNow,
            RetryStep::RetryAfterSecs(secs) => {
                if attempt + 1 < GREEKS_MAX_RETRIES {
                    RetryAction::RetryAfter { attempt: attempt + 1, secs }
                } else {
                    RetryAction::GiveUpAfter { secs }
                }
            },
        },
    }
}

/// A request is attempted at most [`GREEKS_MAX_RETRIES`] times: a retry
/// always moves to the next attempt and only while one is left, and the loop
/// otherwise ends, returning the error of the attempt that just failed.
pub proof fn law_retry_attempts_bounded(attempt: u32, msg: Seq<char>)
    requires
        attempt < GREEKS_MAX_RETRIES,
    ensures
        theta_retry_spec(attempt, Some(msg)) matches RetryAction::RetryAfter { attempt: a, .. } ==> a == attempt
            + 1 && a < GREEKS_MAX_RETRIES,
        attempt + 1 == GREEKS_MAX_RETRIES ==> theta_retry_spec(attempt, Some(msg)) is GiveUpAfter
            || theta_retry_spec(attempt, Some(msg)) is FailNow,
        !(theta_retry_spec(attempt, Some(msg)) is Succeed),
{
}

} // verus!
