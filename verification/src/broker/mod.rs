//! Broker bookkeeping: order records, order-id allocation and the connection
//! retry schedule.

use vstd::prelude::*;
use vstd::arithmetic::power2::pow2;
use crate::config::tickers::Ticker;

verus! {

/// A market order for whole shares.
#[derive(Debug, Clone)]
pub struct MarketOrder {
    pub ticker: Ticker,
    pub action: String,
    pub quantity: u32,
}

/// Order ids of a bracket: the parent entry and its stop-loss and
/// take-profit children.
#[derive(Debug, Clone, Copy, PartialEq, Eq)]
pub struct BracketOrderIds {
    pub parent_id: i32,
    pub stop_loss_id: i32,
    pub take_profit_id: i32,
}

/// The id after `v` (wrapping at `i32::MAX`).
pub open spec fn id_step(v: i32) -> i32 {
    if v == i32::MAX {
        i32::MIN
    } else {
        (v + 1) as i32
    }
}

/// The ids that `k` successive calls of `OrderIdGen::next` hand out when the
/// next id is `v`.
pub open spec fn ids_from(v: i32, k: nat) -> Seq<i32>
    decreases k,
{
    if k == 0 {
        Seq::empty()
    } else {
        seq![v] + ids_from(id_step(v), (k - 1) as nat)
    }
}

/// Order-id generator that bypasses the broker's own counter.
pub struct OrderIdGen {
    next_id: i32,
}

impl View for OrderIdGen {
    type V = i32;

    /// The id the next call hands out.
    closed spec fn view(&self) -> i32 {
        self.next_id
    }
}

impl OrderIdGen {
    /// A generator whose first id is `start`.
    pub fn new(start: i32) -> (r: Self)
        ensures
            r@ == start,
    {
        OrderIdGen { next_id: start }
    }

    /// Hand out the current id and advance by one (wrapping at `i32::MAX`).
    pub fn next(&mut self) -> (r: i32)
        ensures
            r == old(self)@,
            final(self)@ == id_step(old(self)@),
    {
        let r = self.next_id;
        self.next_id = if r == i32::MAX { i32::MIN } else { r + 1 };
        r
    }
}

/// `k` successive calls of `next` on a generator started at `s` hand out
/// `s, s+1, .., s+k-1` (so all distinct) while they stay within `i32`.
pub proof fn law_consecutive_ids(s: i32, k: nat)
    requires
        s + k - 1 <= i32::MAX,
    ensures
        ids_from(s, k) =~= Seq::new(k, |i: int| (s + i) as i32),
        ids_from(s, k).no_duplicates(),
    decreases k,
{
    if k > 0 {
        law_consecutive_ids(id_step(s), (k - 1) as nat);
        assert(ids_from(s, k) =~= Seq::new(k, |i: int| (s + i) as i32));
    }
}

/// Order-id floor from the clock: the last nine digits of the Unix time in
/// seconds, so ids stay ahead of those used before a gateway restart.
pub fn order_id_floor(unix_secs: u64) -> (r: i32)
    ensures
        r == unix_secs % 1_000_000_000,
{
    (unix_secs % 1_000_000_000) as i32
}

/// First order id after connecting: the server's next valid id or the clock
/// floor, whichever is larger.
pub fn start_order_id(server_next_id: i32, clock_floor: i32) -> (r: i32)
    ensures
        r == (if server_next_id >= clock_floor { server_next_id } else { clock_floor }),
{
    if server_next_id >= clock_floor { server_next_id } else { clock_floor }
}

/// Connection attempts before giving up.
pub const CONNECT_MAX_ATTEMPTS: u32 = 12;
/// Delay after the first failed attempt.
pub const CONNECT_BASE_DELAY_MS: u64 = 2_000;
/// Longest delay between attempts.
pub const CONNECT_MAX_DELAY_MS: u64 = 30_000;

/// What to do after a failed connection attempt.
#[derive(Debug, Clone, Copy, PartialEq, Eq)]
pub enum ConnectStep {
    /// Wait this many milliseconds, then try again.
    RetryAfterMs(u64),
    /// The last attempt failed: report the error.
    GiveUp,
}

/// Delay after failed attempt `attempt` (counted from 1): the base delay
/// doubled per earlier attempt, capped.
pub open spec fn connect_delay_ms(attempt: nat) -> int {
    let d = CONNECT_BASE_DELAY_MS * pow2((attempt - 1) as nat);
    if d <= CONNECT_MAX_DELAY_MS { d } else { CONNECT_MAX_DELAY_MS as int }
}

/// Decide what follows failed connection attempt `attempt` (1-based, at most
/// [`CONNECT_MAX_ATTEMPTS`]).
pub fn connect_failure_step(attempt: u32) -> (r: ConnectStep)
    requires
        1 <= attempt <= CONNECT_MAX_ATTEMPTS,
    ensures
        attempt == CONNECT_MAX_ATTEMPTS ==> r == ConnectStep::GiveUp,
        attempt < CONNECT_MAX_ATTEMPTS ==> r == ConnectStep::RetryAfterMs(
            connect_delay_ms(attempt as nat) as u64,
        ),
{
    if attempt == CONNECT_MAX_ATTEMPTS {
        return ConnectStep::GiveUp;
    }
    let shift: u64 = (attempt - 1) as u64;
    proof {
        vstd::arithmetic::power2::lemma2_to64();
        vstd::bits::lemma_u64_shl_is_mul(CONNECT_BASE_DELAY_MS, shift);
    }
    let d = CONNECT_BASE_DELAY_MS << shift;
    if d <= CONNECT_MAX_DELAY_MS {
        ConnectStep::RetryAfterMs(d)
    } else {
        ConnectStep::RetryAfterMs(CONNECT_MAX_DELAY_MS)
    }
}

} // verus!
