//! State of the live GEX poller: its phase, its counters and the latest
//! profile of each ticker, with the status report it serves and the way each
//! poll updates it.

use vstd::prelude::*;
use crate::config::tickers::Ticker;
use crate::data::store::Store;
use crate::text::{concat, decimal, decimal_string, owned};

verus! {

/// Where the live GEX poller stands.
#[derive(Clone, Copy, Debug, PartialEq, Eq, Structural)]
pub enum GexPhase {
    Idle,
    Fetching,
    Live,
    Error,
}

/// What the health endpoint reports of the live GEX poller.
#[derive(Debug)]
pub struct GexStreamStatus {
    pub phase: GexPhase,
    pub oi_updates: u32,
    pub greeks_updates: u32,
    pub last_poll_ms: u64,
    pub last_error: Option<String>,
    pub accel_ready: u32,
    pub accel_total: u32,
    pub accel_samples: u32,
    pub accel_min_samples: u32,
}

/// The poller's shared state. `G` is the GEX profile type; the per-day
/// open-interest cache, which holds floating-point values, is kept by the
/// polling task itself.
pub struct LiveGexInner<G> {
    pub phase: GexPhase,
    pub oi_count: u32,
    pub greeks_count: u32,
    pub last_poll_ms: u64,
    pub last_error: Option<String>,
    pub profiles: Store<Ticker, G>,
}

/// A count as a `u32`, saturating at `u32::MAX`.
pub open spec fn len_u32(n: nat) -> u32 {
    if n <= u32::MAX {
        n as u32
    } else {
        u32::MAX
    }
}

/// The error text of a poll that produced no profile for any of `n` tickers.
pub open spec fn no_data_message(n: nat) -> Seq<char> {
    "0/"@ + decimal(n) + " tickers returned GEX data — walls unavailable"@
}

/// The error text set while the market is closed.
pub open spec fn market_closed_message() -> Seq<char> {
    "Market closed — GEX will start at market open"@
}

fn count_u32(n: usize) -> (r: u32)
    ensures
        r == len_u32(n as nat),
{
    if n <= u32::MAX as usize {
        n as u32
    } else {
        u32::MAX
    }
}

/// A fresh poller state: idle, with no counts, no error and no profile.
pub fn new_live_gex<G>() -> (r: LiveGexInner<G>)
    ensures
        r.phase == GexPhase::Idle,
        r.oi_count == 0,
        r.greeks_count == 0,
        r.last_poll_ms == 0,
        r.last_error is None,
        r.profiles@ == Map::<Ticker, G>::empty(),
{
    LiveGexInner {
        phase: GexPhase::Idle,
        oi_count: 0,
        greeks_count: 0,
        last_poll_ms: 0,
        last_error: None,
        profiles: Store::new(),
    }
}

/// The status report of the poller: its phase, counters and last error, and
/// the number of tickers with a profile as both the ready and total
/// acceleration counts (no sample counts are tracked).
pub fn get_gex_status<G>(s: &LiveGexInner<G>) -> (r: GexStreamStatus)
    ensures
        r.phase == s.phase,
        r.oi_updates == s.oi_count,
        r.greeks_updates == s.greeks_count,
        r.last_poll_ms == s.last_poll_ms,
        match (r.last_error, s.last_error) {
            (Some(a), Some(b)) => a@ == b@,
            (None, None) => true,
            _ => false,
        },
        r.accel_total == len_u32(s.profiles@.len()),
        r.accel_ready == r.accel_total,
        r.accel_samples == 0,
        r.accel_min_samples == 0,
{
    let accel_total = count_u32(s.profiles.len());
    let last_error = match &s.last_error {
        Some(e) => Some(owned(e.as_str())),
        None => None,
    };
    GexStreamStatus {
        phase: s.phase,
        oi_updates: s.oi_count,
        greeks_updates: s.greeks_count,
        last_poll_ms: s.last_poll_ms,
        last_error,
        accel_ready: accel_total,
        accel_total,
        accel_samples: 0,
        accel_min_samples: 0,
    }
}

/// The latest profile of `ticker`, only while the poller is live.
pub fn get_live_gex_profile<G>(s: &LiveGexInner<G>, ticker: Ticker) -> (r: Option<&G>)
    ensures
        s.phase != GexPhase::Live ==> r is None,
        s.phase == GexPhase::Live ==> match r {
            Some(g) => s.profiles@.contains_key(ticker) && s.profiles@[ticker] == *g,
            None => !s.profiles@.contains_key(ticker),
        },
{
    if s.phase != GexPhase::Live {
        return None;
    }
    s.profiles.get(&ticker)
}

impl<G> LiveGexInner<G> {
    /// The market is closed: wait idle, saying why.
    pub fn mark_market_closed(&mut self)
        ensures
            final(self).phase == GexPhase::Idle,
            final(self).last_error matches Some(e) && e@ == market_closed_message(),
            final(self).oi_count == old(self).oi_count,
            final(self).greeks_count == old(self).greeks_count,
            final(self).last_poll_ms == old(self).last_poll_ms,
            final(self).profiles@ == old(self).profiles@,
    {
        self.phase = GexPhase::Idle;
        self.last_error = Some(owned("Market closed — GEX will start at market open"));
        proof {
            reveal_strlit("Market closed — GEX will start at market open");
        }
    }

    /// A poll is starting.
    pub fn mark_fetching(&mut self)
        ensures
            final(self).phase == GexPhase::Fetching,
            final(self).last_error == old(self).last_error,
            final(self).oi_count == old(self).oi_count,
            final(self).greeks_count == old(self).greeks_count,
            final(self).last_poll_ms == old(self).last_poll_ms,
            final(self).profiles@ == old(self).profiles@,
    {
        self.phase = GexPhase::Fetching;
    }

    /// A poll failed with `message`. The first poll only records the
    /// message; a failed poll of the running loop also puts the poller in
    /// the error phase.
    pub fn record_poll_failure(&mut self, message: String, initial: bool)
        ensures
            final(self).last_error == Some(message),
            final(self).phase == (if initial { old(self).phase } else { GexPhase::Error }),
            final(self).oi_count == old(self).oi_count,
            final(self).greeks_count == old(self).greeks_count,
            final(self).last_poll_ms == old(self).last_poll_ms,
            final(self).profiles@ == old(self).profiles@,
    {
        self.last_error = Some(message);
        if !initial {
            self.phase = GexPhase::Error;
        }
    }

    /// Commit the outcome of a poll over `n_tickers` tickers: the new
    /// profiles, the open-interest and greeks counts and the poll time. With
    /// no profile at all the poller is in error, saying how many tickers gave
    /// nothing; otherwise it is live with no error. Returns whether the poll
    /// gave no data.
    pub fn commit_poll(
        &mut self,
        profiles: Store<Ticker, G>,
        total_oi: u32,
        total_greeks: u32,
        now_ms: u64,
        n_tickers: usize,
    ) -> (no_data: bool)
        ensures
            final(self).profiles@ == profiles@,
            final(self).oi_count == total_oi,
            final(self).greeks_count == total_greeks,
            final(self).last_poll_ms == now_ms,
            no_data == (profiles@.len() == 0),
            no_data ==> final(self).phase == GexPhase::Error,
            no_data ==> (final(self).last_error matches Some(e) && e@ == no_data_message(n_tickers as nat)),
            !no_data ==> final(self).phase == GexPhase::Live && final(self).last_error is None,
    {
        let no_data = profiles.len() == 0;
        self.profiles = profiles;
        self.oi_count = total_oi;
        self.greeks_count = total_greeks;
        self.last_poll_ms = now_ms;
        if no_data {
            let head = concat("0/", decimal_string(n_tickers as u64).as_str());
            let msg = concat(head.as_str(), " tickers returned GEX data — walls unavailable");
            proof {
                reveal_strlit("0/");
                reveal_strlit(" tickers returned GEX data — walls unavailable");
            }
            self.phase = GexPhase::Error;
            self.last_error = Some(msg);
        } else {
            self.phase = GexPhase::Live;
            self.last_error = None;
        }
        no_data
    }
}

} // verus!
