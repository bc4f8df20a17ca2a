//! The live trading loop as a state machine: each event that the loop
//! observes (a clock tick, the broker's state, a ticker's bracket, its bar
//! fetch and bars, the end of a cycle) gives the next state and the actions
//! to perform. The loop that performs them, with the broker and the clock,
//! runs around `live_cycle_step`.

use vstd::prelude::*;
use crate::config::bar_interval::{poll_interval_ms, BAR_INTERVAL_MINUTES};
use crate::config::tickers::{ticker_from_name, Ticker};
use super::live_poll_policy::LivePollPolicy;
use super::nyse_session::{
    closed_all_day, et_day, et_minute, minutes_to_open, valid_instant, NyseSession, MARKET_CLOSE_MIN,
    MARKET_OPEN_MIN,
};
use super::poll_cycle::{
    bracket_recovery, is_data_fresh, positions_fetch_suspect, sat_sub, should_restart_after_disconnect,
    BracketRecovery, DISCONNECT_RESTART_SECS,
};
use super::reconcile::IbkrPositionSnapshot;

verus! {

/// Milliseconds slept while the broker is disconnected.
pub const DISCONNECTED_SLEEP_MS: u64 = 5_000;
/// Milliseconds slept on a day without a session.
pub const CLOSED_DAY_SLEEP_MS: u64 = 3_600_000;

/// Milliseconds between polls.
pub open spec fn poll_ms_spec() -> int {
    BAR_INTERVAL_MINUTES as int * 60_000
}

/// The loop's own clock-keeping: the New York day of the last cycle, since
/// when (monotonic seconds) the broker has been seen disconnected, and
/// whether the loop has stopped.
#[derive(Debug, Clone, Copy, PartialEq, Eq)]
pub struct CycleClock {
    pub current_day: i32,
    pub down_since: Option<u64>,
    pub stopped: bool,
}

/// The loop's state: the tracked tickers and its clock.
pub struct LiveCycleState {
    pub tickers: Vec<Ticker>,
    pub clock: CycleClock,
}

/// What the loop observes.
pub enum LiveCycleEvent {
    /// Start of an iteration: wall time (Unix seconds), monotonic seconds,
    /// whether shutdown was requested and whether the broker is connected.
    Tick { now: i64, monotonic_secs: u64, shutdown: bool, connected: bool },
    /// The broker's positions (`None` when the fetch failed), whether its open
    /// orders were fetched, and how many tickers hold a slot locally.
    Broker { positions: Option<Vec<(String, IbkrPositionSnapshot)>>, orders_ok: bool, local_positions: usize },
    /// After reconciling a ticker: whether it holds a position and bracket
    /// ids, whether stale extra stops were found, and its saved stop-loss and
    /// take-profit (cents).
    Bracket { ticker: Ticker, has_position: bool, has_bracket: bool, has_extras: bool, stop_loss: i64, take_profit: i64 },
    /// A bracket was placed again (`placed`), and whether the broker then
    /// listed both of its orders (`None` when the check could not be made).
    BracketPlaced { ticker: Ticker, placed: bool, verified: Option<bool> },
    /// A ticker's bar fetch, with its failure streak before it and whether it
    /// holds a position.
    BarFetch { ticker: Ticker, ok: bool, failures: u32, has_position: bool },
    /// A ticker's bars of the day: how many, how many are new, and the
    /// millisecond times of now, of the newest bar and of the last GEX poll.
    Bars { ticker: Ticker, bar_count: usize, new_bars: usize, now_ms: u64, newest_bar_ms: u64, gex_last_ms: u64 },
    /// All tickers were processed; whether entry candidates were collected.
    CycleEnd { has_candidates: bool },
}

/// What the loop is to do.
#[derive(Debug, Clone, Copy, PartialEq, Eq)]
pub enum LiveCycleAction {
    /// Save every ticker's state, disconnect and exit (with a restart when
    /// `restart`).
    SaveAndExit { restart: bool },
    /// Sleep this many milliseconds before the next iteration.
    Sleep { ms: u64 },
    /// The broker is connected again.
    ReportReconnected,
    /// A new trading day: reset every ticker's daily counters.
    ResetDaily,
    /// Fetch the broker's positions and open orders.
    FetchBrokerState,
    /// Reconcile every ticker with the broker; cancel orphaned orders only
    /// when `cancel_orphans`.
    Reconcile { cancel_orphans: bool },
    /// The broker's data is incomplete: no reconciliation this cycle.
    SkipReconcile,
    /// Buy back a short position of a tracked ticker.
    CoverShort { ticker: Ticker, shares: u64 },
    /// A short position in an untracked symbol (the index in the broker's
    /// position list): to be covered by hand.
    UntrackedShort { index: usize },
    /// Fetch every ticker's bars and check bracket fills.
    FetchBars,
    /// Forget the bracket ids, cancel the ticker's sell orders and place its
    /// bracket again.
    ReplaceBracket { ticker: Ticker },
    /// Close the ticker's position at market.
    EmergencyClose { ticker: Ticker },
    /// Keep the newly placed bracket and save the ticker's state.
    KeepBracket { ticker: Ticker },
    /// Set the ticker's failure streak.
    SetFailures { ticker: Ticker, count: u32 },
    /// The ticker has no bar today: report its health only.
    ReportNoBars { ticker: Ticker },
    /// Entry decisions are skipped on stale data.
    ReportStale { ticker: Ticker },
    /// Run the new bars through the signal pipeline, with entries allowed or
    /// not.
    ProcessBars { ticker: Ticker, entries_allowed: bool },
    /// Rank the entry candidates and execute them.
    RankAndExecute,
    /// Publish health and save the state of tickers with new data.
    PublishAndSave,
}

/// The tracked ticker whose symbol is `sym`, if any.
pub open spec fn tracked_ticker(tickers: Seq<Ticker>, sym: Seq<char>) -> Option<Ticker> {
    match ticker_from_name(sym) {
        Some(t) => if tickers.contains(t) { Some(t) } else { None },
        None => None,
    }
}

/// The actions for the short positions among the first `n` broker positions.
pub open spec fn short_actions(tickers: Seq<Ticker>, positions: Seq<(String, IbkrPositionSnapshot)>, n: int) -> Seq<
    LiveCycleAction,
>
    decreases n,
{
    if n <= 0 {
        Seq::empty()
    } else {
        let prev = short_actions(tickers, positions, n - 1);
        let p = positions[n - 1];
        if p.1.shares < 0 {
            match tracked_ticker(tickers, p.0@) {
                Some(t) => prev.push(LiveCycleAction::CoverShort { ticker: t, shares: (0 - p.1.shares) as u64 }),
                None => prev.push(LiveCycleAction::UntrackedShort { index: (n - 1) as usize }),
            }
        } else {
            prev
        }
    }
}

/// The session part of a tick: sleep through a closed day, wait for the open,
/// or start the cycle.
pub open spec fn session_actions(now: i64) -> Seq<LiveCycleAction> {
    if closed_all_day(now) {
        seq![LiveCycleAction::Sleep { ms: CLOSED_DAY_SLEEP_MS }]
    } else if !(MARKET_OPEN_MIN <= et_minute(now) < MARKET_CLOSE_MIN) {
        seq![LiveCycleAction::Sleep { ms: (minutes_to_open(et_minute(now) as int) * 60_000) as u64 }]
    } else {
        seq![LiveCycleAction::FetchBrokerState]
    }
}

/// A tick.
pub open spec fn tick_spec(c: CycleClock, now: i64, mono: u64, shutdown: bool, connected: bool) -> (CycleClock, Seq<
    LiveCycleAction,
>) {
    if shutdown {
        (CycleClock { stopped: true, ..c }, seq![LiveCycleAction::SaveAndExit { restart: false }])
    } else if !connected {
        let since = match c.down_since {
            Some(x) => x,
            None => mono,
        };
        if sat_sub(mono, since) >= DISCONNECT_RESTART_SECS {
            (
                CycleClock { down_since: Some(since), stopped: true, ..c },
                seq![LiveCycleAction::SaveAndExit { restart: true }],
            )
        } else {
            (CycleClock { down_since: Some(since), ..c }, seq![LiveCycleAction::Sleep { ms: DISCONNECTED_SLEEP_MS }])
        }
    } else {
        let reconnected: Seq<LiveCycleAction> = if c.down_since is Some {
            seq![LiveCycleAction::ReportReconnected]
        } else {
            Seq::empty()
        };
        let today = et_day(now);
        let rollover: Seq<LiveCycleAction> = if today != c.current_day {
            seq![LiveCycleAction::ResetDaily]
        } else {
            Seq::empty()
        };
        (
            CycleClock { current_day: today, down_since: None, stopped: c.stopped },
            reconnected + rollover + session_actions(now),
        )
    }
}

/// What the loop does on `event` with tracked `tickers` and clock `c`.
pub open spec fn live_cycle_spec(tickers: Seq<Ticker>, c: CycleClock, event: LiveCycleEvent) -> (CycleClock, Seq<
    LiveCycleAction,
>) {
    if c.stopped {
        (c, Seq::empty())
    } else {
        match event {
            LiveCycleEvent::Tick { now, monotonic_secs, shutdown, connected } => tick_spec(
                c,
                now,
                monotonic_secs,
                shutdown,
                connected,
            ),
            LiveCycleEvent::Broker { positions, orders_ok, local_positions } => {
                let rec: Seq<LiveCycleAction> = match positions {
                    Some(p) => if orders_ok {
                        seq![LiveCycleAction::Reconcile { cancel_orphans: !(local_positions > 0 && p@.len() == 0) }]
                    } else {
                        seq![LiveCycleAction::SkipReconcile]
                    },
                    None => seq![LiveCycleAction::SkipReconcile],
                };
                let shorts: Seq<LiveCycleAction> = match positions {
                    Some(p) => short_actions(tickers, p@, p@.len() as int),
                    None => Seq::empty(),
                };
                (c, rec + shorts + seq![LiveCycleAction::FetchBars])
            },
            LiveCycleEvent::Bracket { ticker, has_position, has_bracket, has_extras, stop_loss, take_profit } => {
                let bracket = has_bracket && !has_extras;
                if !has_position || bracket {
                    (c, Seq::empty())
                } else if stop_loss > 0 && take_profit > 0 {
                    (c, seq![LiveCycleAction::ReplaceBracket { ticker }])
                } else {
                    (c, seq![LiveCycleAction::EmergencyClose { ticker }])
                }
            },
            LiveCycleEvent::BracketPlaced { ticker, placed, verified } => {
                if placed && verified != Some(false) {
                    (c, seq![LiveCycleAction::KeepBracket { ticker }])
                } else {
                    (c, seq![LiveCycleAction::EmergencyClose { ticker }])
                }
            },
            LiveCycleEvent::BarFetch { ticker, ok, failures, has_position } => {
                if ok {
                    (c, seq![LiveCycleAction::SetFailures { ticker, count: 0 }])
                } else {
                    let n = if failures < u32::MAX { (failures + 1) as u32 } else { u32::MAX };
                    let set = seq![LiveCycleAction::SetFailures { ticker, count: n }];
                    if n >= LivePollPolicy::MAX_CONSECUTIVE_FAILURES && has_position {
                        (c, set.push(LiveCycleAction::EmergencyClose { ticker }))
                    } else {
                        (c, set)
                    }
                }
            },
            LiveCycleEvent::Bars { ticker, bar_count, new_bars, now_ms, newest_bar_ms, gex_last_ms } => {
                if bar_count == 0 {
                    (c, seq![LiveCycleAction::ReportNoBars { ticker }])
                } else {
                    let timeout = poll_ms_spec() * 3;
                    let fresh = sat_sub(now_ms, newest_bar_ms) < timeout && sat_sub(now_ms, gex_last_ms) < timeout;
                    let stale: Seq<LiveCycleAction> = if !fresh && new_bars > 0 {
                        seq![LiveCycleAction::ReportStale { ticker }]
                    } else {
                        Seq::empty()
                    };
                    (c, stale.push(LiveCycleAction::ProcessBars { ticker, entries_allowed: fresh }))
                }
            },
            LiveCycleEvent::CycleEnd { has_candidates } => {
                let rank: Seq<LiveCycleAction> = if has_candidates {
                    seq![LiveCycleAction::RankAndExecute]
                } else {
                    Seq::empty()
                };
                (
                    c,
                    rank + seq![
                        LiveCycleAction::PublishAndSave,
                        LiveCycleAction::Sleep { ms: poll_ms_spec() as u64 },
                    ],
                )
            },
        }
    }
}

/// Whether `tickers` holds `t`.
fn holds_ticker(tickers: &Vec<Ticker>, t: Ticker) -> (r: bool)
    ensures
        r == tickers@.contains(t),
{
    let mut i: usize = 0;
    while i < tickers.len()
        invariant
            i <= tickers@.len(),
            forall|j: int| 0 <= j < i ==> tickers@[j] != t,
        decreases tickers.len() - i,
    {
        if tickers[i] == t {
            return true;
        }
        i = i + 1;
    }
    false
}

/// A copy of the ticker list.
fn copy_tickers(v: &Vec<Ticker>) -> (r: Vec<Ticker>)
    ensures
        r@ == v@,
{
    let mut out: Vec<Ticker> = Vec::new();
    let mut i: usize = 0;
    while i < v.len()
        invariant
            i <= v@.len(),
            out@ == v@.subrange(0, i as int),
        decreases v.len() - i,
    {
        out.push(v[i]);
        i = i + 1;
        proof {
            assert(out@ =~= v@.subrange(0, i as int));
        }
    }
    proof {
        assert(v@.subrange(0, v@.len() as int) =~= v@);
    }
    out
}

/// Append the actions for the short positions.
fn push_short_actions(
    tickers: &Vec<Ticker>,
    positions: &Vec<(String, IbkrPositionSnapshot)>,
    out: &mut Vec<LiveCycleAction>,
)
    ensures
        final(out)@ == old(out)@ + short_actions(tickers@, positions@, positions@.len() as int),
{
    let ghost start = out@;
    let mut i: usize = 0;
    proof {
        assert(start + short_actions(tickers@, positions@, 0) =~= start);
    }
    while i < positions.len()
        invariant
            i <= positions@.len(),
            out@ == start + short_actions(tickers@, positions@, i as int),
        decreases positions.len() - i,
    {
        let shares = positions[i].1.shares;
        if shares < 0 {
            let qty: u64 = (0i128 - shares as i128) as u64;
            match Ticker::from_str_opt(positions[i].0.as_str()) {
                Some(t) => {
                    if holds_ticker(tickers, t) {
                        out.push(LiveCycleAction::CoverShort { ticker: t, shares: qty });
                    } else {
                        out.push(LiveCycleAction::UntrackedShort { index: i });
                    }
                },
                None => {
                    out.push(LiveCycleAction::UntrackedShort { index: i });
                },
            }
        }
        proof {
            let prev = short_actions(tickers@, positions@, i as int);
            assert(short_actions(tickers@, positions@, i + 1) == if positions@[i as int].1.shares < 0 {
                match tracked_ticker(tickers@, positions@[i as int].0@) {
                    Some(t) => prev.push(LiveCycleAction::CoverShort { ticker: t, shares: (0 - positions@[i as int].1.shares) as u64 }),
                    None => prev.push(LiveCycleAction::UntrackedShort { index: i }),
                }
            } else {
                prev
            });
            assert(out@ =~= start + short_actions(tickers@, positions@, i + 1));
        }
        i = i + 1;
    }
}

/// The clock's new state and the actions for a tick.
fn tick_step(c: CycleClock, now: i64, mono: u64, shutdown: bool, connected: bool) -> (r: (CycleClock, Vec<
    LiveCycleAction,
>))
    requires
        valid_instant(now),
    ensures
        r.0 == tick_spec(c, now, mono, shutdown, connected).0,
        r.1@ == tick_spec(c, now, mono, shutdown, connected).1,
{
    let mut out: Vec<LiveCycleAction> = Vec::new();
    if shutdown {
        out.push(LiveCycleAction::SaveAndExit { restart: false });
        proof {
            assert(out@ =~= seq![LiveCycleAction::SaveAndExit { restart: false }]);
        }
        return (CycleClock { stopped: true, ..c }, out);
    }
    if !connected {
        let since = match c.down_since {
            Some(x) => x,
            None => mono,
        };
        let down = if mono >= since { mono - since } else { 0 };
        if should_restart_after_disconnect(down) {
            out.push(LiveCycleAction::SaveAndExit { restart: true });
            proof {
                assert(out@ =~= seq![LiveCycleAction::SaveAndExit { restart: true }]);
            }
            return (CycleClock { down_since: Some(since), stopped: true, ..c }, out);
        }
        out.push(LiveCycleAction::Sleep { ms: DISCONNECTED_SLEEP_MS });
        proof {
            assert(out@ =~= seq![LiveCycleAction::Sleep { ms: DISCONNECTED_SLEEP_MS }]);
        }
        return (CycleClock { down_since: Some(since), ..c }, out);
    }
    if c.down_since.is_some() {
        out.push(LiveCycleAction::ReportReconnected);
    }
    let ghost rec = out@;
    let day_text_day = match crate::dates::new_york_day_minute(now) {
        Some(p) => p.0,
        None => 1,
    };
    if day_text_day != c.current_day {
        out.push(LiveCycleAction::ResetDaily);
    }
    let ghost roll = out@;
    if NyseSession::is_closed_all_day(now) {
        out.push(LiveCycleAction::Sleep { ms: CLOSED_DAY_SLEEP_MS });
    } else if !NyseSession::is_open(now) {
        let minutes = NyseSession::minutes_until_open(now);
        out.push(LiveCycleAction::Sleep { ms: (minutes * 60_000) as u64 });
    } else {
        out.push(LiveCycleAction::FetchBrokerState);
    }
    proof {
        let t = tick_spec(c, now, mono, shutdown, connected);
        assert(out@ =~= t.1);
    }
    (CycleClock { current_day: day_text_day, down_since: None, stopped: c.stopped }, out)
}

/// A fresh loop state for `tickers` at `now`: the current day is New York's
/// day of `now`, the broker not seen down, the loop running.
pub fn new_live_cycle(tickers: Vec<Ticker>, now: i64) -> (r: LiveCycleState)
    requires
        valid_instant(now),
    ensures
        r.tickers@ == tickers@,
        r.clock == (CycleClock { current_day: et_day(now), down_since: None, stopped: false }),
{
    let day = match crate::dates::new_york_day_minute(now) {
        Some(p) => p.0,
        None => 1,
    };
    LiveCycleState { tickers, clock: CycleClock { current_day: day, down_since: None, stopped: false } }
}

/// One step of the live loop: the next state and the actions for `event`.
/// A tick's wall time must have a four-digit year.
pub fn live_cycle_step(state: &LiveCycleState, event: LiveCycleEvent) -> (r: (LiveCycleState, Vec<LiveCycleAction>))
    requires
        event matches LiveCycleEvent::Tick { now, .. } ==> valid_instant(now),
    ensures
        r.0.tickers@ == state.tickers@,
        r.0.clock == live_cycle_spec(state.tickers@, state.clock, event).0,
        r.1@ == live_cycle_spec(state.tickers@, state.clock, event).1,
{
    let tickers = copy_tickers(&state.tickers);
    let c = state.clock;
    if c.stopped {
        return (LiveCycleState { tickers, clock: c }, Vec::new());
    }
    let ghost spec = live_cycle_spec(state.tickers@, state.clock, event);
    let mut out: Vec<LiveCycleAction> = Vec::new();
    match event {
        LiveCycleEvent::Tick { now, monotonic_secs, shutdown, connected } => {
            let (c2, acts) = tick_step(c, now, monotonic_secs, shutdown, connected);
            return (LiveCycleState { tickers, clock: c2 }, acts);
        },
        LiveCycleEvent::Broker { positions, orders_ok, local_positions } => {
            match &positions {
                Some(p) => {
                    if orders_ok {
                        let suspect = positions_fetch_suspect(local_positions, p.len());
                        out.push(LiveCycleAction::Reconcile { cancel_orphans: !suspect });
                    } else {
                        out.push(LiveCycleAction::SkipReconcile);
                    }
                    push_short_actions(&state.tickers, p, &mut out);
                },
                None => {
                    out.push(LiveCycleAction::SkipReconcile);
                },
            }
            out.push(LiveCycleAction::FetchBars);
        },
        LiveCycleEvent::Bracket { ticker, has_position, has_bracket, has_extras, stop_loss, take_profit } => {
            match bracket_recovery(has_position, has_bracket && !has_extras, stop_loss, take_profit) {
                BracketRecovery::Keep => {},
                BracketRecovery::Replace => {
                    out.push(LiveCycleAction::ReplaceBracket { ticker });
                },
                BracketRecovery::EmergencyClose => {
                    out.push(LiveCycleAction::EmergencyClose { ticker });
                },
            }
        },
        LiveCycleEvent::BracketPlaced { ticker, placed, verified } => {
            let ok = placed && match verified {
                Some(v) => v,
                None => true,
            };
            if ok {
                out.push(LiveCycleAction::KeepBracket { ticker });
            } else {
                out.push(LiveCycleAction::EmergencyClose { ticker });
            }
        },
        LiveCycleEvent::BarFetch { ticker, ok, failures, has_position } => {
            if ok {
                out.push(LiveCycleAction::SetFailures { ticker, count: 0 });
            } else {
                let n = if failures < u32::MAX { failures + 1 } else { u32::MAX };
                out.push(LiveCycleAction::SetFailures { ticker, count: n });
                if LivePollPolicy::should_emergency_close(n, has_position) {
                    out.push(LiveCycleAction::EmergencyClose { ticker });
                }
            }
        },
        LiveCycleEvent::Bars { ticker, bar_count, new_bars, now_ms, newest_bar_ms, gex_last_ms } => {
            if bar_count == 0 {
                out.push(LiveCycleAction::ReportNoBars { ticker });
            } else {
                let timeout = poll_interval_ms(BAR_INTERVAL_MINUTES) * 3;
                let fresh = is_data_fresh(now_ms, newest_bar_ms, gex_last_ms, timeout);
                if !fresh && new_bars > 0 {
                    out.push(LiveCycleAction::ReportStale { ticker });
                }
                out.push(LiveCycleAction::ProcessBars { ticker, entries_allowed: fresh });
            }
        },
        LiveCycleEvent::CycleEnd { has_candidates } => {
            if has_candidates {
                out.push(LiveCycleAction::RankAndExecute);
            }
            out.push(LiveCycleAction::PublishAndSave);
            out.push(LiveCycleAction::Sleep { ms: poll_interval_ms(BAR_INTERVAL_MINUTES) });
        },
    }
    proof {
        assert(out@ =~= spec.1);
    }
    (LiveCycleState { tickers, clock: c }, out)
}

/// The freshness gate of the live loop: on a ticker's bars, entries are
/// allowed exactly when both the newest bar and the last GEX poll are younger
/// than three poll intervals (45 minutes); stale data is reported when new
/// bars arrive but entries are held back.
pub proof fn law_entries_need_fresh_bars_and_gex(
    tickers: Seq<Ticker>,
    c: CycleClock,
    ticker: Ticker,
    bar_count: usize,
    new_bars: usize,
    now_ms: u64,
    newest_bar_ms: u64,
    gex_last_ms: u64,
)
    requires
        !c.stopped,
        bar_count > 0,
    ensures
        ({
            let acts = live_cycle_spec(
                tickers,
                c,
                LiveCycleEvent::Bars { ticker, bar_count, new_bars, now_ms, newest_bar_ms, gex_last_ms },
            ).1;
            let fresh = now_ms < newest_bar_ms + 2_700_000 && now_ms < gex_last_ms + 2_700_000;
            &&& acts.len() >= 1
            &&& acts.last() == LiveCycleAction::ProcessBars { ticker, entries_allowed: fresh }
            &&& (now_ms >= gex_last_ms + 2_700_000 ==> acts.last() == LiveCycleAction::ProcessBars {
                ticker,
                entries_allowed: false,
            })
            &&& acts.contains(LiveCycleAction::ReportStale { ticker }) <==> (!fresh && new_bars > 0)
        }),
{
    let acts = live_cycle_spec(
        tickers,
        c,
        LiveCycleEvent::Bars { ticker, bar_count, new_bars, now_ms, newest_bar_ms, gex_last_ms },
    ).1;
    let fresh = now_ms < newest_bar_ms + 2_700_000 && now_ms < gex_last_ms + 2_700_000;
    if !fresh && new_bars > 0 {
        assert(acts[0] == LiveCycleAction::ReportStale { ticker });
    } else {
        assert(acts.len() == 1);
        if acts.contains(LiveCycleAction::ReportStale { ticker }) {
            let k = choose|k: int| 0 <= k < acts.len() && acts[k] == LiveCycleAction::ReportStale { ticker };
            assert(acts[k] == acts[0]);
        }
    }
}

} // verus!
