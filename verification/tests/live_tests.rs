use gex_strategy::live::equity::{equity_retry_step, EquityStep};
use gex_strategy::live::live_cycle::{
    live_cycle_step, new_live_cycle, LiveCycleAction, LiveCycleEvent,
};
use chrono::TimeZone;
use gex_strategy::config::tickers::Ticker;
use gex_strategy::live::auth::{check_basic_auth, set_basic_auth, AuthConfig, ServerConfig};
use gex_strategy::live::live_entry_candidate::{rank_and_dedup, LiveEntryCandidate};
use gex_strategy::live::live_poll_policy::LivePollPolicy;
use gex_strategy::live::nyse_session::NyseSession;
use gex_strategy::live::reconcile::{
    find_bracket_orders, IbkrOrderSnapshot, IbkrPositionSnapshot, LocalTickerView, ReconcileAction,
};
use gex_strategy::live::trade_log::next_trade_id;
use gex_strategy::live::verbosity::{is_verbose, set_verbose, Verbosity};
use gex_strategy::live::state::{history_dir, state_dir, state_path, trade_log_path};
use gex_strategy::live::state::bracket_order_ids;
use gex_strategy::live::state::{history_files_to_delete, MAX_HISTORY_FILES};
use gex_strategy::broker::BracketOrderIds;
use gex_strategy::live::reconcile::{adopted_holding, bracket_after_reconcile};
use gex_strategy::types::Signal;
use chrono::Datelike;
use gex_strategy::config::strategy::StrategyConfig;
use gex_strategy::live::recovery::stale_live_day_dirs;
use gex_strategy::live::poll_cycle::{
    bracket_recovery, has_extra_stops, is_data_fresh, new_bars, positions_fetch_suspect,
    should_restart_after_disconnect, BracketRecovery,
};
use gex_strategy::types::OhlcBar;

fn utc(y: i32, mo: u32, d: u32, h: u32, mi: u32) -> i64 {
    chrono::Utc.with_ymd_and_hms(y, mo, d, h, mi, 0).unwrap().timestamp()
}

fn candidate(ticker: Ticker, tsi: f64) -> LiveEntryCandidate<()> {
    LiveEntryCandidate { ticker, score: (tsi * 100.0).round() as i64, data: () }
}

#[test]
fn backoff_doubles() {
    let b1 = LivePollPolicy::backoff_ms(1);
    let b2 = LivePollPolicy::backoff_ms(2);
    assert_eq!(b1, LivePollPolicy::POLL_INTERVAL_MS);
    assert_eq!(b2, LivePollPolicy::POLL_INTERVAL_MS * 2);
}

#[test]
fn backoff_capped() {
    assert_eq!(LivePollPolicy::backoff_ms(20), LivePollPolicy::MAX_BACKOFF_MS);
}

#[test]
fn backoff_edges() {
    assert_eq!(LivePollPolicy::backoff_ms(0), 30_000);
    assert_eq!(LivePollPolicy::backoff_ms(3), 240_000);
    assert_eq!(LivePollPolicy::backoff_ms(4), LivePollPolicy::MAX_BACKOFF_MS);
    assert_eq!(LivePollPolicy::backoff_ms(u32::MAX), 15_000);
    assert_eq!(LivePollPolicy::backoff_ms(0x8000_0001), 0);
}

#[test]
fn emergency_close_requires_both() {
    assert!(!LivePollPolicy::should_emergency_close(LivePollPolicy::MAX_CONSECUTIVE_FAILURES, false));
    assert!(!LivePollPolicy::should_emergency_close(LivePollPolicy::MAX_CONSECUTIVE_FAILURES - 1, true));
    assert!(LivePollPolicy::should_emergency_close(LivePollPolicy::MAX_CONSECUTIVE_FAILURES, true));
}

#[test]
fn dedup_keeps_best_per_ticker() {
    let mut candidates = vec![
        candidate(Ticker::AAPL, 30.0),
        candidate(Ticker::GOOG, 20.0),
        candidate(Ticker::AAPL, 10.0),
    ];
    rank_and_dedup(&mut candidates);
    assert_eq!(candidates.len(), 2);
    assert_eq!(candidates[0].ticker, Ticker::AAPL);
    assert!((candidates[0].score as f64 / 100.0 - 30.0).abs() < 0.01);
}

#[test]
fn ranking_by_tsi() {
    let mut candidates = vec![
        candidate(Ticker::AAPL, 20.0),
        candidate(Ticker::GOOG, 10.0),
        candidate(Ticker::MSFT, 30.0),
    ];
    rank_and_dedup(&mut candidates);
    assert_eq!(candidates[0].ticker, Ticker::MSFT);
    assert_eq!(candidates[1].ticker, Ticker::AAPL);
    assert_eq!(candidates[2].ticker, Ticker::GOOG);
}

#[test]
fn ranking_ties_keep_order() {
    let mut candidates = vec![candidate(Ticker::KO, 5.0), candidate(Ticker::GS, 5.0), candidate(Ticker::KO, 7.0)];
    rank_and_dedup(&mut candidates);
    let order: Vec<Ticker> = candidates.iter().map(|c| c.ticker).collect();
    assert_eq!(order, vec![Ticker::KO, Ticker::GS]);
    assert_eq!(candidates[0].score, 700);
}

#[test]
fn market_open_during_hours() {
    assert!(NyseSession::is_open(utc(2025, 2, 12, 15, 0))); // 10:00 AM ET (EST)
}

#[test]
fn market_closed_before_open() {
    assert!(!NyseSession::is_open(utc(2025, 2, 12, 14, 0))); // 9:00 AM ET
}

#[test]
fn market_closed_after_close() {
    assert!(!NyseSession::is_open(utc(2025, 2, 12, 21, 30))); // 4:30 PM ET
}

#[test]
fn market_closed_on_weekend_saturday() {
    let ts = utc(2025, 2, 15, 15, 0);
    assert!(!NyseSession::is_open(ts));
    assert!(NyseSession::is_closed_all_day(ts));
}

#[test]
fn market_closed_on_weekend_sunday() {
    let ts = utc(2025, 2, 16, 15, 0);
    assert!(!NyseSession::is_open(ts));
    assert!(NyseSession::is_closed_all_day(ts));
}

#[test]
fn weekday_not_closed_all_day() {
    assert!(!NyseSession::is_closed_all_day(utc(2025, 2, 12, 15, 0)));
}

#[test]
fn good_friday_2026_closed() {
    let ts = utc(2026, 4, 3, 14, 0);
    assert!(NyseSession::is_closed_all_day(ts));
    assert!(!NyseSession::is_open(ts));
}

#[test]
fn today_date_str_format() {
    assert_eq!(NyseSession::et_date_str(utc(2025, 2, 12, 15, 0)), "2025-02-12");
}

#[test]
fn minutes_until_open_before_930() {
    assert_eq!(NyseSession::minutes_until_open(utc(2025, 2, 12, 14, 0)), 30);
}

#[test]
fn minutes_until_open_during_market() {
    assert_eq!(NyseSession::minutes_until_open(utc(2025, 2, 12, 15, 0)), 0);
}

#[test]
fn minutes_until_open_after_close() {
    assert_eq!(NyseSession::minutes_until_open(utc(2025, 2, 12, 21, 30)), 1020);
}

#[test]
fn minutes_until_open_at_midnight_et() {
    assert_eq!(NyseSession::minutes_until_open(utc(2025, 2, 12, 5, 0)), 570);
}

#[test]
fn et_date_differs_from_utc_date_late_evening() {
    assert_eq!(NyseSession::et_date_str(utc(2025, 2, 13, 2, 0)), "2025-02-12");
}

fn pos(shares: i64, avg_cost: i64) -> IbkrPositionSnapshot {
    IbkrPositionSnapshot { shares, avg_cost }
}

fn order(id: i32, action: &str, otype: &str, limit: Option<i64>, aux: Option<i64>) -> IbkrOrderSnapshot {
    IbkrOrderSnapshot {
        order_id: id,
        action: action.to_string(),
        order_type: otype.to_string(),
        limit_price: limit,
        aux_price: aux,
        quantity: 10,
        status: "PreSubmitted".to_string(),
    }
}

fn local(has_pos: bool, sl: Option<i32>, tp: Option<i32>) -> LocalTickerView {
    LocalTickerView { ticker: Ticker::AAPL, has_position: has_pos, bracket_sl: sl, bracket_tp: tp }
}

#[test]
fn both_flat_is_consistent() {
    let action = local(false, None, None).reconcile(&[], &[]);
    assert!(matches!(action, ReconcileAction::Consistent));
}

#[test]
fn ibkr_has_position_local_flat_adopts() {
    let positions = vec![("AAPL".to_string(), pos(50, 15000))];
    let orders = vec![(
        "AAPL".to_string(),
        vec![order(101, "Sell", "STP", None, Some(14000)), order(102, "Sell", "LMT", Some(17000), None)],
    )];
    let action = local(false, None, None).reconcile(&positions, &orders);
    match action {
        ReconcileAction::AdoptPosition { shares, avg_cost, sl_order_id, tp_order_id, extra_stop_ids, sl_price, tp_price } => {
            assert_eq!(shares, 50);
            assert_eq!(avg_cost, 15000);
            assert_eq!(sl_order_id, Some(101));
            assert_eq!(tp_order_id, Some(102));
            assert_eq!(sl_price, 14000);
            assert_eq!(tp_price, 17000);
            assert!(extra_stop_ids.is_empty());
        }
        _ => panic!("expected AdoptPosition, got {:?}", action),
    }
}

#[test]
fn local_has_position_ibkr_flat_gone() {
    let action = local(true, Some(10), Some(11)).reconcile(&[], &[]);
    assert!(matches!(action, ReconcileAction::PositionGone));
}

#[test]
fn both_hold_matching_brackets_consistent() {
    let positions = vec![("AAPL".to_string(), pos(50, 15000))];
    let orders = vec![(
        "AAPL".to_string(),
        vec![order(101, "Sell", "STP", None, Some(14000)), order(102, "Sell", "LMT", Some(17000), None)],
    )];
    let action = local(true, Some(101), Some(102)).reconcile(&positions, &orders);
    assert!(matches!(action, ReconcileAction::Consistent));
}

#[test]
fn both_hold_mismatched_brackets_stale() {
    let positions = vec![("AAPL".to_string(), pos(50, 15000))];
    let orders = vec![(
        "AAPL".to_string(),
        vec![order(201, "Sell", "STP", None, Some(14000)), order(202, "Sell", "LMT", Some(17000), None)],
    )];
    let action = local(true, Some(101), Some(102)).reconcile(&positions, &orders);
    match action {
        ReconcileAction::BracketStale { sl_order_id, tp_order_id, .. } => {
            assert_eq!(sl_order_id, Some(201));
            assert_eq!(tp_order_id, Some(202));
        }
        _ => panic!("expected BracketStale, got {:?}", action),
    }
}

#[test]
fn both_flat_with_orphaned_sell_orders() {
    let orders = vec![("AAPL".to_string(), vec![order(99, "Sell", "LMT", Some(17000), None)])];
    let action = local(false, None, None).reconcile(&[], &orders);
    match action {
        ReconcileAction::OrphanedOrders { order_ids } => assert_eq!(order_ids, vec![99]),
        _ => panic!("expected OrphanedOrders, got {:?}", action),
    }
}

#[test]
fn multiple_stops_picks_highest_and_returns_extras() {
    let positions = vec![("AAPL".to_string(), pos(50, 15000))];
    let orders = vec![(
        "AAPL".to_string(),
        vec![
            order(3, "Sell", "STP", None, Some(14000)),
            order(5, "Sell", "STP", None, Some(14100)),
            order(10, "Sell", "STP", None, Some(14300)),
            order(2, "Sell", "LMT", Some(17000), None),
        ],
    )];
    let action = local(true, Some(10), Some(2)).reconcile(&positions, &orders);
    match action {
        ReconcileAction::Consistent => panic!("should not be Consistent with extra stops"),
        ReconcileAction::BracketStale { sl_order_id, extra_stop_ids, .. } => {
            assert_eq!(sl_order_id, Some(10));
            assert_eq!(extra_stop_ids, vec![5, 3]);
        }
        other => panic!("expected BracketStale, got {:?}", other),
    }
}

#[test]
fn bracket_ignores_buys_and_keeps_first_limit() {
    let orders = vec![
        order(1, "Buy", "STP", None, Some(99900)),
        order(2, "Sell", "lmt", Some(100), None),
        order(3, "Sell", "LMT", Some(200), None),
        order(4, "Sell", "STP LMT", Some(5), Some(6)),
    ];
    let (sl, tp, extra) = find_bracket_orders(&orders);
    assert_eq!(sl.map(|o| o.order_id), Some(4));
    assert_eq!(tp.map(|o| o.order_id), Some(2));
    assert!(extra.is_empty());
}

#[test]
fn basic_auth_checks_header() {
    let mut auth = AuthConfig::new();
    assert!(check_basic_auth(&auth, None));
    set_basic_auth(&mut auth, "user:pass".to_string());
    // base64("user:pass") = dXNlcjpwYXNz
    assert!(check_basic_auth(&auth, Some("Basic dXNlcjpwYXNz")));
    assert!(!check_basic_auth(&auth, Some("Basic dXNlcjpwYXNx")));
    assert!(!check_basic_auth(&auth, Some("Bearer dXNlcjpwYXNz")));
    assert!(!check_basic_auth(&auth, Some("Basic !!!")));
    assert!(!check_basic_auth(&auth, None));
}

#[test]
fn server_config_tls_needs_both() {
    let mut c = ServerConfig::default();
    assert!(!c.has_tls());
    c.tls_cert = Some("cert.pem".into());
    assert!(!c.has_tls());
    c.tls_key = Some("key.pem".into());
    assert!(c.has_tls());
}

#[test]
fn verbosity_switch() {
    let mut v = Verbosity::new();
    assert!(!is_verbose(&v));
    set_verbose(&mut v, true);
    assert!(is_verbose(&v));
}

#[test]
fn trade_ids_continue_from_log() {
    assert_eq!(next_trade_id(&[]), 1);
    assert_eq!(next_trade_id(&[1, 2, 7]), 8);
}

#[test]
fn live_state_layout() {
    assert_eq!(state_dir(), "./data/live");
    assert_eq!(history_dir(), "./data/live/history");
    assert_eq!(state_path(Ticker::AAPL), "./data/live/state-AAPL.json");
    assert_eq!(trade_log_path(), "./data/live/trade-log.json");
}

#[test]
fn saved_bracket_ids_need_both_legs() {
    let ids = bracket_order_ids(Some(7), Some(8)).unwrap();
    assert_eq!((ids.parent_id, ids.stop_loss_id, ids.take_profit_id), (0, 7, 8));
    assert!(bracket_order_ids(Some(7), None).is_none());
    assert!(bracket_order_ids(None, Some(8)).is_none());
}

#[test]
fn history_cleanup_only_past_both_limits() {
    let now: i64 = 2_000_000_000;
    let old = now - 301 * 86_400;
    let mut files: Vec<(String, i64)> = Vec::new();
    for k in 0..MAX_HISTORY_FILES {
        files.push((format!("state-AAPL-{k}.json"), now - k as i64));
    }
    files.push(("state-MSFT-x.json".to_string(), old));
    assert!(history_files_to_delete(Ticker::AAPL, files.clone(), now).is_empty());
    files.push(("state-AAPL-old.json".to_string(), old));
    files.push(("state-AAPL-older.json".to_string(), old - 5));
    let del = history_files_to_delete(Ticker::AAPL, files, now);
    assert_eq!(del, vec!["state-AAPL-old.json", "state-AAPL-older.json"]);
}

#[test]
fn reconcile_updates_bracket_ids() {
    let cur = Some(BracketOrderIds { parent_id: 1, stop_loss_id: 2, take_profit_id: 3 });
    let stale = ReconcileAction::BracketStale {
        sl_order_id: Some(20), sl_price: 1, tp_order_id: None, tp_price: 0, extra_stop_ids: vec![],
    };
    assert_eq!(bracket_after_reconcile(&stale, cur), None);
    let adopt = ReconcileAction::AdoptPosition {
        shares: 1, avg_cost: 1, sl_order_id: Some(20), sl_price: 1, tp_order_id: Some(21), tp_price: 2,
        extra_stop_ids: vec![],
    };
    assert_eq!(
        bracket_after_reconcile(&adopt, cur),
        Some(BracketOrderIds { parent_id: 0, stop_loss_id: 20, take_profit_id: 21 })
    );
    assert_eq!(bracket_after_reconcile(&ReconcileAction::PositionGone, cur), cur);
    assert_eq!(adopted_holding(Signal::Flat), Signal::LongVannaFlip);
    assert_eq!(adopted_holding(Signal::LongWallBounce), Signal::LongWallBounce);
}

#[test]
fn stale_live_cache_dirs() {
    let today = chrono::NaiveDate::from_ymd_opt(2025, 3, 31).unwrap().num_days_from_ce();
    let names: Vec<String> = vec!["2025-03-17".into(), "2025-03-18".into(), "2025-03-30".into(), "notes".into()];
    let cfg = StrategyConfig::default();
    assert_eq!(stale_live_day_dirs(today, &names, &cfg), vec!["2025-03-17"]);
}


#[test]
fn poll_cycle_decisions() {
    assert!(is_data_fresh(10_000, 9_000, 9_500, 2_000));
    assert!(!is_data_fresh(10_000, 7_000, 9_500, 2_000));
    assert!(is_data_fresh(10_000, 12_000, 12_000, 1));
    assert!(positions_fetch_suspect(2, 0));
    assert!(!positions_fetch_suspect(0, 0));
    assert!(should_restart_after_disconnect(60));
    assert!(!should_restart_after_disconnect(59));
    assert_eq!(bracket_recovery(true, false, 14000, 17000), BracketRecovery::Replace);
    assert_eq!(bracket_recovery(true, false, 0, 17000), BracketRecovery::EmergencyClose);
    assert_eq!(bracket_recovery(true, true, 0, 0), BracketRecovery::Keep);
    assert_eq!(bracket_recovery(false, false, 0, 0), BracketRecovery::Keep);
    let stale = ReconcileAction::BracketStale {
        sl_order_id: None, sl_price: 0, tp_order_id: None, tp_price: 0, extra_stop_ids: vec![4],
    };
    assert!(has_extra_stops(&stale));
    assert!(!has_extra_stops(&ReconcileAction::Consistent));
    let mk = |t: i64| OhlcBar { timestamp: t, open: 1, high: 1, low: 1, close: 1, volume: 1 };
    let fresh = new_bars(&[mk(100), mk(200), mk(300)], 200_000);
    assert_eq!(fresh.iter().map(|b| b.timestamp).collect::<Vec<_>>(), vec![300]);
}

const TUE_0000: i64 = 1_736_812_800; // 2025-01-14 00:00 UTC

fn tick(now: i64, mono: u64, shutdown: bool, connected: bool) -> LiveCycleEvent {
    LiveCycleEvent::Tick { now, monotonic_secs: mono, shutdown, connected }
}

#[test]
fn live_cycle_tick_in_session_fetches_broker_state() {
    let now = TUE_0000 + 15 * 3600; // 10:00 New York
    let st = new_live_cycle(vec![Ticker::AAPL, Ticker::MSFT], now);
    let (st2, acts) = live_cycle_step(&st, tick(now, 0, false, true));
    assert_eq!(acts, vec![LiveCycleAction::FetchBrokerState]);
    assert_eq!(st2.clock, st.clock);
}

#[test]
fn live_cycle_waits_for_open_and_sleeps_through_weekend() {
    let pre = TUE_0000 + 13 * 3600; // 08:00 New York: 90 minutes to the open
    let st = new_live_cycle(vec![Ticker::AAPL], pre);
    let (_, acts) = live_cycle_step(&st, tick(pre, 0, false, true));
    assert_eq!(acts, vec![LiveCycleAction::Sleep { ms: 90 * 60_000 }]);
    let sat = TUE_0000 + 4 * 86_400 + 12 * 3600;
    let (st2, acts) = live_cycle_step(&st, tick(sat, 0, false, true));
    assert_eq!(acts, vec![LiveCycleAction::ResetDaily, LiveCycleAction::Sleep { ms: 3_600_000 }]);
    assert_ne!(st2.clock.current_day, st.clock.current_day);
}

#[test]
fn live_cycle_disconnect_watchdog_restarts_after_a_minute() {
    let now = TUE_0000 + 15 * 3600;
    let st = new_live_cycle(vec![Ticker::AAPL], now);
    let (st1, acts) = live_cycle_step(&st, tick(now, 100, false, false));
    assert_eq!(acts, vec![LiveCycleAction::Sleep { ms: 5_000 }]);
    assert_eq!(st1.clock.down_since, Some(100));
    let (st2, acts) = live_cycle_step(&st1, tick(now, 130, false, false));
    assert_eq!(acts, vec![LiveCycleAction::Sleep { ms: 5_000 }]);
    let (st3, acts) = live_cycle_step(&st2, tick(now, 160, false, false));
    assert_eq!(acts, vec![LiveCycleAction::SaveAndExit { restart: true }]);
    assert!(st3.clock.stopped);
    let (_, acts) = live_cycle_step(&st3, tick(now, 161, false, true));
    assert!(acts.is_empty());
    // reconnecting before the minute is reported and clears the watch
    let (st4, acts) = live_cycle_step(&st2, tick(now, 140, false, true));
    assert_eq!(acts, vec![LiveCycleAction::ReportReconnected, LiveCycleAction::FetchBrokerState]);
    assert_eq!(st4.clock.down_since, None);
}

#[test]
fn live_cycle_shutdown_saves_and_exits() {
    let now = TUE_0000 + 15 * 3600;
    let st = new_live_cycle(vec![Ticker::AAPL], now);
    let (st2, acts) = live_cycle_step(&st, tick(now, 0, true, true));
    assert_eq!(acts, vec![LiveCycleAction::SaveAndExit { restart: false }]);
    assert!(st2.clock.stopped);
}

#[test]
fn live_cycle_broker_state_reconciles_and_covers_shorts() {
    let now = TUE_0000 + 15 * 3600;
    let st = new_live_cycle(vec![Ticker::AAPL, Ticker::MSFT], now);
    let positions = vec![
        ("AAPL".to_string(), IbkrPositionSnapshot { shares: -3, avg_cost: 10_000 }),
        ("MSFT".to_string(), IbkrPositionSnapshot { shares: 10, avg_cost: 40_000 }),
        ("TSLA".to_string(), IbkrPositionSnapshot { shares: -1, avg_cost: 20_000 }),
    ];
    let (_, acts) = live_cycle_step(
        &st,
        LiveCycleEvent::Broker { positions: Some(positions), orders_ok: true, local_positions: 1 },
    );
    assert_eq!(
        acts,
        vec![
            LiveCycleAction::Reconcile { cancel_orphans: true },
            LiveCycleAction::CoverShort { ticker: Ticker::AAPL, shares: 3 },
            LiveCycleAction::UntrackedShort { index: 2 },
            LiveCycleAction::FetchBars,
        ]
    );
    let (_, acts) = live_cycle_step(
        &st,
        LiveCycleEvent::Broker { positions: Some(Vec::new()), orders_ok: true, local_positions: 2 },
    );
    assert_eq!(acts, vec![LiveCycleAction::Reconcile { cancel_orphans: false }, LiveCycleAction::FetchBars]);
    let (_, acts) = live_cycle_step(
        &st,
        LiveCycleEvent::Broker { positions: None, orders_ok: true, local_positions: 0 },
    );
    assert_eq!(acts, vec![LiveCycleAction::SkipReconcile, LiveCycleAction::FetchBars]);
}

#[test]
fn live_cycle_bracket_recovery_and_emergency_close() {
    let now = TUE_0000 + 15 * 3600;
    let st = new_live_cycle(vec![Ticker::AAPL], now);
    let ev = |has_bracket: bool, has_extras: bool, sl: i64, tp: i64| LiveCycleEvent::Bracket {
        ticker: Ticker::AAPL,
        has_position: true,
        has_bracket,
        has_extras,
        stop_loss: sl,
        take_profit: tp,
    };
    assert!(live_cycle_step(&st, ev(true, false, 100, 200)).1.is_empty());
    assert_eq!(live_cycle_step(&st, ev(true, true, 100, 200)).1, vec![LiveCycleAction::ReplaceBracket { ticker: Ticker::AAPL }]);
    assert_eq!(live_cycle_step(&st, ev(false, false, 0, 200)).1, vec![LiveCycleAction::EmergencyClose { ticker: Ticker::AAPL }]);
    let placed = |placed: bool, verified: Option<bool>| LiveCycleEvent::BracketPlaced { ticker: Ticker::AAPL, placed, verified };
    assert_eq!(live_cycle_step(&st, placed(true, None)).1, vec![LiveCycleAction::KeepBracket { ticker: Ticker::AAPL }]);
    assert_eq!(live_cycle_step(&st, placed(true, Some(false))).1, vec![LiveCycleAction::EmergencyClose { ticker: Ticker::AAPL }]);
    assert_eq!(live_cycle_step(&st, placed(false, None)).1, vec![LiveCycleAction::EmergencyClose { ticker: Ticker::AAPL }]);
}

#[test]
fn live_cycle_fetch_failures_close_after_streak() {
    let now = TUE_0000 + 15 * 3600;
    let st = new_live_cycle(vec![Ticker::AAPL], now);
    let f = |ok: bool, failures: u32, has_position: bool| LiveCycleEvent::BarFetch { ticker: Ticker::AAPL, ok, failures, has_position };
    assert_eq!(live_cycle_step(&st, f(true, 3, true)).1, vec![LiveCycleAction::SetFailures { ticker: Ticker::AAPL, count: 0 }]);
    assert_eq!(live_cycle_step(&st, f(false, 3, true)).1, vec![LiveCycleAction::SetFailures { ticker: Ticker::AAPL, count: 4 }]);
    assert_eq!(
        live_cycle_step(&st, f(false, 4, true)).1,
        vec![LiveCycleAction::SetFailures { ticker: Ticker::AAPL, count: 5 }, LiveCycleAction::EmergencyClose { ticker: Ticker::AAPL }]
    );
    assert_eq!(live_cycle_step(&st, f(false, 4, false)).1, vec![LiveCycleAction::SetFailures { ticker: Ticker::AAPL, count: 5 }]);
}

#[test]
fn live_cycle_freshness_gate_and_cycle_end() {
    let now = TUE_0000 + 15 * 3600;
    let st = new_live_cycle(vec![Ticker::AAPL], now);
    let bars = |n: usize, new: usize, bar_ms: u64, gex_ms: u64| LiveCycleEvent::Bars {
        ticker: Ticker::AAPL, bar_count: n, new_bars: new, now_ms: 10_000_000, newest_bar_ms: bar_ms, gex_last_ms: gex_ms,
    };
    assert_eq!(live_cycle_step(&st, bars(0, 0, 0, 0)).1, vec![LiveCycleAction::ReportNoBars { ticker: Ticker::AAPL }]);
    assert_eq!(
        live_cycle_step(&st, bars(5, 1, 9_000_000, 9_500_000)).1,
        vec![LiveCycleAction::ProcessBars { ticker: Ticker::AAPL, entries_allowed: true }]
    );
    // 45 minutes is the freshness limit (three 15-minute polls)
    assert_eq!(
        live_cycle_step(&st, bars(5, 2, 10_000_000 - 2_700_000, 9_500_000)).1,
        vec![LiveCycleAction::ReportStale { ticker: Ticker::AAPL }, LiveCycleAction::ProcessBars { ticker: Ticker::AAPL, entries_allowed: false }]
    );
    assert_eq!(
        live_cycle_step(&st, LiveCycleEvent::CycleEnd { has_candidates: true }).1,
        vec![LiveCycleAction::RankAndExecute, LiveCycleAction::PublishAndSave, LiveCycleAction::Sleep { ms: 900_000 }]
    );
}

#[test]
fn equity_read_retries_three_times() {
    assert_eq!(equity_retry_step(1, true), EquityStep::Done);
    assert_eq!(equity_retry_step(1, false), EquityStep::RetryAfter { attempt: 2, secs: 3 });
    assert_eq!(equity_retry_step(2, false), EquityStep::RetryAfter { attempt: 3, secs: 3 });
    assert_eq!(equity_retry_step(3, false), EquityStep::GiveUpAfter { secs: 3 });
    assert_eq!(equity_retry_step(3, true), EquityStep::Done);
}
