use chrono::Datelike;
use chrono::TimeZone;
use gex_strategy::backtest::calendar::get_trading_days;
use gex_strategy::backtest::chart::{
    is_entry_marker, scan_days, signal_marker_prefix, snap_to_bar, trade_days, COLOR_LOSS, COLOR_WIN,
};
use gex_strategy::backtest::costs::TICK_SIZE_CENTS;
use gex_strategy::backtest::et_format::EtFormat;
use gex_strategy::backtest::missed_entries::{find_spike_window, passes_time_gate, slice_time};
use gex_strategy::backtest::splits::{apply_split_adjustment, split_ratio_for_date};
use gex_strategy::backtest::overfit_report::period_display;
use gex_strategy::backtest::setup::{backtest_start, group_by_month, plan_month_download, BacktestStart};
use gex_strategy::backtest::state::{Marker, SpikeWindow};
use gex_strategy::config::bar_interval::{bucket_secs_i64, BAR_INTERVAL_MINUTES};
use gex_strategy::config::strategy::StrategyConfig;
use gex_strategy::types::{OhlcBar, Signal};
use gex_strategy::backtest::state::is_prunable_state_file;

fn day(y: i32, m: u32, d: u32) -> i32 {
    chrono::NaiveDate::from_ymd_opt(y, m, d).unwrap().num_days_from_ce()
}

fn ratio(ticker: &str, d: i32) -> f64 {
    let (n, den) = split_ratio_for_date(ticker, d);
    n as f64 / den as f64
}

#[test]
fn signal_marker_prefix_vf() {
    assert_eq!(signal_marker_prefix(Signal::LongVannaFlip), "VF");
}

#[test]
fn signal_marker_prefix_wb() {
    assert_eq!(signal_marker_prefix(Signal::LongWallBounce), "WB");
}

#[test]
fn snap_to_bar_rounds_down() {
    let bucket = bucket_secs_i64(BAR_INTERVAL_MINUTES);
    let t = bucket * 3 + 120;
    assert_eq!(snap_to_bar(t), bucket * 3);
}

#[test]
fn entry_marker_fields() {
    let m = Marker::entry(1000, Signal::LongVannaFlip);
    assert_eq!(m.shape, "arrowUp");
    assert_eq!(m.text, "VF");
    assert_eq!(m.time, 1000);
}

#[test]
fn is_entry_marker_true() {
    let m = Marker::entry(100, Signal::LongVannaFlip);
    assert!(is_entry_marker(&m));
}

#[test]
fn is_entry_marker_false_exit() {
    let m = Marker {
        time: 100,
        position: "aboveBar".into(),
        color: COLOR_WIN.into(),
        shape: "arrowDown".into(),
        text: "+5%".into(),
        size: Some(2),
    };
    assert!(!is_entry_marker(&m));
}

#[test]
fn tick_size_is_correct() {
    let tick_size = TICK_SIZE_CENTS as f64 / 100.0;
    assert!((tick_size - 0.01).abs() < 1e-10);
}

#[test]
fn find_spike_window_matches_entry_inside() {
    let windows = vec![
        SpikeWindow { start: 1000, end: 2000 },
        SpikeWindow { start: 5000, end: 6000 },
    ];
    let w = find_spike_window(&windows, 1500).unwrap();
    assert_eq!(w.start, 1000);
}

#[test]
fn find_spike_window_none_outside() {
    let windows = vec![SpikeWindow { start: 1000, end: 2000 }];
    assert!(find_spike_window(&windows, 3000).is_none());
}

#[test]
fn find_spike_window_boundary() {
    let windows = vec![SpikeWindow { start: 1000, end: 2000 }];
    assert!(find_spike_window(&windows, 1000).is_some());
    assert!(find_spike_window(&windows, 2000).is_some());
}

#[test]
fn slice_time_filters_by_time() {
    let pt = |t: i64| OhlcBar { timestamp: t, open: 1, high: 1, low: 1, close: 1, volume: 0 };
    let pts = vec![pt(10), pt(20), pt(30), pt(40)];
    let sliced = slice_time(&pts, 15, 35);
    assert_eq!(sliced.len(), 2);
    assert_eq!(sliced[0].timestamp, 20);
    assert_eq!(sliced[1].timestamp, 30);
}

#[test]
fn passes_time_gate_unit() {
    let cfg = StrategyConfig::default();
    // 9:50 AM ET
    assert!(!passes_time_gate(1710510600, &cfg));
    // 10:50 AM ET
    assert!(passes_time_gate(1710514200, &cfg));
    // 3:15 PM ET
    assert!(!passes_time_gate(1710530100, &cfg));
}

#[test]
fn trading_days_excludes_weekends() {
    let days = get_trading_days("2025-02-10", "2025-02-16");
    assert_eq!(days, vec!["2025-02-10", "2025-02-11", "2025-02-12", "2025-02-13", "2025-02-14"]);
}

#[test]
fn trading_days_empty_for_weekend_only() {
    let days = get_trading_days("2025-02-15", "2025-02-16");
    assert!(days.is_empty());
}

#[test]
fn trading_days_single_day() {
    let days = get_trading_days("2025-02-10", "2025-02-10");
    assert_eq!(days, vec!["2025-02-10"]);
}

#[test]
fn excludes_good_friday_2026() {
    let days = get_trading_days("2026-03-30", "2026-04-06");
    assert!(!days.contains(&"2026-04-03".to_string()));
    assert!(days.contains(&"2026-04-02".to_string()));
    assert!(days.contains(&"2026-04-06".to_string()));
}

#[test]
fn excludes_mlk_day_2025() {
    let days = get_trading_days("2025-01-17", "2025-01-21");
    assert!(!days.contains(&"2025-01-20".to_string()));
}

#[test]
fn excludes_thanksgiving_2025() {
    let days = get_trading_days("2025-11-24", "2025-11-28");
    assert!(!days.contains(&"2025-11-27".to_string()));
}

#[test]
fn broken_dates_are_excluded() {
    let days = get_trading_days("2021-12-31", "2022-01-05");
    assert_eq!(days, vec!["2021-12-31", "2022-01-05"]);
}

#[test]
fn goog_pre_split() {
    assert_eq!(ratio("GOOG", day(2020, 1, 22)), 20.0);
}

#[test]
fn goog_post_split() {
    assert_eq!(ratio("GOOG", day(2023, 1, 1)), 1.0);
}

#[test]
fn aapl_before_both_splits() {
    assert_eq!(ratio("AAPL", day(2013, 1, 1)), 28.0); // 7 * 4
}

#[test]
fn aapl_between_splits() {
    assert_eq!(ratio("AAPL", day(2019, 1, 1)), 4.0);
}

#[test]
fn aapl_post_split() {
    assert_eq!(ratio("AAPL", day(2021, 1, 1)), 1.0);
}

#[test]
fn unknown_ticker_returns_one() {
    assert_eq!(ratio("XYZ", day(2020, 1, 1)), 1.0);
}

#[test]
fn reverse_split_ratio_is_a_fraction() {
    assert_eq!(split_ratio_for_date("GE", day(2021, 1, 4)), (1, 8));
}

#[test]
fn et_format_of_utc_instant() {
    let ts = chrono::Utc.with_ymd_and_hms(2025, 2, 12, 15, 7, 0).unwrap().timestamp();
    assert_eq!(EtFormat::utc(ts), "2025-02-12T10:07");
}

#[test]
fn et_format_from_rfc3339_and_fallback() {
    assert_eq!(EtFormat::from_rfc3339("2025-07-01T14:30:00Z"), "2025-07-01T10:30");
    assert_eq!(EtFormat::from_rfc3339("not a timestamp at all"), "not a timestamp ");
    assert_eq!(EtFormat::from_rfc3339("short"), "short");
}

#[test]
fn trade_days_same_day() {
    assert_eq!(trade_days("2025-01-15 10:00", "2025-01-15 15:00"), 0);
}

#[test]
fn trade_days_multi() {
    assert_eq!(trade_days("2025-01-10", "2025-01-13"), 3);
}

#[test]
fn trade_days_bad_input() {
    assert_eq!(trade_days("bad", "data"), 0);
}

#[test]
fn scan_days_counts_utc_dates() {
    let e = chrono::Utc.with_ymd_and_hms(2025, 1, 10, 23, 0, 0).unwrap().timestamp();
    let x = chrono::Utc.with_ymd_and_hms(2025, 1, 11, 1, 0, 0).unwrap().timestamp();
    assert_eq!(scan_days(e, x), 1);
    assert_eq!(scan_days(x, e), -1);
    assert_eq!(scan_days(i64::MAX, e), 0);
}

#[test]
fn saved_state_pruning() {
    let now = 1_000_000_000;
    assert!(is_prunable_state_file("state-AAPL-1.json", now - 11 * 86_400, now));
    assert!(!is_prunable_state_file("state-AAPL-1.json", now - 9 * 86_400, now));
    assert!(!is_prunable_state_file("latest-AAPL.json", 0, now));
    assert!(!is_prunable_state_file("state-AAPL-1.txt", 0, now));
}

fn make_bar(price: f64) -> OhlcBar {
    let c = (price * 100.0).round() as i64;
    OhlcBar { timestamp: 1_700_000_000, open: c, high: c + 100, low: c - 100, close: c, volume: 1000 }
}

#[test]
fn ratio_one_is_noop() {
    let mut bars = vec![make_bar(100.0)];
    let orig_close = bars[0].close;
    apply_split_adjustment(&mut bars, 1, 1);
    assert_eq!(bars[0].close, orig_close);
}

#[test]
fn ratio_four_scales_all_fields() {
    let mut bars = vec![make_bar(50.0)];
    apply_split_adjustment(&mut bars, 4, 1);
    assert_eq!(bars[0].open, 20000);
    assert_eq!(bars[0].high, 20400);
    assert_eq!(bars[0].low, 19600);
    assert_eq!(bars[0].close, 20000);
}

#[test]
fn empty_bars_is_noop() {
    let mut bars: Vec<OhlcBar> = vec![];
    apply_split_adjustment(&mut bars, 4, 1);
    assert!(bars.is_empty());
}

#[test]
fn reverse_split_rounds_down_to_a_tick() {
    let mut bars = vec![make_bar(8.05)];
    apply_split_adjustment(&mut bars, 1, 8);
    assert_eq!(bars[0].open, 100); // 805 / 8 = 100.625 cents
    assert_eq!(bars[0].volume, 1000);
}

#[test]
fn month_plan_finds_missing_days() {
    let days: Vec<String> = vec!["2024-05-01".into(), "2024-05-02".into(), "2024-05-03".into()];
    let cached: Vec<String> = vec!["2024-05-01".into(), "2024-05-02".into()];
    let p = plan_month_download(&days, &cached, true, &[false, false, false]);
    assert_eq!(p.missing_days, vec!["2024-05-03"]);
    assert!(p.delete_gex && p.build_gex);
    let p = plan_month_download(&days[..2], &cached, false, &[true, false]);
    assert_eq!(p.missing_days, vec!["2024-05-02"]);
    let p = plan_month_download(&days[..2], &cached, true, &[false, false]);
    assert!(p.missing_days.is_empty() && !p.delete_gex && !p.build_gex);
}

#[test]
fn months_group_consecutive_days() {
    let days: Vec<String> = vec!["2024-01-30".into(), "2024-01-31".into(), "2024-02-01".into()];
    let g = group_by_month(&days);
    assert_eq!(g, vec![vec!["2024-01-30".to_string(), "2024-01-31".to_string()], vec!["2024-02-01".to_string()]]);
}

#[test]
fn backtest_start_splits_after_warmup() {
    let c = StrategyConfig::default();
    let days = get_trading_days("2025-01-02", "2025-01-31");
    let start = chrono::NaiveDate::from_ymd_opt(2025, 1, 2).unwrap().num_days_from_ce();
    let r = backtest_start(&c, &days, start).unwrap();
    // twelve calendar days after 2025-01-02 is 2025-01-14
    assert_eq!(r.first_trading, start + 12);
    let k = days.iter().position(|d| d.as_str() >= "2025-01-14").unwrap();
    assert_eq!(r, BacktestStart { first_trading: start + 12, warmup_day_count: k });
    // a range inside the warmup leaves nothing to trade
    let short = get_trading_days("2025-01-02", "2025-01-10");
    assert_eq!(backtest_start(&c, &short, start), None);
}

#[test]
fn time_gate_outside_four_digit_years_passes() {
    let c = StrategyConfig::default();
    assert!(passes_time_gate(-8_334_601_228_800, &c));
    assert!(passes_time_gate(i64::MIN, &c));
}

#[test]
fn exit_marker_profit() {
    // a trade with net P&L +95 and a 10 % return, as the report formats it
    let net_pnl = 95.0_f64;
    let m = Marker::exit(2000, net_pnl >= 0.0, "+10.0%".to_string());
    assert_eq!(m.color, COLOR_WIN);
    assert!(m.text.contains("+10.0%"));
    assert_eq!(m.shape, "arrowDown");
    assert!(!is_entry_marker(&m));
}

#[test]
fn exit_marker_loss_is_red() {
    let m = Marker::exit(2000, false, "-3.5%".to_string());
    assert_eq!(m.color, COLOR_LOSS);
    assert_eq!(m.position, "aboveBar");
    assert_eq!(m.size, Some(2));
}

#[test]
fn period_display_takes_the_years() {
    assert_eq!(period_display("H1", "2018-01-01", "2022-01-01"), "H1 (2018–2022)");
    assert_eq!(period_display("FULL", "2018-01-01", "2025-06-30"), "FULL (2018–2025)");
}

#[test]
fn trading_day_texts_sort_as_days() {
    let days = get_trading_days("2024-12-20", "2025-01-10");
    let mut sorted = days.clone();
    sorted.sort();
    assert_eq!(days, sorted);
}
