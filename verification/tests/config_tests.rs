use chrono::Datelike;
use gex_strategy::config::bar_interval::{
    bars_per_day_1m_div_interval, minutes_stride_usize, strategy_bars_from_1m_count,
    BAR_INTERVAL_MINUTES,
};
use gex_strategy::config::strategy::{
    StrategyConfig, ATR_LENGTH, DI_LENGTH, EMA_FAST_LEN, EMA_SLOW_LEN, IV_LOOKBACK_BARS,
};
use gex_strategy::config::tickers::{parse_ticker_list, Ticker};
use gex_strategy::backtest::sweep::build_sweep_grid;
use gex_strategy::text::trim_text;
use gex_strategy::config::{ibkr_port, parse_u16, DEFAULT_IBKR_PORT};

#[test]
fn strategy_bars_from_1m_count_divides_by_interval() {
    assert_eq!(strategy_bars_from_1m_count(45, 15), 3);
    assert_eq!(strategy_bars_from_1m_count(44, 15), 2);
    assert_eq!(strategy_bars_from_1m_count(0, BAR_INTERVAL_MINUTES), 0);
}

#[test]
fn bars_per_day_1m_div_interval_matches_stride() {
    let per_day = bars_per_day_1m_div_interval(390, BAR_INTERVAL_MINUTES);
    assert_eq!(per_day, 390 / minutes_stride_usize(BAR_INTERVAL_MINUTES).max(1));
}

#[test]
fn indicator_constants_sane() {
    assert!(ATR_LENGTH > 0);
    assert!(EMA_FAST_LEN > 0);
    assert!(EMA_FAST_LEN < EMA_SLOW_LEN);
    assert!(DI_LENGTH > 0);
    assert!(IV_LOOKBACK_BARS > 0);
}

#[test]
fn as_str_roundtrip() {
    for &t in Ticker::ALL.iter() {
        let s = t.as_str();
        assert_eq!(Ticker::from_str_opt(s), Some(t));
    }
}

#[test]
fn from_str_unknown() {
    assert_eq!(Ticker::from_str_opt("ZZZZ"), None);
}

#[test]
fn display_matches_as_str() {
    assert_eq!(Ticker::AAPL.to_display_string(), "AAPL");
    assert_eq!(Ticker::JPM.to_display_string(), "JPM");
}

#[test]
fn from_str_trait() {
    let t: Ticker = "GOOG".parse().unwrap();
    assert_eq!(t, Ticker::GOOG);
    assert!("INVALID".parse::<Ticker>().is_err());
}

#[test]
fn strategy_subset_of_all() {
    for t in Ticker::STRATEGY.iter() {
        assert!(Ticker::ALL.contains(t), "{:?} in STRATEGY but not ALL", t);
    }
}

#[test]
fn warmup_day_split_phases_are_contiguous_and_non_overlapping() {
    let c = StrategyConfig::default();
    let trading_start = chrono::NaiveDate::from_ymd_opt(2024, 6, 3).unwrap();
    let split = c.warmup_day_split(trading_start.num_days_from_ce());

    assert!(!split.gex_days.is_empty(), "warmup must have days");

    let first_p2 = split.gex_days.first().unwrap();
    let boundary = chrono::NaiveDate::from_num_days_from_ce_opt(split.gex_boundary).unwrap();
    let boundary_str = boundary.format("%Y-%m-%d").to_string();
    assert!(boundary_str <= *first_p2, "gex_boundary must be <= first gex trading day");

    let start_str = trading_start.format("%Y-%m-%d").to_string();
    assert!(split.gex_days.last().unwrap() < &start_str, "warmup must exclude trading_start");
}

#[test]
fn warmup_day_split_deterministic_across_dates() {
    let c = StrategyConfig::default();
    let dates = [
        chrono::NaiveDate::from_ymd_opt(2024, 6, 3).unwrap(),
        chrono::NaiveDate::from_ymd_opt(2025, 3, 10).unwrap(),
        chrono::NaiveDate::from_ymd_opt(2023, 1, 9).unwrap(),
    ];
    for d in dates {
        let a = c.warmup_day_split(d.num_days_from_ce());
        let b = c.warmup_day_split(d.num_days_from_ce());
        assert_eq!(a.gex_days, b.gex_days, "p2 mismatch for {d}");
        assert_eq!(a.gex_boundary, b.gex_boundary, "boundary mismatch for {d}");
    }
}

#[test]
fn port_parsing_falls_back_to_default() {
    assert_eq!(parse_u16("4001"), Some(4001));
    assert_eq!(parse_u16("+80"), Some(80));
    assert_eq!(parse_u16("70000"), None);
    assert_eq!(parse_u16(""), None);
    assert_eq!(ibkr_port(Some("bad")), DEFAULT_IBKR_PORT);
    assert_eq!(ibkr_port(Some("7497")), 7497);
    assert_eq!(ibkr_port(None), DEFAULT_IBKR_PORT);
}

#[test]
fn raw_wide_path_names_version() {
    let p = Ticker::AAPL.raw_wide_path("backtest", "2024-06-03");
    assert_eq!(p, "./data/downloads/backtest/AAPL/2024-06/2024-06-03/raw_options_wide_v5.json.gz");
}

#[test]
fn ticker_lists_parse_and_report_unknown() {
    assert_eq!(parse_ticker_list("AAPL, MSFT ,KO"), Ok(vec![Ticker::AAPL, Ticker::MSFT, Ticker::KO]));
    assert_eq!(parse_ticker_list("AAPL,XYZ ,QQQ"), Err("XYZ".to_string()));
    assert_eq!(parse_ticker_list(""), Err("".to_string()));
    assert_eq!(trim_text("\u{3000} a b\t\n"), "a b");
}

#[test]
fn sweep_grid_is_the_cartesian_product() {
    let specs = vec![("a".to_string(), vec![1.0, 2.0]), ("b".to_string(), vec![10.0, 20.0, 30.0])];
    let g = build_sweep_grid(&specs);
    assert_eq!(g.len(), 6);
    assert_eq!(g[0], vec![("a".to_string(), 1.0), ("b".to_string(), 10.0)]);
    assert_eq!(g[5], vec![("a".to_string(), 2.0), ("b".to_string(), 30.0)]);
    let none: Vec<(String, Vec<f64>)> = vec![];
    assert_eq!(build_sweep_grid(&none), vec![Vec::<(String, f64)>::new()]);
}

#[test]
fn default_persist_bars_is_six() {
    assert_eq!(StrategyConfig::default().vf_cw_scw_persist_bars, 6);
}
