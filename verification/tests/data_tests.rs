use chrono::TimeZone;
use gex_strategy::config::bar_interval::BAR_INTERVAL_MINUTES;
use gex_strategy::config::tickers::Ticker;
use gex_strategy::data::bin_cache::{
    bars_parquet_path, cached_bar_dates, gex_parquet_path, gex_parquet_path_versioned,
    month_epoch_range, remove_month_bars, remove_month_gex, try_remove_month_bars,
};
use gex_strategy::data::bin_cache::{
    append_day_bars, append_month_gex, forget_processed, migration_new_dates, remember_processed,
};
use gex_strategy::data::cache::{cache_dir, day_dir_for, raw_path};
use gex_strategy::data::hist::{
    bars_are_synthesized, day_epoch_range, load_day_bars_and_gex, load_month_gex, resample_bars, try_day_epoch_range,
};
use gex_strategy::data::mem_cache::{
    evict_gex, get_bars, get_bars_15m, get_gex, put_bars, put_bars_15m, put_bars_bulk, put_gex,
    put_gex_bulk, MemCache,
};
use gex_strategy::data::parquet_meta::{read_metadata_set, set_to_csv};
use gex_strategy::data::paths::{data_dir, join, list_backtest_tickers, project_root, sort_tickers_all_first};
use gex_strategy::data::store::Store;
use gex_strategy::data::thetadata::{
    is_retryable, retry_step, right_is_call, theta_retry_step, RetryAction, RetryStep,
};
use gex_strategy::data::thetadata_live::{
    get_gex_status, get_live_gex_profile, new_live_gex, GexPhase,
};
use gex_strategy::types::OhlcBar;

fn bar(minutes_offset: i64, o: f64, h: f64, l: f64, c: f64, v: f64) -> OhlcBar {
    let t0 = chrono::Utc.with_ymd_and_hms(2025, 1, 10, 14, 30, 0).unwrap().timestamp();
    let cents = |x: f64| (x * 100.0).round() as i64;
    OhlcBar {
        timestamp: t0 + minutes_offset * 60,
        open: cents(o),
        high: cents(h),
        low: cents(l),
        close: cents(c),
        volume: v as u64,
    }
}

#[test]
fn raw_path_structure() {
    let p = raw_path("theta", "GOOGL", "2024-06-01");
    let s = p.as_str();
    assert!(s.contains("GOOGL"));
    assert!(s.contains("2024-06-01"));
    assert!(s.ends_with("raw_theta.json.gz"));
}

#[test]
fn cache_layout_paths() {
    assert_eq!(project_root(), ".");
    assert_eq!(data_dir(), "./data");
    assert_eq!(cache_dir(), "./data/downloads/backtest");
    assert_eq!(day_dir_for("live", "MSFT", "2025-03-04"), "./data/downloads/live/MSFT/2025-03/2025-03-04");
    assert_eq!(bars_parquet_path("AAPL"), "./data/unified/AAPL/bars_1m.parquet");
    assert_eq!(gex_parquet_path("AAPL"), "./data/unified/AAPL/gex_15m_v5.parquet");
    assert_eq!(gex_parquet_path_versioned("KO", 12), "./data/unified/KO/gex_15m_v12.parquet");
    assert_eq!(join("a/", "b"), "a/b");
    assert_eq!(join("a", "/abs"), "/abs");
    assert_eq!(join("", "b"), "b");
}

#[test]
fn resample_passthrough_at_1m() {
    let bars = vec![bar(0, 100.0, 101.0, 99.0, 100.5, 100.0)];
    let r = resample_bars(&bars, 1);
    assert_eq!(r.len(), 1);
    assert!((r[0].open as f64 / 100.0 - 100.0).abs() < 0.01);
}

#[test]
fn resample_empty() {
    let r = resample_bars(&[], BAR_INTERVAL_MINUTES);
    assert!(r.is_empty());
}

#[test]
fn resample_aggregates_ohlcv() {
    let bars = vec![
        bar(0, 100.0, 105.0, 99.0, 102.0, 100.0),
        bar(1, 102.0, 106.0, 101.0, 104.0, 200.0),
        bar(2, 104.0, 104.5, 100.0, 103.0, 150.0),
    ];
    let r = resample_bars(&bars, BAR_INTERVAL_MINUTES);
    assert_eq!(r.len(), 1);
    assert_eq!(r[0].open, 10000);
    assert_eq!(r[0].high, 10600);
    assert_eq!(r[0].low, 9900);
    assert_eq!(r[0].close, 10300);
    assert_eq!(r[0].volume, 450);
}

#[test]
fn resample_multiple_buckets() {
    let step = i64::from(BAR_INTERVAL_MINUTES);
    let bars = vec![
        bar(0, 100.0, 101.0, 99.0, 100.0, 10.0),
        bar(step, 100.0, 102.0, 98.0, 101.0, 20.0),
    ];
    let r = resample_bars(&bars, BAR_INTERVAL_MINUTES);
    assert_eq!(r.len(), 2);
}

#[test]
fn resample_bucket_starts_at_interval_and_keeps_volume() {
    // 14:30 UTC is a bucket boundary for 15-minute buckets; 14:44 is still inside, 14:45 is not.
    let bars = vec![
        bar(0, 1.0, 1.0, 1.0, 1.0, 1.0),
        bar(14, 2.0, 3.0, 0.5, 2.0, 2.0),
        bar(15, 4.0, 4.0, 4.0, 4.0, 4.0),
    ];
    let r = resample_bars(&bars, 15);
    assert_eq!(r.len(), 2);
    assert_eq!(r[0].timestamp, bars[0].timestamp);
    assert_eq!((r[0].high, r[0].low, r[0].close), (300, 50, 200));
    assert_eq!(r[1].timestamp, bars[2].timestamp);
    let total: u64 = r.iter().map(|b| b.volume).sum();
    assert_eq!(total, 7);
}

#[test]
fn resample_negative_times_round_toward_zero() {
    let mk = |t: i64| OhlcBar { timestamp: t, open: 1, high: 1, low: 1, close: 1, volume: 1 };
    // With truncating remainders, -1 falls in the bucket [0, 120).
    let r = resample_bars(&[mk(-1), mk(119), mk(120)], 2);
    assert_eq!(r.len(), 2);
    assert_eq!(r[0].volume, 2);
}

#[test]
fn sort_places_all_first() {
    let mut v: Vec<String> = vec!["GOOG".into(), "ALL".into(), "AAPL".into()];
    sort_tickers_all_first(&mut v);
    assert_eq!(v, vec!["ALL", "AAPL", "GOOG"]);
}

#[test]
fn sort_no_all() {
    let mut v: Vec<String> = vec!["MSFT".into(), "AAPL".into()];
    sort_tickers_all_first(&mut v);
    assert_eq!(v, vec!["AAPL", "MSFT"]);
}

#[test]
fn sort_empty() {
    let mut v: Vec<String> = vec![];
    sort_tickers_all_first(&mut v);
    assert!(v.is_empty());
}

#[test]
fn list_backtest_tickers_reads_result_names() {
    let names: Vec<String> = vec![
        "latest-MSFT.json".into(),
        "latest.json".into(),
        "latest-ALL.json".into(),
        "notes.txt".into(),
        "latest-AAPL.json".into(),
    ];
    assert_eq!(list_backtest_tickers(&names), vec!["ALL", "AAPL", "MSFT"]);
}

#[test]
fn month_range_covers_the_month() {
    let (s, e) = month_epoch_range("2024-02").unwrap();
    assert_eq!(s, chrono::Utc.with_ymd_and_hms(2024, 2, 1, 0, 0, 0).unwrap().timestamp());
    assert_eq!(e, chrono::Utc.with_ymd_and_hms(2024, 3, 1, 0, 0, 0).unwrap().timestamp());
    let (s, e) = month_epoch_range("2023-12").unwrap();
    assert_eq!(e - s, 31 * 86400);
    assert!(month_epoch_range("2024-13").is_none());
    assert!(month_epoch_range("junk").is_none());
}

#[test]
fn remove_month_strips_dates_and_bars() {
    let (s, e) = month_epoch_range("2024-02").unwrap();
    let mk = |t: i64| OhlcBar { timestamp: t, open: 1, high: 1, low: 1, close: 1, volume: 1 };
    let mut dates: Vec<String> = vec!["2024-01-31".into(), "2024-02-01".into(), "2024-02-29".into(), "2024-03-01".into()];
    let mut bars = vec![mk(s - 60), mk(s), mk(e - 60), mk(e)];
    assert!(remove_month_bars(&mut dates, &mut bars, "2024-02"));
    assert_eq!(dates, vec!["2024-01-31", "2024-03-01"]);
    assert_eq!(bars.iter().map(|b| b.timestamp).collect::<Vec<_>>(), vec![s - 60, e]);
    assert!(!remove_month_bars(&mut dates, &mut bars, "2024-02"));

    let mut months: Vec<String> = vec!["2024-01".into(), "2024-02".into()];
    let mut entries = vec![mk(s + 900)];
    assert!(remove_month_gex(&mut months, &mut entries, "2024-02"));
    assert_eq!(months, vec!["2024-01"]);
    assert!(entries.is_empty());

    let mut d2 = dates.clone();
    let mut b2 = bars.clone();
    assert_eq!(try_remove_month_bars(&mut d2, &mut b2, "bad"), None);
    assert_eq!(d2, dates);
}

#[test]
fn cached_sets_read_once() {
    let mut cache: Store<Ticker, Vec<String>> = Store::new();
    let first = cached_bar_dates(&mut cache, Ticker::AAPL, || vec!["2024-01-02".to_string()]);
    assert_eq!(first, vec!["2024-01-02"]);
    let second = cached_bar_dates(&mut cache, Ticker::AAPL, || panic!("must come from the cache"));
    assert_eq!(second, vec!["2024-01-02"]);
    let other = cached_bar_dates(&mut cache, Ticker::MSFT, Vec::new);
    assert!(other.is_empty());
}

#[test]
fn mem_cache_get_put_evict() {
    let mut c: MemCache<Vec<i64>> = MemCache::new();
    assert!(get_gex(&c, Ticker::AAPL, "2024-01").is_none());
    put_gex(&mut c, Ticker::AAPL, "2024-01", vec![1, 2]);
    put_gex(&mut c, Ticker::MSFT, "2024-01", vec![3]);
    assert_eq!(get_gex(&c, Ticker::AAPL, "2024-01"), Some(&vec![1, 2]));
    put_gex(&mut c, Ticker::AAPL, "2024-01", vec![9]);
    assert_eq!(get_gex(&c, Ticker::AAPL, "2024-01"), Some(&vec![9]));
    evict_gex(&mut c, Ticker::AAPL, "2024-01");
    assert!(get_gex(&c, Ticker::AAPL, "2024-01").is_none());
    assert_eq!(get_gex(&c, Ticker::MSFT, "2024-01"), Some(&vec![3]));

    let b = bar(0, 1.0, 1.0, 1.0, 1.0, 5.0);
    put_bars(&mut c, Ticker::KO, "2025-01-10", vec![b]);
    assert_eq!(get_bars(&c, Ticker::KO, "2025-01-10").unwrap().len(), 1);
    assert!(get_bars_15m(&c, Ticker::KO, "2025-01-10").is_none());
    put_bars_15m(&mut c, Ticker::KO, "2025-01-10", vec![]);
    assert!(get_bars_15m(&c, Ticker::KO, "2025-01-10").unwrap().is_empty());

    put_bars_bulk(&mut c, vec![
        (Ticker::KO, "2025-01-11".to_string(), vec![b, b]),
        (Ticker::KO, "2025-01-11".to_string(), vec![b]),
    ]);
    assert_eq!(get_bars(&c, Ticker::KO, "2025-01-11").unwrap().len(), 1);
    put_gex_bulk(&mut c, vec![(Ticker::GS, "2024-05".to_string(), vec![7])]);
    assert_eq!(get_gex(&c, Ticker::GS, "2024-05"), Some(&vec![7]));
}

#[test]
fn load_day_bars_reads_once_and_memoizes_resampled() {
    let mut c: MemCache<()> = MemCache::new();
    let mut loaded: Store<Ticker, bool> = Store::new();
    let day1 = vec![bar(0, 1.0, 2.0, 0.5, 1.5, 10.0), bar(1, 1.5, 2.5, 1.0, 2.0, 20.0)];
    let mut next_day = bar(0, 3.0, 3.0, 3.0, 3.0, 1.0);
    next_day.timestamp += 86400;
    let mut all = day1.clone();
    all.push(next_day);

    let (b1, b15) = load_day_bars_and_gex(&mut c, &mut loaded, Ticker::AAPL, "2025-01-10", || Some(all.clone()));
    assert_eq!(b1, day1);
    assert_eq!(b15.len(), 1);
    assert_eq!(b15[0].volume, 30);
    assert_eq!(get_bars(&c, Ticker::AAPL, "2025-01-11").unwrap().len(), 1);

    let (n1, n15) = load_day_bars_and_gex(&mut c, &mut loaded, Ticker::AAPL, "2025-01-11", || panic!("already read"));
    assert_eq!(n1.len(), 1);
    assert_eq!(n15.len(), 1);

    let (e1, e15) = load_day_bars_and_gex(&mut c, &mut loaded, Ticker::AAPL, "2025-01-12", || panic!("already read"));
    assert!(e1.is_empty() && e15.is_empty());
}

#[test]
fn load_month_gex_populates_months_once() {
    let mut c: MemCache<Vec<i64>> = MemCache::new();
    let mut loaded: Store<Ticker, bool> = Store::new();
    let got = load_month_gex(&mut c, &mut loaded, Ticker::JPM, "2024-03-15", || {
        Some(vec![("2024-03".to_string(), vec![1]), ("2024-04".to_string(), vec![2])])
    });
    assert_eq!(got, Some(&vec![1]));
    let got = load_month_gex(&mut c, &mut loaded, Ticker::JPM, "2024-04-01", || panic!("already read"));
    assert_eq!(got, Some(&vec![2]));
    let got = load_month_gex(&mut c, &mut loaded, Ticker::JPM, "2024-05-01", || panic!("already read"));
    assert!(got.is_none());
}

#[test]
fn footer_sets_roundtrip() {
    let set: Vec<String> = vec!["2024-01-03".into(), "2024-01-02".into(), "2024-07-04".into()];
    let csv = set_to_csv(&set);
    assert_eq!(csv, "2024-01-02,2024-01-03,2024-07-04");
    let back = read_metadata_set(Some(&csv));
    assert_eq!(back, vec!["2024-01-02", "2024-01-03", "2024-07-04"]);
    assert!(read_metadata_set(Some("")).is_empty());
    assert!(read_metadata_set(None).is_empty());
    assert_eq!(read_metadata_set(Some("a,,a,b")), vec!["a", "", "b"]);
}

#[test]
fn theta_retry_rules() {
    assert!(right_is_call("CALL"));
    assert!(right_is_call("call"));
    assert!(right_is_call("C"));
    assert!(!right_is_call("c"));
    assert!(!right_is_call("PUT"));
    assert!(is_retryable("HTTP 503 Service Unavailable"));
    assert!(!is_retryable("HTTP 404"));
    assert_eq!(retry_step(0, "HTTP 404"), RetryStep::Fail);
    assert_eq!(retry_step(1, "HTTP 404"), RetryStep::RetryAfterSecs(2));
    assert_eq!(retry_step(0, "429 Too Many Requests"), RetryStep::RetryAfterSecs(15));
    assert_eq!(retry_step(5, "429"), RetryStep::RetryAfterSecs(120));
    assert_eq!(retry_step(2, "Connection refused"), RetryStep::RetryAfterSecs(20));
    assert_eq!(retry_step(5, "500"), RetryStep::RetryAfterSecs(32));
}

#[test]
fn day_epoch_range_covers_one_utc_day() {
    let (start, end) = day_epoch_range("2025-01-10");
    assert_eq!(start, 1_736_467_200);
    assert_eq!(end, start + 86_400);
    assert_eq!(day_epoch_range("1970-01-01"), (0, 86_400));
}

#[test]
fn try_day_epoch_range_rejects_bad_dates() {
    assert_eq!(try_day_epoch_range("2025-13-01"), None);
    assert_eq!(try_day_epoch_range("not a date"), None);
    assert_eq!(try_day_epoch_range("2024-02-29"), Some((1_709_164_800, 1_709_251_200)));
}

#[test]
fn live_gex_starts_idle_and_empty() {
    let s = new_live_gex::<u32>();
    let st = get_gex_status(&s);
    assert_eq!(st.phase, GexPhase::Idle);
    assert_eq!(st.oi_updates, 0);
    assert_eq!(st.accel_total, 0);
    assert_eq!(st.last_error, None);
    assert_eq!(get_live_gex_profile(&s, Ticker::AAPL), None);
}

#[test]
fn live_gex_commit_with_profiles_goes_live() {
    let mut s = new_live_gex::<u32>();
    s.mark_fetching();
    assert_eq!(get_gex_status(&s).phase, GexPhase::Fetching);
    let mut p: Store<Ticker, u32> = Store::new();
    p.put(Ticker::AAPL, 7);
    p.put(Ticker::MSFT, 9);
    let no_data = s.commit_poll(p, 120, 340, 1_700_000_000_000, 3);
    assert!(!no_data);
    let st = get_gex_status(&s);
    assert_eq!(st.phase, GexPhase::Live);
    assert_eq!(st.oi_updates, 120);
    assert_eq!(st.greeks_updates, 340);
    assert_eq!(st.last_poll_ms, 1_700_000_000_000);
    assert_eq!(st.accel_total, 2);
    assert_eq!(st.accel_ready, 2);
    assert_eq!(st.last_error, None);
    assert_eq!(get_live_gex_profile(&s, Ticker::MSFT), Some(&9));
    assert_eq!(get_live_gex_profile(&s, Ticker::GOOG), None);
}

#[test]
fn live_gex_commit_without_profiles_is_an_error() {
    let mut s = new_live_gex::<u32>();
    let no_data = s.commit_poll(Store::new(), 0, 0, 5, 4);
    assert!(no_data);
    assert_eq!(s.phase, GexPhase::Error);
    assert_eq!(
        s.last_error.as_deref(),
        Some("0/4 tickers returned GEX data — walls unavailable")
    );
    assert_eq!(get_live_gex_profile(&s, Ticker::AAPL), None);
}

#[test]
fn live_gex_failures_and_closed_market() {
    let mut s = new_live_gex::<u32>();
    s.mark_fetching();
    s.record_poll_failure("Initial poll failed: timeout".to_string(), true);
    assert_eq!(s.phase, GexPhase::Fetching);
    assert_eq!(s.last_error.as_deref(), Some("Initial poll failed: timeout"));
    s.record_poll_failure("boom".to_string(), false);
    assert_eq!(s.phase, GexPhase::Error);
    s.mark_market_closed();
    assert_eq!(s.phase, GexPhase::Idle);
    assert_eq!(
        s.last_error.as_deref(),
        Some("Market closed — GEX will start at market open")
    );
}

fn stamp(ts: i64, close: i64) -> OhlcBar {
    OhlcBar { timestamp: ts, open: close, high: close, low: close, close, volume: 1 }
}

#[test]
fn append_day_bars_marks_date_and_sorts() {
    let mut dates = vec!["2025-01-09".to_string()];
    let mut bars = vec![stamp(100, 1), stamp(300, 3)];
    let changed = append_day_bars(&mut dates, &mut bars, "2025-01-10", vec![stamp(200, 2), stamp(100, 9)]);
    assert!(changed);
    assert_eq!(dates, vec!["2025-01-09".to_string(), "2025-01-10".to_string()]);
    let got: Vec<(i64, i64)> = bars.iter().map(|b| (b.timestamp, b.close)).collect();
    // stable: the bar already cached at 100 stays ahead of the new one
    assert_eq!(got, vec![(100, 1), (100, 9), (200, 2), (300, 3)]);
    // a processed date changes nothing
    assert!(!append_day_bars(&mut dates, &mut bars, "2025-01-10", vec![stamp(50, 5)]));
    assert_eq!(bars.len(), 4);
}

#[test]
fn append_day_bars_records_empty_holiday() {
    let mut dates: Vec<String> = Vec::new();
    let mut bars = vec![stamp(10, 1)];
    assert!(append_day_bars(&mut dates, &mut bars, "2025-01-01", Vec::new()));
    assert_eq!(dates, vec!["2025-01-01".to_string()]);
    assert_eq!(bars.len(), 1);
}

#[test]
fn append_month_gex_skips_known_times() {
    let mut months = vec!["2025-01".to_string()];
    let mut entries = vec![stamp(300, 3), stamp(100, 1)];
    let changed = append_month_gex(
        &mut months,
        &mut entries,
        "2025-02",
        vec![stamp(100, 7), stamp(200, 2), stamp(200, 4)],
    );
    assert!(changed);
    assert_eq!(months, vec!["2025-01".to_string(), "2025-02".to_string()]);
    let got: Vec<(i64, i64)> = entries.iter().map(|b| (b.timestamp, b.close)).collect();
    assert_eq!(got, vec![(100, 1), (200, 2), (200, 4), (300, 3)]);
    assert!(!append_month_gex(&mut months, &mut entries, "2025-02", vec![stamp(1, 1)]));
    assert_eq!(entries.len(), 4);
}

#[test]
fn migration_takes_each_new_well_named_day_once() {
    let done = vec!["2024-03-01".to_string()];
    let walk: Vec<(String, String)> = vec![
        ("2024-03".to_string(), "2024-03-01".to_string()),
        ("2024-03".to_string(), "2024-03-04".to_string()),
        ("2024-03".to_string(), "2024-04-01".to_string()),
        ("2024-03".to_string(), "2024-03-4".to_string()),
        ("1999-12".to_string(), "1999-12-31".to_string()),
        ("tmp".to_string(), "tmp-2024-03".to_string()),
        ("2024-03".to_string(), "2024-03-04".to_string()),
        ("2024-04".to_string(), "2024-04-01".to_string()),
    ];
    assert_eq!(
        migration_new_dates(&done, &walk),
        vec!["2024-03-04".to_string(), "2024-04-01".to_string()]
    );
}

#[test]
fn bars_are_synthesized_true() {
    let bars = vec![OhlcBar { timestamp: 1000, open: 5000, high: 5000, low: 5000, close: 5000, volume: 10 }];
    assert!(bars_are_synthesized(&bars));
}

#[test]
fn bars_are_synthesized_false() {
    let bars = vec![OhlcBar { timestamp: 1000, open: 5000, high: 5100, low: 4900, close: 5000, volume: 10 }];
    assert!(!bars_are_synthesized(&bars));
}

#[test]
fn bars_are_synthesized_empty() {
    assert!(!bars_are_synthesized(&[]));
}

#[test]
fn appended_date_is_served_from_the_cache() {
    let mut cache: Store<Ticker, Vec<String>> = Store::new();
    let first = cached_bar_dates(&mut cache, Ticker::AAPL, || vec!["2025-01-09".to_string()]);
    assert_eq!(first, vec!["2025-01-09".to_string()]);
    let mut dates = first.clone();
    let mut bars: Vec<OhlcBar> = Vec::new();
    assert!(append_day_bars(&mut dates, &mut bars, "2025-01-10", Vec::new()));
    remember_processed(&mut cache, Ticker::AAPL, &dates);
    let served = cached_bar_dates(&mut cache, Ticker::AAPL, || panic!("served from the cache"));
    assert!(served.contains(&"2025-01-10".to_string()));
    forget_processed(&mut cache, Ticker::AAPL);
    let reread = cached_bar_dates(&mut cache, Ticker::AAPL, || vec!["2025-01-09".to_string()]);
    assert_eq!(reread, vec!["2025-01-09".to_string()]);
}

#[test]
fn theta_retry_loop_makes_at_most_six_attempts() {
    assert_eq!(theta_retry_step(0, None), RetryAction::Succeed);
    assert_eq!(theta_retry_step(0, Some("HTTP 404 bad request")), RetryAction::FailNow);
    assert_eq!(theta_retry_step(0, Some("HTTP 429 Too Many Requests")), RetryAction::RetryAfter { attempt: 1, secs: 15 });
    assert_eq!(theta_retry_step(4, Some("Connection refused")), RetryAction::RetryAfter { attempt: 5, secs: 40 });
    assert_eq!(theta_retry_step(5, Some("Connection refused")), RetryAction::GiveUpAfter { secs: 40 });
    // a run of connection failures from the first attempt
    let mut attempt = 0;
    let mut made = 1;
    loop {
        match theta_retry_step(attempt, Some("connection reset")) {
            RetryAction::RetryAfter { attempt: a, .. } => {
                attempt = a;
                made += 1;
            }
            RetryAction::GiveUpAfter { .. } => break,
            other => panic!("unexpected {:?}", other),
        }
    }
    assert_eq!(made, 6);
}
