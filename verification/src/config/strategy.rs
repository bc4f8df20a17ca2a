//! Strategy parameters with integer values: fixed indicator lengths, entry
//! time window, position-slot limits and the warmup length they imply.

use vstd::prelude::*;
use super::bar_counts::{BarIndex, IV_LOOKBACK_BARS_INDEX};
use super::bar_interval::{bars_per_day_1m_div_interval, stride_of, BAR_INTERVAL_MINUTES};
use crate::backtest::calendar::{texts, trading_days_between, trading_days_upto};
use crate::dates::{in_day_range, iso_day_text};

verus! {

/// Maximum days to expiry of the option chains fetched.
pub const OPTION_MAX_EXPIRY_DAYS: u32 = 60;
/// Strike range around spot fetched for options data, in basis points (5%).
pub const OPTION_STRIKE_RANGE_BPS: u32 = 500;

/// One-minute bars in a regular NYSE session (6.5 hours).
pub const BARS_PER_DAY: usize = 390;

pub const ATR_LENGTH: usize = 14;
pub const EMA_FAST_LEN: usize = 12;
pub const EMA_SLOW_LEN: usize = 26;
pub const DI_LENGTH: usize = 14;
pub const IV_LOOKBACK_BARS: usize = 50;
pub const IV_BASELINE_EMA_DAYS: usize = 5;
pub const TSI_LONG_LENGTH: usize = 13;
pub const TSI_SHORT_LENGTH: usize = 7;
pub const TSI_SIGNAL_LENGTH: usize = 7;
pub const HURST_WINDOW: usize = 128;
pub const HURST_MIN_PERSIST_BARS: u32 = 5;
pub const WALL_SMOOTH_HALFLIFE: usize = 2;
pub const ATR_REGIME_EMA_LEN: usize = 250;
pub const WB_MAX_BARS_SINCE_ABOVE: i32 = 24;

/// Ceiling of `a / b` for `b > 0`.
pub open spec fn ceil_div(a: int, b: int) -> int {
    (a + b - 1) / b
}

/// `x` clamped into `[lo, hi]`.
pub open spec fn clamp(x: int, lo: int, hi: int) -> int {
    if x < lo { lo } else if x > hi { hi } else { x }
}

/// Number of strike steps (of 2.5 units on a notional 250 spot) fetched around
/// spot: `ceil(range * 250 / 2.5)` clamped to `[10, 60]`.
pub fn option_strike_steps() -> (r: u32)
    ensures
        r == clamp(ceil_div(OPTION_STRIKE_RANGE_BPS as int, 100), 10, 60),
        r == 10,
{
    // range * 250 / 2.5 = (bps / 10000) * 100 = bps / 100
    let steps = (OPTION_STRIKE_RANGE_BPS + 99) / 100;
    if steps < 10 {
        10
    } else if steps > 60 {
        60
    } else {
        steps
    }
}

/// The largest of the minimum bar counts that the indicators need.
pub open spec fn min_indicator_bars_spec() -> int {
    let a = EMA_SLOW_LEN + 1;
    let b = IV_LOOKBACK_BARS + 1;
    let c = DI_LENGTH * 3;
    let d = TSI_LONG_LENGTH + TSI_SHORT_LENGTH + TSI_SIGNAL_LENGTH + 2;
    let ab = if a >= b { a } else { b };
    let cd = if c >= d { c } else { d };
    if ab >= cd { ab } else { cd }
}

/// Calendar days covering `td` trading days: `ceil(td * 7 / 5) + 5`.
pub open spec fn trading_to_calendar_spec(td: int) -> int {
    ceil_div(td * 7, 5) + 5
}

/// Trading days of GEX history needed to warm the indicators up.
pub open spec fn gex_trading_days_spec() -> int {
    let per_day = BARS_PER_DAY as int / stride_of(BAR_INTERVAL_MINUTES);
    let indicator_days = min_indicator_bars_spec() / per_day + 2;
    if indicator_days >= IV_BASELINE_EMA_DAYS as int { indicator_days } else { IV_BASELINE_EMA_DAYS as int }
}

/// Warmup days before the first trading day of a run.
pub struct WarmupSplit {
    /// Trading days of the warmup, as `YYYY-MM-DD` texts.
    pub gex_days: Vec<String>,
    /// First calendar day of the warmup (live uses it as the end of its first fetch phase).
    pub gex_boundary: i32,
}

/// Integer-valued strategy parameters.
#[derive(Debug, Clone, Copy, PartialEq, Eq)]
pub struct StrategyConfig {
    /// Max bars from spike to entry. 0 = use the global constant (50).
    pub iv_lookback_bars: i64,
    /// Max bars from spike when TSI is not oversold. 0 = disabled.
    pub elig_early_bars: i64,
    /// Entries allowed per trading day.
    pub max_entries_per_day: u32,
    /// Max concurrent open positions across all tickers.
    pub max_open_positions: u32,
    /// Half-life of the spread-gate smoother (0 = use the wall smoother's).
    pub spread_smooth_halflife: usize,
    /// Block entries before this Eastern time (hhmm). 0 = disabled.
    pub no_entry_before_et: u32,
    /// Block entries at or after this Eastern time (hhmm). 0 = disabled.
    pub no_entry_after_et: u32,
    /// Bars the narrow call wall may sit under its smoothed level before entry is refused.
    pub vf_cw_scw_persist_bars: u32,
    /// Max bars from spike for the call-wall rescue bypass.
    pub vf_cw_rescue_bars: i64,
    /// Max bars from spike for the IV-compression rescue.
    pub vf_compress_rescue_bars: i64,
    /// Rally cap: entries before this many bars from spike are exempt.
    pub vf_rally_min_bars: i64,
}

impl StrategyConfig {
    /// The default concurrent-position limit.
    pub fn default_max_open_positions() -> (r: u32)
        ensures
            r == 3,
    {
        3
    }

    /// The default parameters, as a value.
    pub open spec fn default_spec() -> StrategyConfig {
        StrategyConfig {
            iv_lookback_bars: 0,
            elig_early_bars: 0,
            max_entries_per_day: 10,
            max_open_positions: 3,
            spread_smooth_halflife: 25,
            no_entry_before_et: 1030,
            no_entry_after_et: 1500,
            vf_cw_scw_persist_bars: 6,
            vf_cw_rescue_bars: 0,
            vf_compress_rescue_bars: 0,
            vf_rally_min_bars: 0,
        }
    }

    /// The default parameters.
    pub fn default_config() -> (c: StrategyConfig)
        ensures
            c == StrategyConfig::default_spec(),
    {
        StrategyConfig {
            iv_lookback_bars: 0,
            elig_early_bars: 0,
            max_entries_per_day: 10,
            max_open_positions: Self::default_max_open_positions(),
            spread_smooth_halflife: 25,
            no_entry_before_et: 1030,
            no_entry_after_et: 1500,
            vf_cw_scw_persist_bars: 6,
            vf_cw_rescue_bars: 0,
            vf_compress_rescue_bars: 0,
            vf_rally_min_bars: 0,
        }
    }

    /// Whether an Eastern-time hhmm value lies in the allowed entry window.
    pub open spec fn in_window(self, hhmm: u32) -> bool {
        !(self.no_entry_before_et > 0 && hhmm < self.no_entry_before_et)
            && !(self.no_entry_after_et > 0 && hhmm >= self.no_entry_after_et)
    }

    /// Check that an Eastern-time hhmm value (e.g. 1030 for 10:30 AM) falls
    /// within the allowed entry window.
    pub fn in_entry_time_window(&self, hhmm: u32) -> (r: bool)
        ensures
            r == self.in_window(hhmm),
    {
        if self.no_entry_before_et > 0 && hhmm < self.no_entry_before_et {
            return false;
        }
        if self.no_entry_after_et > 0 && hhmm >= self.no_entry_after_et {
            return false;
        }
        true
    }

    /// Effective IV lookback window (bars): the configured value if positive,
    /// else the global constant.
    pub fn eff_iv_lookback_bars(&self) -> (r: BarIndex)
        ensures
            r == if self.iv_lookback_bars > 0 { self.iv_lookback_bars } else { IV_LOOKBACK_BARS_INDEX },
    {
        if self.iv_lookback_bars > 0 {
            self.iv_lookback_bars
        } else {
            IV_LOOKBACK_BARS_INDEX
        }
    }

    /// Max concurrent positions, clamped to at least one.
    pub fn max_open_slots(&self) -> (r: usize)
        ensures
            r as int == if self.max_open_positions == 0 { 1 } else { self.max_open_positions as int },
    {
        if self.max_open_positions == 0 {
            1
        } else {
            self.max_open_positions as usize
        }
    }

    /// Minimum number of strategy bars needed before indicators are reliable.
    pub fn min_indicator_bars(&self) -> (r: usize)
        ensures
            r == min_indicator_bars_spec(),
            r == 51,
    {
        let a = EMA_SLOW_LEN + 1;
        let b = IV_LOOKBACK_BARS + 1;
        let c = DI_LENGTH * 3;
        let d = TSI_LONG_LENGTH + TSI_SHORT_LENGTH + TSI_SIGNAL_LENGTH + 2;
        let ab = if a >= b { a } else { b };
        let cd = if c >= d { c } else { d };
        if ab >= cd { ab } else { cd }
    }

    /// Minimum GEX-matched signal bars needed during warmup.
    pub fn min_signal_bars(&self) -> (r: usize)
        ensures
            r == self.spread_smooth_halflife,
    {
        self.spread_smooth_halflife
    }

    /// Calendar days spanning `td` trading days.
    pub fn trading_to_calendar(td: usize) -> (r: u32)
        requires
            trading_to_calendar_spec(td as int) <= u32::MAX,
        ensures
            r == trading_to_calendar_spec(td as int),
    {
        let c = (td as u64 * 7 + 4) / 5;
        (c + 5) as u32
    }

    fn gex_trading_days(&self) -> (r: usize)
        ensures
            r == gex_trading_days_spec(),
            r == 5,
    {
        let bars_per_day = bars_per_day_1m_div_interval(BARS_PER_DAY, BAR_INTERVAL_MINUTES);
        assert(390int / 15 == 26);
        assert(51int / 26 == 1);
        let indicator_days = self.min_indicator_bars() / bars_per_day + 2;
        if indicator_days >= IV_BASELINE_EMA_DAYS { indicator_days } else { IV_BASELINE_EMA_DAYS }
    }

    /// Trading days of GEX history for the warmup phase.
    pub fn warmup_gex_trading_days(&self) -> (r: u32)
        ensures
            r == gex_trading_days_spec(),
    {
        self.gex_trading_days() as u32
    }

    /// Calendar days of warmup (GEX and bars).
    pub fn warmup_gex_calendar_days(&self) -> (r: u32)
        ensures
            r == trading_to_calendar_spec(gex_trading_days_spec()),
            r == 12,
    {
        Self::trading_to_calendar(self.gex_trading_days())
    }

    /// Split off the warmup trading days before `trading_start` (the first
    /// trading day after warmup). `trading_start` itself is not part of the warmup.
    pub fn warmup_day_split(&self, trading_start: i32) -> (w: WarmupSplit)
        requires
            in_day_range(trading_start - 12),
            in_day_range(trading_start as int),
        ensures
            w.gex_boundary == trading_start - trading_to_calendar_spec(gex_trading_days_spec()),
            w.gex_boundary == trading_start - 12,
            texts(w.gex_days@) == trading_days_upto(w.gex_boundary as int, trading_start as int),
    {
        let cal = self.warmup_gex_calendar_days() as i32;
        let gex_begin = trading_start - cal;
        WarmupSplit { gex_days: trading_days_between(gex_begin, trading_start - 1), gex_boundary: gex_begin }
    }
}

impl Default for StrategyConfig {
    fn default() -> (c: StrategyConfig)
        ensures
            c == StrategyConfig::default_spec(),
    {
        StrategyConfig::default_config()
    }
}

/// The warmup ends strictly before the trading start and begins at the boundary:
/// every warmup day lies in `[gex_boundary, trading_start)`.
pub proof fn law_warmup_precedes_start(w: WarmupSplit, trading_start: i32, i: int)
    requires
        texts(w.gex_days@) == trading_days_upto(w.gex_boundary as int, trading_start as int),
        0 <= i < w.gex_days@.len(),
    ensures
        exists|d: int| w.gex_boundary <= d < trading_start && w.gex_days@[i]@ == #[trigger] iso_day_text(d as i32),
{
    crate::backtest::calendar::law_trading_days_within(w.gex_boundary as int, trading_start as int, i);
    assert(texts(w.gex_days@)[i] == w.gex_days@[i]@);
}

} // verus!
