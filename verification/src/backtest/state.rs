//! Chart annotations saved with backtest results: markers, spike windows and
//! per-bar tooltips.

use vstd::prelude::*;
use vstd::string::StringSliceAdditionalSpecFns;
use crate::text::{seq_starts_with, starts_with, str_eq};

verus! {

/// A chart marker (arrow, square or diamond with a label) at a bar time.
#[derive(Debug)]
pub struct Marker {
    pub time: i64,
    pub position: String,
    pub color: String,
    pub shape: String,
    pub text: String,
    pub size: Option<u32>,
}

/// Bar-time span `[start, end]` of an IV spike window; `end == 0` while open.
#[derive(Debug, Clone, Copy, PartialEq, Eq)]
pub struct SpikeWindow {
    pub start: i64,
    pub end: i64,
}

/// Tooltip lines shown on one bar.
#[derive(Debug)]
pub struct BarTooltip {
    pub time: i64,
    pub lines: Vec<String>,
}

/// A chart item stamped with a bar time (Unix seconds).
pub trait HasTime {
    /// The item's bar time.
    spec fn time_of(&self) -> i64;

    /// The item's bar time.
    fn time(&self) -> (t: i64)
        ensures
            t == self.time_of();
}

impl HasTime for BarTooltip {
    open spec fn time_of(&self) -> i64 {
        self.time
    }

    fn time(&self) -> (t: i64) {
        self.time
    }
}

impl HasTime for SpikeWindow {
    open spec fn time_of(&self) -> i64 {
        self.start
    }

    fn time(&self) -> (t: i64) {
        self.start
    }
}

/// Days a saved backtest state file is kept.
pub const RETENTION_DAYS: u64 = 10;

/// `s` ends with `suffix`.
pub open spec fn seq_ends_with(s: Seq<char>, suffix: Seq<char>) -> bool {
    suffix.len() <= s.len() && s.subrange(s.len() - suffix.len(), s.len() as int) == suffix
}

/// Whether `s` ends with `suffix`.
pub fn ends_with(s: &str, suffix: &str) -> (r: bool)
    ensures
        r == seq_ends_with(s@, suffix@),
{
    let n = s.unicode_len();
    let m = suffix.unicode_len();
    if m > n {
        return false;
    }
    str_eq(s.substring_char(n - m, n), suffix)
}

/// A saved state file (`state-*.json`) last modified more than
/// [`RETENTION_DAYS`] days before `now_secs`.
pub open spec fn prunable(name: Seq<char>, modified_secs: i64, now_secs: i64) -> bool {
    seq_starts_with(name, "state-"@) && seq_ends_with(name, ".json"@) && modified_secs < now_secs
        - RETENTION_DAYS * 86_400
}

/// Whether a file of the results directory is an expired saved state.
pub fn is_prunable_state_file(name: &str, modified_secs: i64, now_secs: i64) -> (r: bool)
    requires
        now_secs >= i64::MIN + RETENTION_DAYS * 86_400,
    ensures
        r == prunable(name@, modified_secs, now_secs),
{
    starts_with(name, "state-") && ends_with(name, ".json") && modified_secs < now_secs - (RETENTION_DAYS
        * 86_400) as i64
}

} // verus!
