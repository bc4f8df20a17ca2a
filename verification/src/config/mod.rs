//! Strategy configuration: cadence, tickers, parameters and connection settings.

pub mod bar_counts;
pub mod bar_interval;
pub mod strategy;
pub mod tickers;

use vstd::prelude::*;

verus! {

/// First date of the default backtest range.
pub const DEFAULT_START: &'static str = "2018-01-01";
/// Last date of the default backtest range.
pub const DEFAULT_END: &'static str = "2026-04-01";

} // verus!

verus! {

/// Default ThetaData terminal port.
pub const DEFAULT_THETADATA_PORT: u16 = 25503;
/// Default health/dashboard port.
pub const DEFAULT_HEALTH_PORT: u16 = 8080;
/// Default IBKR gateway port.
pub const DEFAULT_IBKR_PORT: u16 = 4002;

/// Whether `c` is an ASCII decimal digit.
pub open spec fn is_digit(c: char) -> bool {
    '0' <= c && c <= '9'
}

/// Value of a string of decimal digits.
pub open spec fn digits_value(s: Seq<char>) -> nat
    decreases s.len(),
{
    if s.len() == 0 {
        0
    } else {
        digits_value(s.drop_last()) * 10 + ((s.last() as u32) - ('0' as u32)) as nat
    }
}

/// The digits of a `u16` literal: an optional leading `+` followed by at least one digit.
pub open spec fn u16_digits(s: Seq<char>) -> Seq<char> {
    if s.len() > 0 && s[0] == '+' { s.subrange(1, s.len() as int) } else { s }
}

/// What `str::parse::<u16>` reads from `s`: an optional `+` and one or more
/// decimal digits whose value fits in 16 bits.
pub open spec fn parse_u16_spec(s: Seq<char>) -> Option<u16> {
    let d = u16_digits(s);
    if d.len() > 0 && (forall|i: int| 0 <= i < d.len() ==> is_digit(#[trigger] d[i])) && digits_value(d) <= u16::MAX {
        Some(digits_value(d) as u16)
    } else {
        None
    }
}

/// Parse a decimal `u16` the way `str::parse::<u16>` does.
pub fn parse_u16(s: &str) -> (r: Option<u16>)
    ensures
        r == parse_u16_spec(s@),
{
    let n = s.unicode_len();
    let start: usize = if n > 0 && s.get_char(0) == '+' { 1 } else { 0 };
    let ghost d = u16_digits(s@);
    proof {
        assert(d =~= s@.subrange(start as int, n as int));
    }
    if start >= n {
        return None;
    }
    let mut value: u32 = 0;
    let mut i: usize = start;
    while i < n
        invariant
            n == s@.len(),
            start <= i <= n,
            d == u16_digits(s@),
            d =~= s@.subrange(start as int, n as int),
            forall|j: int| 0 <= j < i - start ==> is_digit(#[trigger] d[j]),
            value as nat == digits_value(d.subrange(0, i - start)),
            value <= u16::MAX,
        decreases n - i,
    {
        let c = s.get_char(i);
        proof {
            assert(d[i - start] == c);
        }
        if !('0' <= c && c <= '9') {
            assert(!is_digit(d[i - start]));
            assert(!(forall|j: int| 0 <= j < d.len() ==> is_digit(#[trigger] d[j])));
            return None;
        }
        let ghost prefix = d.subrange(0, i - start + 1);
        proof {
            assert(prefix.drop_last() =~= d.subrange(0, i - start));
            assert(prefix.last() == c);
        }
        let digit = (c as u32) - ('0' as u32);
        let next = value * 10 + digit;
        proof {
            assert(digits_value(prefix) == next);
        }
        if next > 65535 {
            proof {
                if forall|j: int| 0 <= j < d.len() ==> is_digit(#[trigger] d[j]) {
                    lemma_digits_value_prefix_monotone(d, (i - start + 1) as int);
                    assert(digits_value(d) > u16::MAX);
                }
            }
            return None;
        }
        value = next;
        i = i + 1;
    }
    proof {
        assert(d.subrange(0, n - start) =~= d);
    }
    Some(value as u16)
}

proof fn lemma_digits_value_prefix_monotone(d: Seq<char>, k: int)
    requires
        0 <= k <= d.len(),
        forall|j: int| 0 <= j < d.len() ==> is_digit(#[trigger] d[j]),
    ensures
        digits_value(d.subrange(0, k)) <= digits_value(d),
    decreases d.len() - k,
{
    if k < d.len() {
        lemma_digits_value_prefix_monotone(d, k + 1);
        assert(d.subrange(0, k + 1).drop_last() =~= d.subrange(0, k));
    } else {
        assert(d.subrange(0, k) =~= d);
    }
}

/// A port read from an environment value, or `default` when the value is
/// absent or not a valid port number.
pub fn port_or_default(value: Option<&str>, default: u16) -> (r: u16)
    ensures
        r == match value {
            Some(s) => match parse_u16_spec(s@) {
                Some(p) => p,
                None => default,
            },
            None => default,
        },
{
    match value {
        Some(s) => match parse_u16(s) {
            Some(p) => p,
            None => default,
        },
        None => default,
    }
}

/// ThetaData port from the `THETADATA_PORT` value (default 25503).
pub fn thetadata_port(env_value: Option<&str>) -> (r: u16)
    ensures
        r == port_or_default_spec(env_value, DEFAULT_THETADATA_PORT),
{
    port_or_default(env_value, DEFAULT_THETADATA_PORT)
}

/// Health-server port from the `HEALTH_PORT` value (default 8080).
pub fn health_port(env_value: Option<&str>) -> (r: u16)
    ensures
        r == port_or_default_spec(env_value, DEFAULT_HEALTH_PORT),
{
    port_or_default(env_value, DEFAULT_HEALTH_PORT)
}

/// IBKR gateway port from the `IBKR_PORT` value (default 4002).
pub fn ibkr_port(env_value: Option<&str>) -> (r: u16)
    ensures
        r == port_or_default_spec(env_value, DEFAULT_IBKR_PORT),
{
    port_or_default(env_value, DEFAULT_IBKR_PORT)
}

/// The port `port_or_default` returns.
pub open spec fn port_or_default_spec(value: Option<&str>, default: u16) -> u16 {
    match value {
        Some(s) => match parse_u16_spec(s@) {
            Some(p) => p,
            None => default,
        },
        None => default,
    }
}

/// Client id in `[lo, hi)` chosen by `seed`: `lo + |seed| mod (hi - lo)`.
pub open spec fn client_id_spec(seed: i32, lo: i32, hi: i32) -> int {
    let a: int = if seed < 0 { -(seed as int) } else { seed as int };
    lo + a % (hi - lo)
}

/// Client id in `[lo, hi)` derived from a process/clock seed.
pub fn random_client_id(seed: i32, lo: i32, hi: i32) -> (r: i32)
    requires
        0 <= lo < hi,
    ensures
        r == client_id_spec(seed, lo, hi),
        lo <= r < hi,
{
    let range = (hi - lo) as u32;
    let a: u32 = if seed < 0 { ((-(seed as i64)) as u64) as u32 } else { seed as u32 };
    lo + (a % range) as i32
}

/// IBKR client id for live trading, in `[100, 499)`.
pub fn ibkr_client_id_live(seed: i32) -> (r: i32)
    ensures
        r == client_id_spec(seed, 100, 499),
        100 <= r < 499,
{
    random_client_id(seed, 100, 499)
}

/// IBKR client id for backtests, in `[500, 999)`.
pub fn ibkr_client_id_backtest(seed: i32) -> (r: i32)
    ensures
        r == client_id_spec(seed, 500, 999),
        500 <= r < 999,
{
    random_client_id(seed, 500, 999)
}

} // verus!
