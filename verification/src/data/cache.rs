//! Layout of the on-disk data caches (paths as text).

use vstd::prelude::*;
use vstd::utf8::{decode_utf8, encode_utf8_decode_utf8};
use vstd::string::StringSliceAdditionalSpecFns;
use crate::data::paths::{data_dir, data_dir_spec, join, path_join};
use crate::text::concat;

verus! {

/// `data/downloads/{scope}`.
pub open spec fn downloads_dir_spec(scope: Seq<char>) -> Seq<char> {
    path_join(path_join(data_dir_spec(), "downloads"@), scope)
}

/// Root of the per-day download cache of one scope: `data/downloads/{scope}`.
pub fn downloads_dir_for(scope: &str) -> (r: String)
    ensures
        r@ == downloads_dir_spec(scope@),
{
    let d = join(data_dir().as_str(), "downloads");
    join(d.as_str(), scope)
}

/// The backtest download cache, `data/downloads/backtest`.
pub fn cache_dir() -> (r: String)
    ensures
        r@ == downloads_dir_spec("backtest"@),
{
    downloads_dir_for("backtest")
}

/// Directory of the unified (parquet) cache files, `data/unified`, kept apart
/// from the per-day cache.
pub fn unified_dir() -> (r: String)
    ensures
        r@ == path_join(data_dir_spec(), "unified"@),
{
    join(data_dir().as_str(), "unified")
}

/// The `YYYY-MM` part of a date text: its first seven bytes.
pub open spec fn month_part(date: &str) -> Seq<char> {
    decode_utf8(date.spec_bytes().subrange(0, 7))
}

/// Per-day directory `data/downloads/{scope}/{TICKER}/{YYYY-MM}/{YYYY-MM-DD}`.
pub open spec fn day_dir_spec(scope: Seq<char>, ticker: Seq<char>, month: Seq<char>, date: Seq<char>) -> Seq<char> {
    path_join(path_join(path_join(downloads_dir_spec(scope), ticker), month), date)
}

/// The month (first seven bytes) of a date text; byte 7 must start a character.
pub(crate) fn month_of_date(date: &str) -> (r: &str)
    requires
        is_char_boundary_at(date, 7),
    ensures
        r@ == month_part(date),
{
    let (m, _) = date.split_at(7);
    proof {
        encode_utf8_decode_utf8(m@);
    }
    m
}

/// Byte `i` of `s` starts a character (or ends the text).
pub open spec fn is_char_boundary_at(s: &str, i: int) -> bool {
    vstd::utf8::is_char_boundary(s.spec_bytes(), i)
}

/// Per-day directory of one ticker and date. The month is the first seven
/// bytes of `date`, so byte 7 must start a character.
pub fn day_dir_for(scope: &str, ticker: &str, date: &str) -> (r: String)
    requires
        is_char_boundary_at(date, 7),
    ensures
        r@ == day_dir_spec(scope@, ticker@, month_part(date), date@),
{
    let month = month_of_date(date);
    let a = downloads_dir_for(scope);
    let b = join(a.as_str(), ticker);
    let c = join(b.as_str(), month);
    join(c.as_str(), date)
}

/// Raw download file `raw_{kind}.json.gz` in a day directory.
pub fn raw_path_for(scope: &str, kind: &str, ticker: &str, date: &str) -> (r: String)
    requires
        is_char_boundary_at(date, 7),
    ensures
        r@ == path_join(
            day_dir_spec(scope@, ticker@, month_part(date), date@),
            "raw_"@ + kind@ + ".json.gz"@,
        ),
{
    let dir = day_dir_for(scope, ticker, date);
    let mut name = concat("raw_", kind);
    name.append(".json.gz");
    join(dir.as_str(), name.as_str())
}

/// Raw download file of the backtest scope.
pub fn raw_path(kind: &str, ticker: &str, date: &str) -> (r: String)
    requires
        is_char_boundary_at(date, 7),
    ensures
        r@ == path_join(
            day_dir_spec("backtest"@, ticker@, month_part(date), date@),
            "raw_"@ + kind@ + ".json.gz"@,
        ),
{
    raw_path_for("backtest", kind, ticker, date)
}

} // verus!
