//! The proleptic Gregorian calendar on day numbers (0001-01-01 is day 1):
//! the days-from-civil formula, its inverse, the `YYYY-MM-DD` text of a day,
//! and the facts that tie day order, date order and text order together.

use vstd::prelude::*;
use crate::text::{digit_char, lex_le, lex_le_from};

verus! {

/// A leap year of the Gregorian calendar.
pub open spec fn is_leap_year(y: int) -> bool {
    (y % 4 == 0 && y % 100 != 0) || y % 400 == 0
}

/// Days in month `m` of year `y`.
pub open spec fn month_days(y: int, m: int) -> int {
    if m == 2 {
        if is_leap_year(y) { 29int } else { 28int }
    } else if m == 4 || m == 6 || m == 9 || m == 11 {
        30
    } else {
        31
    }
}

/// Days of year `y` before month `m` starts.
pub open spec fn days_before_month(y: int, m: int) -> int {
    let base: int = if m <= 1 { 0 } else if m == 2 { 31 } else if m == 3 { 59 } else if m == 4 { 90 } else if m == 5 {
        120
    } else if m == 6 { 151 } else if m == 7 { 181 } else if m == 8 { 212 } else if m == 9 { 243 } else if m
        == 10 { 273 } else if m == 11 { 304 } else { 334 };
    base + if m > 2 && is_leap_year(y) { 1int } else { 0int }
}

/// Days before year `y` starts, counted from 0001-01-01.
pub open spec fn days_before_year(y: int) -> int {
    let p = y - 1;
    365 * p + p / 4 - p / 100 + p / 400
}

/// Days in year `y`.
pub open spec fn year_days(y: int) -> int {
    if is_leap_year(y) { 366int } else { 365int }
}

/// A date with a four-digit year.
pub open spec fn valid_ymd(y: int, m: int, d: int) -> bool {
    1 <= y <= 9999 && 1 <= m <= 12 && 1 <= d <= month_days(y, m)
}

/// The day number of a date.
pub open spec fn ymd_day(y: int, m: int, d: int) -> int {
    days_before_year(y) + days_before_month(y, m) + d
}

/// Dates in order: by year, then month, then day.
pub open spec fn ymd_lt(a: (int, int, int), b: (int, int, int)) -> bool {
    a.0 < b.0 || (a.0 == b.0 && (a.1 < b.1 || (a.1 == b.1 && a.2 < b.2)))
}

/// Each year adds its length.
pub proof fn lemma_year_step(y: int)
    ensures
        days_before_year(y + 1) == days_before_year(y) + year_days(y),
{
    let p = y - 1;
    assert(y == p + 1);
    assert((p + 1) / 4 == p / 4 + if (p + 1) % 4 == 0 { 1int } else { 0 }) by {
        vstd::arithmetic::div_mod::lemma_fundamental_div_mod(p, 4);
        vstd::arithmetic::div_mod::lemma_fundamental_div_mod(p + 1, 4);
    }
    assert((p + 1) / 100 == p / 100 + if (p + 1) % 100 == 0 { 1int } else { 0 }) by {
        vstd::arithmetic::div_mod::lemma_fundamental_div_mod(p, 100);
        vstd::arithmetic::div_mod::lemma_fundamental_div_mod(p + 1, 100);
    }
    assert((p + 1) / 400 == p / 400 + if (p + 1) % 400 == 0 { 1int } else { 0 }) by {
        vstd::arithmetic::div_mod::lemma_fundamental_div_mod(p, 400);
        vstd::arithmetic::div_mod::lemma_fundamental_div_mod(p + 1, 400);
    }
    assert(y % 100 == 0 ==> y % 4 == 0) by {
        vstd::arithmetic::div_mod::lemma_fundamental_div_mod(y, 100);
        vstd::arithmetic::div_mod::lemma_fundamental_div_mod(y, 4);
    }
    assert(y % 400 == 0 ==> y % 100 == 0) by {
        vstd::arithmetic::div_mod::lemma_fundamental_div_mod(y, 400);
        vstd::arithmetic::div_mod::lemma_fundamental_div_mod(y, 100);
    }
}

/// Each month adds its length.
pub proof fn lemma_month_step(y: int, m: int)
    requires
        1 <= m <= 11,
    ensures
        days_before_month(y, m + 1) == days_before_month(y, m) + month_days(y, m),
{
}

/// The last day of a year is its length.
pub proof fn lemma_year_end(y: int)
    ensures
        days_before_month(y, 12) + month_days(y, 12) == year_days(y),
{
}

/// Years start in order.
pub proof fn lemma_years_ordered(a: int, b: int)
    requires
        a <= b,
    ensures
        days_before_year(a) + 365 * (b - a) <= days_before_year(b),
    decreases b - a,
{
    if a < b {
        lemma_years_ordered(a, b - 1);
        lemma_year_step(b - 1);
    }
}

/// Months start in order within a year.
pub proof fn lemma_months_ordered(y: int, a: int, b: int)
    requires
        1 <= a <= b <= 12,
    ensures
        days_before_month(y, a) + 28 * (b - a) <= days_before_month(y, b),
    decreases b - a,
{
    if a < b {
        lemma_months_ordered(y, a, b - 1);
        lemma_month_step(y, b - 1);
    }
}

/// A date's day lies within its month and year.
pub proof fn lemma_day_bounds(y: int, m: int, d: int)
    requires
        valid_ymd(y, m, d),
    ensures
        days_before_year(y) < ymd_day(y, m, d) <= days_before_year(y + 1),
        days_before_year(y) + days_before_month(y, m) < ymd_day(y, m, d),
        m < 12 ==> ymd_day(y, m, d) <= days_before_year(y) + days_before_month(y, m + 1),
{
    lemma_year_step(y);
    lemma_months_ordered(y, m, 12);
    lemma_year_end(y);
    if m < 12 {
        lemma_month_step(y, m);
    }
}

/// Later dates have larger day numbers.
pub proof fn lemma_ymd_day_increasing(a: (int, int, int), b: (int, int, int))
    requires
        valid_ymd(a.0, a.1, a.2),
        valid_ymd(b.0, b.1, b.2),
        ymd_lt(a, b),
    ensures
        ymd_day(a.0, a.1, a.2) < ymd_day(b.0, b.1, b.2),
{
    lemma_day_bounds(a.0, a.1, a.2);
    lemma_day_bounds(b.0, b.1, b.2);
    if a.0 < b.0 {
        lemma_years_ordered(a.0 + 1, b.0);
    } else if a.1 < b.1 {
        lemma_months_ordered(a.0, a.1 + 1, b.1);
    }
}

/// The date after a valid date.
pub open spec fn next_ymd(t: (int, int, int)) -> (int, int, int) {
    if t.2 < month_days(t.0, t.1) {
        (t.0, t.1, t.2 + 1)
    } else if t.1 < 12 {
        (t.0, t.1 + 1, 1)
    } else {
        (t.0 + 1, 1, 1)
    }
}

/// The next date is one day later.
pub proof fn lemma_next_ymd(t: (int, int, int))
    requires
        valid_ymd(t.0, t.1, t.2),
        t.0 < 9999 || t.1 < 12 || t.2 < 31,
    ensures
        valid_ymd(next_ymd(t).0, next_ymd(t).1, next_ymd(t).2),
        ymd_day(next_ymd(t).0, next_ymd(t).1, next_ymd(t).2) == ymd_day(t.0, t.1, t.2) + 1,
{
    if t.2 < month_days(t.0, t.1) {
    } else if t.1 < 12 {
        lemma_month_step(t.0, t.1);
    } else {
        lemma_year_step(t.0);
        lemma_year_end(t.0);
    }
}

/// First day with a four-digit year.
pub open spec fn first_calendar_day() -> int {
    1
}

/// Last day with a four-digit year (9999-12-31).
pub open spec fn last_calendar_day() -> int {
    3_652_059
}

/// Every day with a four-digit year is the day of some date.
pub proof fn lemma_day_has_date(n: int)
    requires
        1 <= n <= last_calendar_day(),
    ensures
        exists|t: (int, int, int)| #![trigger ymd_day(t.0, t.1, t.2)] valid_ymd(t.0, t.1, t.2) && ymd_day(t.0, t.1, t.2) == n,
    decreases n,
{
    if n == 1 {
        let w: (int, int, int) = (1, 1, 1);
        assert(valid_ymd(w.0, w.1, w.2) && ymd_day(w.0, w.1, w.2) == 1);
    } else {
        lemma_day_has_date(n - 1);
        let t = choose|t: (int, int, int)| valid_ymd(t.0, t.1, t.2) && ymd_day(t.0, t.1, t.2) == n - 1;
        if t.0 == 9999 && t.1 == 12 && t.2 == 31 {
            assert(ymd_day(9999, 12, 31) == last_calendar_day());
        }
        lemma_next_ymd(t);
        let u = next_ymd(t);
        assert(valid_ymd(u.0, u.1, u.2) && ymd_day(u.0, u.1, u.2) == n);
    }
}

/// The date of day `n` (meaningful for days with a four-digit year).
pub open spec fn day_ymd(n: int) -> (int, int, int) {
    choose|t: (int, int, int)| valid_ymd(t.0, t.1, t.2) && ymd_day(t.0, t.1, t.2) == n
}

/// The date of a day is valid and has that day number; it is the only such
/// date.
pub proof fn lemma_day_ymd(n: int)
    requires
        1 <= n <= last_calendar_day(),
    ensures
        valid_ymd(day_ymd(n).0, day_ymd(n).1, day_ymd(n).2),
        ymd_day(day_ymd(n).0, day_ymd(n).1, day_ymd(n).2) == n,
        forall|t: (int, int, int)| valid_ymd(t.0, t.1, t.2) && ymd_day(t.0, t.1, t.2) == n ==> t == day_ymd(n),
{
    lemma_day_has_date(n);
    let u = day_ymd(n);
    assert forall|t: (int, int, int)| valid_ymd(t.0, t.1, t.2) && ymd_day(t.0, t.1, t.2) == n implies t == u by {
        if ymd_lt(t, u) {
            lemma_ymd_day_increasing(t, u);
        } else if ymd_lt(u, t) {
            lemma_ymd_day_increasing(u, t);
        }
    }
}

/// Day order is date order.
pub proof fn lemma_day_order_is_date_order(a: int, b: int)
    requires
        1 <= a <= last_calendar_day(),
        1 <= b <= last_calendar_day(),
    ensures
        a < b <==> ymd_lt(day_ymd(a), day_ymd(b)),
{
    lemma_day_ymd(a);
    lemma_day_ymd(b);
    let (ta, tb) = (day_ymd(a), day_ymd(b));
    if ymd_lt(ta, tb) {
        lemma_ymd_day_increasing(ta, tb);
    } else if ymd_lt(tb, ta) {
        lemma_ymd_day_increasing(tb, ta);
    }
}

/// Two decimal digits of `n` (the last two).
pub open spec fn digits2(n: int) -> Seq<char> {
    seq![digit_char(n / 10 % 10), digit_char(n % 10)]
}

/// Four decimal digits of `n` (the last four).
pub open spec fn digits4(n: int) -> Seq<char> {
    seq![digit_char(n / 1000 % 10), digit_char(n / 100 % 10), digit_char(n / 10 % 10), digit_char(n % 10)]
}

/// The `YYYY-MM-DD` text of a date, zero-padded.
pub open spec fn ymd_text(y: int, m: int, d: int) -> Seq<char> {
    digits4(y) + seq!['-'] + digits2(m) + seq!['-'] + digits2(d)
}

/// The `YYYY-MM-DD` text of day `n`.
pub open spec fn day_text(n: int) -> Seq<char> {
    ymd_text(day_ymd(n).0, day_ymd(n).1, day_ymd(n).2)
}

/// Sequences equal before `k` compare as their characters at `k` do.
proof fn lemma_lex_at(s: Seq<char>, t: Seq<char>, k: int, i: int)
    requires
        0 <= i <= k < s.len(),
        s.len() == t.len(),
        forall|j: int| i <= j < k ==> s[j] == t[j],
        s[k] != t[k],
    ensures
        lex_le_from(s, t, i) == (s[k] < t[k]),
    decreases k - i,
{
    if i < k {
        lemma_lex_at(s, t, k, i + 1);
    }
}

/// A sequence is at most itself.
proof fn lemma_lex_refl(s: Seq<char>, i: int)
    requires
        0 <= i,
    ensures
        lex_le_from(s, s, i),
    decreases s.len() - i,
{
    if i < s.len() {
        lemma_lex_refl(s, i + 1);
    }
}

/// Digit characters are ordered as their digits.
proof fn lemma_digit_char_order(a: int, b: int)
    requires
        0 <= a <= 9,
        0 <= b <= 9,
    ensures
        a < b ==> digit_char(a) < digit_char(b),
        a == b <==> digit_char(a) == digit_char(b),
{
}

/// The decimal digits of a number below 10000.
proof fn lemma_digits(n: int)
    requires
        0 <= n < 10000,
    ensures
        n == 1000 * (n / 1000 % 10) + 100 * (n / 100 % 10) + 10 * (n / 10 % 10) + n % 10,
        0 <= n / 1000 % 10 <= 9,
        0 <= n / 100 % 10 <= 9,
        0 <= n / 10 % 10 <= 9,
        0 <= n % 10 <= 9,
        n / 1000 % 10 == n / 1000,
        n / 100 == 10 * (n / 1000) + n / 100 % 10,
        n / 10 == 10 * (n / 100) + n / 10 % 10,
{
    vstd::arithmetic::div_mod::lemma_fundamental_div_mod(n, 10);
    vstd::arithmetic::div_mod::lemma_fundamental_div_mod(n / 10, 10);
    vstd::arithmetic::div_mod::lemma_fundamental_div_mod(n / 100, 10);
    vstd::arithmetic::div_mod::lemma_fundamental_div_mod(n / 1000, 10);
    vstd::arithmetic::div_mod::lemma_div_denominator(n, 10, 10);
    vstd::arithmetic::div_mod::lemma_div_denominator(n, 100, 10);
    vstd::arithmetic::div_mod::lemma_div_pos_is_pos(n, 10);
    vstd::arithmetic::div_mod::lemma_div_pos_is_pos(n, 100);
    vstd::arithmetic::div_mod::lemma_div_pos_is_pos(n, 1000);
    vstd::arithmetic::div_mod::lemma_mod_bound(n, 10);
    vstd::arithmetic::div_mod::lemma_mod_bound(n / 10, 10);
    vstd::arithmetic::div_mod::lemma_mod_bound(n / 100, 10);
    vstd::arithmetic::div_mod::lemma_mod_bound(n / 1000, 10);
    assert(n / 1000 < 10) by {
        vstd::arithmetic::div_mod::lemma_div_is_ordered(n, 9999, 1000);
    }
    vstd::arithmetic::div_mod::lemma_small_mod((n / 1000) as nat, 10);
}

/// The date texts of two dates compare as the dates do.
pub proof fn lemma_ymd_text_order(a: (int, int, int), b: (int, int, int))
    requires
        valid_ymd(a.0, a.1, a.2),
        valid_ymd(b.0, b.1, b.2),
        ymd_lt(a, b),
    ensures
        lex_le(ymd_text(a.0, a.1, a.2), ymd_text(b.0, b.1, b.2)),
        !lex_le(ymd_text(b.0, b.1, b.2), ymd_text(a.0, a.1, a.2)),
{
    let s = ymd_text(a.0, a.1, a.2);
    let t = ymd_text(b.0, b.1, b.2);
    lemma_digits(a.0);
    lemma_digits(b.0);
    lemma_digits(a.1);
    lemma_digits(b.1);
    lemma_digits(a.2);
    lemma_digits(b.2);
    assert(s.len() == 10 && t.len() == 10);
    assert(s[0] == digit_char(a.0 / 1000 % 10) && s[1] == digit_char(a.0 / 100 % 10));
    assert(s[2] == digit_char(a.0 / 10 % 10) && s[3] == digit_char(a.0 % 10) && s[4] == '-');
    assert(s[5] == digit_char(a.1 / 10 % 10) && s[6] == digit_char(a.1 % 10) && s[7] == '-');
    assert(s[8] == digit_char(a.2 / 10 % 10) && s[9] == digit_char(a.2 % 10));
    assert(t[0] == digit_char(b.0 / 1000 % 10) && t[1] == digit_char(b.0 / 100 % 10));
    assert(t[2] == digit_char(b.0 / 10 % 10) && t[3] == digit_char(b.0 % 10) && t[4] == '-');
    assert(t[5] == digit_char(b.1 / 10 % 10) && t[6] == digit_char(b.1 % 10) && t[7] == '-');
    assert(t[8] == digit_char(b.2 / 10 % 10) && t[9] == digit_char(b.2 % 10));
    let da = seq![a.0 / 1000 % 10, a.0 / 100 % 10, a.0 / 10 % 10, a.0 % 10, 0, a.1 / 10 % 10, a.1 % 10, 0, a.2 / 10 % 10, a.2 % 10];
    let db = seq![b.0 / 1000 % 10, b.0 / 100 % 10, b.0 / 10 % 10, b.0 % 10, 0, b.1 / 10 % 10, b.1 % 10, 0, b.2 / 10 % 10, b.2 % 10];
    // the first position where the digits differ
    let k: int = if da[0] != db[0] { 0 } else if da[1] != db[1] { 1 } else if da[2] != db[2] { 2 } else if da[3]
        != db[3] { 3 } else if da[5] != db[5] { 5 } else if da[6] != db[6] { 6 } else if da[8] != db[8] { 8 } else { 9 };
    assert(forall|j: int| 0 <= j < 10 && j != 4 && j != 7 ==> 0 <= #[trigger] da[j] <= 9 && 0 <= db[j] <= 9);
    assert(forall|j: int| 0 <= j < 10 && j != 4 && j != 7 ==> (#[trigger] s[j] == t[j] <==> da[j] == db[j])) by {
        assert forall|j: int| 0 <= j < 10 && j != 4 && j != 7 implies (#[trigger] s[j] == t[j] <==> da[j] == db[j]) by {
            lemma_digit_char_order(da[j], db[j]);
        }
    }
    assert(da[k] < db[k]);
    lemma_digit_char_order(da[k], db[k]);
    assert(forall|j: int| 0 <= j < k ==> s[j] == t[j]);
    lemma_lex_at(s, t, k, 0);
    lemma_lex_at(t, s, k, 0);
}

/// Day order is the order of the days' texts: for days with four-digit
/// years, `day_text(a) <= day_text(b)` lexicographically exactly when
/// `a <= b`.
pub proof fn law_day_text_order(a: int, b: int)
    requires
        1 <= a <= last_calendar_day(),
        1 <= b <= last_calendar_day(),
    ensures
        lex_le(day_text(a), day_text(b)) <==> a <= b,
{
    lemma_day_order_is_date_order(a, b);
    lemma_day_order_is_date_order(b, a);
    lemma_day_ymd(a);
    lemma_day_ymd(b);
    if a < b {
        lemma_ymd_text_order(day_ymd(a), day_ymd(b));
    } else if b < a {
        lemma_ymd_text_order(day_ymd(b), day_ymd(a));
    } else {
        lemma_lex_refl(day_text(a), 0);
    }
}

} // verus!
