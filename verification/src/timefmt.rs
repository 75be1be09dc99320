//! ISO-8601 timestamp formatting.  A count of milliseconds since the Unix
//! epoch (UTC) is rendered as `YYYY-MM-DDTHH:MM:SS.mmmZ`; the year field
//! widens beyond four digits when the year needs more.

use vstd::prelude::*;
use vstd::arithmetic::div_mod::{lemma_div_is_ordered, lemma_div_pos_is_pos,
    lemma_mod_division_less_than_divisor};
use crate::strutil::string_from_chars;

verus! {

/// Whether `y` is a leap year of the proleptic Gregorian calendar.
pub open spec fn is_leap_year(y: int) -> bool {
    (y % 4 == 0 && y % 100 != 0) || y % 400 == 0
}

/// The number of days of year `y`.
pub open spec fn year_len(y: int) -> int {
    if is_leap_year(y) {
        366
    } else {
        365
    }
}

/// Starting at year `y` with `days` whole days left, the year that the last
/// day falls in and its 0-based day of year.
pub open spec fn split_year(y: int, days: int) -> (int, int)
    decreases days,
{
    if days >= year_len(y) {
        split_year(y + 1, days - year_len(y))
    } else {
        (y, days)
    }
}

/// The number of days of month `m` (1-based).
pub open spec fn month_len(leap: bool, m: int) -> int {
    if m == 2 {
        if leap {
            29
        } else {
            28
        }
    } else if m == 4 || m == 6 || m == 9 || m == 11 {
        30
    } else {
        31
    }
}

/// The number of days of the months before month `m` (1-based).
pub open spec fn days_before_month(leap: bool, m: int) -> int
    decreases m,
{
    if m <= 1 {
        0
    } else {
        days_before_month(leap, m - 1) + month_len(leap, m - 1)
    }
}

/// Starting at month `m` with `days` whole days left in the year, the month
/// that the last day falls in and its 0-based day of month.
pub open spec fn split_month(leap: bool, m: int, days: int) -> (int, int)
    decreases 12 - m,
{
    if m < 12 && days >= month_len(leap, m) {
        split_month(leap, m + 1, days - month_len(leap, m))
    } else {
        (m, days)
    }
}

/// The character of the decimal digit `d`.
pub open spec fn digit_char(d: int) -> char {
    if d == 0 {
        '0'
    } else if d == 1 {
        '1'
    } else if d == 2 {
        '2'
    } else if d == 3 {
        '3'
    } else if d == 4 {
        '4'
    } else if d == 5 {
        '5'
    } else if d == 6 {
        '6'
    } else if d == 7 {
        '7'
    } else if d == 8 {
        '8'
    } else {
        '9'
    }
}

/// The decimal digits of `n`, most significant first.
pub open spec fn dec_str(n: int) -> Seq<char>
    decreases n,
{
    if n < 10 {
        seq![digit_char(n)]
    } else {
        dec_str(n / 10).push(digit_char(n % 10))
    }
}

/// `s` left-padded with `'0'` to at least `w` characters.
pub open spec fn zero_pad(s: Seq<char>, w: int) -> Seq<char>
    decreases w - s.len(),
{
    if s.len() >= w {
        s
    } else {
        zero_pad(seq!['0'] + s, w)
    }
}

/// The ISO-8601 UTC rendering of the given components.
pub open spec fn iso_format(y: int, mo: int, d: int, h: int, mi: int, se: int, ms: int) -> Seq<
    char,
> {
    zero_pad(dec_str(y), 4) + seq!['-'] + zero_pad(dec_str(mo), 2) + seq!['-'] + zero_pad(
        dec_str(d),
        2,
    ) + seq!['T'] + zero_pad(dec_str(h), 2) + seq![':'] + zero_pad(dec_str(mi), 2) + seq![':']
        + zero_pad(dec_str(se), 2) + seq!['.'] + zero_pad(dec_str(ms), 3) + seq!['Z']
}

/// The ISO-8601 UTC timestamp of the moment `ms` milliseconds after the Unix
/// epoch.
pub open spec fn iso8601_spec(ms: u64) -> Seq<char> {
    let days = ms as int / 86400000;
    let rem = ms as int % 86400000;
    let yr = split_year(1970, days);
    let md = split_month(is_leap_year(yr.0), 1, yr.1);
    iso_format(
        yr.0,
        md.0,
        md.1 + 1,
        rem / 3600000,
        (rem % 3600000) / 60000,
        (rem % 60000) / 1000,
        rem % 1000,
    )
}

/// `s` is an ISO-8601 UTC timestamp: date, time-of-day with milliseconds,
/// and the `Z` designator, with every component in range.
pub open spec fn is_iso8601_utc(s: Seq<char>) -> bool {
    exists|y: int, mo: int, d: int, h: int, mi: int, se: int, ms: int|
        {
            &&& 0 <= y
            &&& 1 <= mo <= 12
            &&& 1 <= d <= 31
            &&& 0 <= h < 24
            &&& 0 <= mi < 60
            &&& 0 <= se < 60
            &&& 0 <= ms < 1000
            &&& s == #[trigger] iso_format(y, mo, d, h, mi, se, ms)
        }
}

proof fn lemma_split_year_range(y: int, days: int)
    requires
        days >= 0,
    ensures
        split_year(y, days).0 >= y,
        0 <= split_year(y, days).1 < year_len(split_year(y, days).0),
    decreases days,
{
    if days >= year_len(y) {
        lemma_split_year_range(y + 1, days - year_len(y));
    }
}

proof fn lemma_days_in_year(leap: bool)
    ensures
        days_before_month(leap, 12) + month_len(leap, 12) == if leap {
            366int
        } else {
            365int
        },
{
    assert(days_before_month(leap, 1) == 0);
    assert(days_before_month(leap, 2) == 31);
    assert(days_before_month(leap, 3) == 31 + month_len(leap, 2));
    assert(days_before_month(leap, 4) == 62 + month_len(leap, 2));
    assert(days_before_month(leap, 5) == 92 + month_len(leap, 2));
    assert(days_before_month(leap, 6) == 123 + month_len(leap, 2));
    assert(days_before_month(leap, 7) == 153 + month_len(leap, 2));
    assert(days_before_month(leap, 8) == 184 + month_len(leap, 2));
    assert(days_before_month(leap, 9) == 215 + month_len(leap, 2));
    assert(days_before_month(leap, 10) == 245 + month_len(leap, 2));
    assert(days_before_month(leap, 11) == 276 + month_len(leap, 2));
    assert(days_before_month(leap, 12) == 306 + month_len(leap, 2));
}

proof fn lemma_split_month_range(leap: bool, m: int, days: int)
    requires
        1 <= m <= 12,
        0 <= days,
        days + days_before_month(leap, m) < if leap {
            366int
        } else {
            365int
        },
    ensures
        m <= split_month(leap, m, days).0 <= 12,
        0 <= split_month(leap, m, days).1 < month_len(leap, split_month(leap, m, days).0),
    decreases 12 - m,
{
    if m < 12 && days >= month_len(leap, m) {
        lemma_split_month_range(leap, m + 1, days - month_len(leap, m));
    } else if m == 12 {
        lemma_days_in_year(leap);
    }
}

/// The timestamp rendered for any number of milliseconds is a well-formed,
/// non-empty ISO-8601 UTC timestamp.
pub proof fn lemma_iso8601_valid(ms: u64)
    ensures
        is_iso8601_utc(iso8601_spec(ms)),
        iso8601_spec(ms).len() > 0,
{
    let days = ms as int / 86400000;
    let rem = ms as int % 86400000;
    lemma_div_pos_is_pos(ms as int, 86400000);
    lemma_mod_division_less_than_divisor(ms as int, 86400000);
    lemma_split_year_range(1970, days);
    let yr = split_year(1970, days);
    let leap = is_leap_year(yr.0);
    assert(days_before_month(leap, 1) == 0);
    lemma_days_in_year(leap);
    lemma_split_month_range(leap, 1, yr.1);
    let md = split_month(leap, 1, yr.1);
    let h = rem / 3600000;
    lemma_div_is_ordered(rem, 86399999, 3600000);
    let r2 = rem % 3600000;
    lemma_mod_division_less_than_divisor(rem, 3600000);
    let mi = r2 / 60000;
    lemma_div_is_ordered(r2, 3599999, 60000);
    let r3 = rem % 60000;
    lemma_mod_division_less_than_divisor(rem, 60000);
    let se = r3 / 1000;
    lemma_div_is_ordered(r3, 59999, 1000);
    lemma_mod_division_less_than_divisor(rem, 1000);
    assert(iso8601_spec(ms) == iso_format(yr.0, md.0, md.1 + 1, h, mi, se, rem % 1000));
}

fn digit_char_exec(d: u64) -> (c: char)
    requires
        d < 10,
    ensures
        c == digit_char(d as int),
{
    if d == 0 {
        '0'
    } else if d == 1 {
        '1'
    } else if d == 2 {
        '2'
    } else if d == 3 {
        '3'
    } else if d == 4 {
        '4'
    } else if d == 5 {
        '5'
    } else if d == 6 {
        '6'
    } else if d == 7 {
        '7'
    } else if d == 8 {
        '8'
    } else {
        '9'
    }
}

fn dec_str_u64(n: u64) -> (v: Vec<char>)
    ensures
        v@ == dec_str(n as int),
    decreases n,
{
    if n < 10 {
        let mut v: Vec<char> = Vec::new();
        v.push(digit_char_exec(n));
        proof {
            assert(v@ =~= dec_str(n as int));
        }
        v
    } else {
        let mut v = dec_str_u64(n / 10);
        v.push(digit_char_exec(n % 10));
        proof {
            assert(v@ =~= dec_str(n as int));
        }
        v
    }
}

fn zero_pad_exec(v0: Vec<char>, w: usize) -> (r: Vec<char>)
    ensures
        r@ == zero_pad(v0@, w as int),
{
    let mut v = v0;
    let ghost s0 = v@;
    while v.len() < w
        invariant
            zero_pad(v@, w as int) == zero_pad(s0, w as int),
        decreases w - v.len(),
    {
        let ghost before = v@;
        v.insert(0, '0');
        proof {
            assert(v@ =~= seq!['0'] + before);
        }
    }
    v
}

fn pad_num(n: u64, w: usize) -> (r: Vec<char>)
    ensures
        r@ == zero_pad(dec_str(n as int), w as int),
{
    zero_pad_exec(dec_str_u64(n), w)
}

fn year_len_exec(y: u64) -> (l: u64)
    ensures
        l as int == year_len(y as int),
        365 <= l <= 366,
{
    if (y % 4 == 0 && y % 100 != 0) || y % 400 == 0 {
        366
    } else {
        365
    }
}

fn month_len_exec(leap: bool, m: u64) -> (l: u64)
    ensures
        l as int == month_len(leap, m as int),
        1 <= l <= 31,
{
    if m == 2 {
        if leap {
            29
        } else {
            28
        }
    } else if m == 4 || m == 6 || m == 9 || m == 11 {
        30
    } else {
        31
    }
}

/// Render the moment `now_millis` milliseconds after the Unix epoch as an
/// ISO-8601 UTC timestamp, `YYYY-MM-DDTHH:MM:SS.mmmZ`.
pub fn iso8601_utc(now_millis: u64) -> (r: String)
    ensures
        r@ == iso8601_spec(now_millis),
        is_iso8601_utc(r@),
        r@.len() > 0,
{
    let days: u64 = now_millis / 86400000;
    let rem: u64 = now_millis % 86400000;
    proof {
        lemma_div_is_ordered(now_millis as int, u64::MAX as int, 86400000);
    }
    let ghost days0: int = days as int;
    let mut year: u64 = 1970;
    let mut doy: u64 = days;
    while doy >= year_len_exec(year)
        invariant
            1970 <= year,
            doy as int <= days0,
            days0 <= u64::MAX as int / 86400000,
            year as int - 1970 <= days0 - doy as int,
            split_year(year as int, doy as int) == split_year(1970, days0),
        decreases doy,
    {
        let ylen = year_len_exec(year);
        doy = doy - ylen;
        year = year + 1;
    }
    proof {
        assert(split_year(year as int, doy as int) == (year as int, doy as int));
    }
    let leap: bool = year_len_exec(year) == 366;
    proof {
        assert(leap == is_leap_year(year as int));
        assert(days_before_month(leap, 1) == 0);
        lemma_days_in_year(leap);
        lemma_split_month_range(leap, 1, doy as int);
    }
    let ghost doy0: int = doy as int;
    let mut month: u64 = 1;
    let mut dom: u64 = doy;
    while month < 12 && dom >= month_len_exec(leap, month)
        invariant
            1 <= month <= 12,
            dom as int <= doy0,
            split_month(leap, month as int, dom as int) == split_month(leap, 1, doy0),
        decreases 12 - month,
    {
        let mlen = month_len_exec(leap, month);
        dom = dom - mlen;
        month = month + 1;
    }
    proof {
        assert(split_month(leap, month as int, dom as int) == (month as int, dom as int));
        assert(dom as int == split_month(leap, 1, doy0).1);
        assert(dom < 31);
    }
    let h: u64 = rem / 3600000;
    let mi: u64 = (rem % 3600000) / 60000;
    let se: u64 = (rem % 60000) / 1000;
    let msec: u64 = rem % 1000;
    let mut out: Vec<char> = pad_num(year, 4);
    out.push('-');
    let mut piece: Vec<char> = pad_num(month, 2);
    out.append(&mut piece);
    out.push('-');
    let mut piece: Vec<char> = pad_num(dom + 1, 2);
    out.append(&mut piece);
    out.push('T');
    let mut piece: Vec<char> = pad_num(h, 2);
    out.append(&mut piece);
    out.push(':');
    let mut piece: Vec<char> = pad_num(mi, 2);
    out.append(&mut piece);
    out.push(':');
    let mut piece: Vec<char> = pad_num(se, 2);
    out.append(&mut piece);
    out.push('.');
    let mut piece: Vec<char> = pad_num(msec, 3);
    out.append(&mut piece);
    out.push('Z');
    proof {
        assert(out@ =~= iso8601_spec(now_millis));
        lemma_iso8601_valid(now_millis);
    }
    string_from_chars(&out)
}

} // verus!
