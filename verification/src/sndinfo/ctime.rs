//! The C library's `ctime` rendering of a Unix timestamp, in UTC: the shape
//! in which the sound-file reports print a file's date
//! (`Wed Jul 19 08:50:04 2000\n`).
//!
//! The calendar is the proleptic Gregorian one, counted from 1 January 1970:
//! [`civil_date`] steps from that day year by year and then month by month,
//! and [`day_number`] counts back. The two are inverse to each other on
//! valid dates ([`lemma_civil_date_is_day_number_inverse`],
//! [`lemma_day_number_is_civil_date_inverse`]).

use crate::text::{decimal, pad_left, push_char, push_decimal, push_signed_decimal, push_str, signed_decimal};
use vstd::arithmetic::div_mod::{lemma_fundamental_div_mod, lemma_fundamental_div_mod_converse};
use vstd::prelude::*;
use vstd::string::*;

verus! {

/// Whether `y` is a leap year of the Gregorian calendar.
pub open spec fn is_leap(y: int) -> bool {
    (y % 4 == 0 && y % 100 != 0) || y % 400 == 0
}

/// The number of days of year `y`.
pub open spec fn days_in_year(y: int) -> int {
    if is_leap(y) {
        366
    } else {
        365
    }
}

/// The number of days of month `m` (1 to 12) of year `y`.
pub open spec fn days_in_month(y: int, m: int) -> int {
    if m == 2 {
        if is_leap(y) {
            29
        } else {
            28
        }
    } else if m == 4 || m == 6 || m == 9 || m == 11 {
        30
    } else {
        31
    }
}

/// The number of days of year `y` before the first of month `m`.
pub open spec fn days_before_month(y: int, m: int) -> int
    decreases m,
{
    if m <= 1 {
        0
    } else {
        days_before_month(y, m - 1) + days_in_month(y, m - 1)
    }
}

/// The number of days from 1 January 1970 to 1 January of year `y`
/// (negative before 1970).
pub open spec fn days_before_year(y: int) -> int
    decreases (if y >= 1970 {
        y - 1970
    } else {
        1970 - y
    }),
{
    if y == 1970 {
        0
    } else if y > 1970 {
        days_before_year(y - 1) + days_in_year(y - 1)
    } else {
        days_before_year(y + 1) - days_in_year(y)
    }
}

/// The number of days from 1 January 1970 to the date `(y, m, d)`.
pub open spec fn day_number(y: int, m: int, d: int) -> int {
    days_before_year(y) + days_before_month(y, m) + d - 1
}

/// Whether `(y, m, d)` is a date of the calendar.
pub open spec fn valid_date(y: int, m: int, d: int) -> bool {
    1 <= m <= 12 && 1 <= d <= days_in_month(y, m)
}

/// The month and day of the day that lies `rem` days after the first of
/// month `m` of year `y`, stepping month by month.
pub open spec fn month_from(y: int, m: int, rem: int) -> (int, int)
    decreases 12 - m,
{
    if m >= 12 || rem < days_in_month(y, m) {
        (m, rem + 1)
    } else {
        month_from(y, m + 1, rem - days_in_month(y, m))
    }
}

/// The date of the day that lies `rem` days after 1 January of year `y`
/// (before it, when `rem` is negative), stepping year by year.
pub open spec fn date_from(y: int, rem: int) -> (int, int, int)
    decreases (if rem < 0 {
        400 - rem
    } else {
        rem
    }),
{
    if rem < 0 {
        date_from(y - 1, rem + days_in_year(y - 1))
    } else if rem >= days_in_year(y) {
        date_from(y + 1, rem - days_in_year(y))
    } else {
        let md = month_from(y, 1, rem);
        (y, md.0, md.1)
    }
}

/// The date (year, month, day) of the day numbered `days` from 1 January
/// 1970.
pub open spec fn civil_date(days: int) -> (int, int, int) {
    date_from(1970, days)
}

/// Consecutive years are one year's length apart.
proof fn lemma_days_before_next_year(y: int)
    ensures
        days_before_year(y + 1) == days_before_year(y) + days_in_year(y),
{
    if y >= 1970 {
    } else {
        assert(days_before_year(y) == days_before_year(y + 1) - days_in_year(y));
    }
}

/// The months of a year add up to the year.
proof fn lemma_months_fill_the_year(y: int)
    ensures
        days_before_month(y, 13) == days_in_year(y),
        days_before_month(y, 12) + days_in_month(y, 12) == days_in_year(y),
{
    reveal_with_fuel(days_before_month, 13);
}

/// Stepping months from month `m` lands on a valid date with the given
/// offset in the year.
proof fn lemma_month_from(y: int, m: int, rem: int)
    requires
        1 <= m <= 12,
        0 <= rem,
        days_before_month(y, m) + rem < days_in_year(y),
    ensures
        valid_date(y, month_from(y, m, rem).0, month_from(y, m, rem).1),
        days_before_month(y, month_from(y, m, rem).0) + month_from(y, m, rem).1 - 1
            == days_before_month(y, m) + rem,
    decreases 12 - m,
{
    lemma_months_fill_the_year(y);
    if m >= 12 || rem < days_in_month(y, m) {
    } else {
        lemma_month_from(y, m + 1, rem - days_in_month(y, m));
    }
}

/// Stepping from year `y` lands on a valid date whose day number is `rem`
/// days after 1 January of `y`.
proof fn lemma_date_from(y: int, rem: int)
    ensures
        valid_date(date_from(y, rem).0, date_from(y, rem).1, date_from(y, rem).2),
        day_number(date_from(y, rem).0, date_from(y, rem).1, date_from(y, rem).2)
            == days_before_year(y) + rem,
    decreases (if rem < 0 {
        400 - rem
    } else {
        rem
    }),
{
    if rem < 0 {
        lemma_days_before_next_year(y - 1);
        lemma_date_from(y - 1, rem + days_in_year(y - 1));
    } else if rem >= days_in_year(y) {
        lemma_days_before_next_year(y);
        lemma_date_from(y + 1, rem - days_in_year(y));
    } else {
        lemma_month_from(y, 1, rem);
    }
}

/// Stepping months from month `m` finds every later day of the year.
proof fn lemma_month_from_finds(y: int, m: int, mm: int, d: int)
    requires
        1 <= m <= mm,
        valid_date(y, mm, d),
    ensures
        month_from(y, m, days_before_month(y, mm) - days_before_month(y, m) + d - 1) == (mm, d),
    decreases 12 - m,
{
    reveal_with_fuel(days_before_month, 2);
    if m < mm {
        assert(days_before_month(y, mm) >= days_before_month(y, m + 1)) by {
            lemma_days_before_month_monotone(y, m + 1, mm);
        }
        lemma_month_from_finds(y, m + 1, mm, d);
    }
}

/// Later months start later in the year.
proof fn lemma_days_before_month_monotone(y: int, a: int, b: int)
    requires
        a <= b,
    ensures
        days_before_month(y, a) <= days_before_month(y, b),
    decreases b - a,
{
    if a < b {
        lemma_days_before_month_monotone(y, a, b - 1);
    }
}

/// Stepping from any year reaches the date `(yy, m, d)` when the offset is
/// that date's distance from 1 January of the starting year.
proof fn lemma_date_from_finds(y: int, yy: int, m: int, d: int)
    requires
        valid_date(yy, m, d),
    ensures
        date_from(y, day_number(yy, m, d) - days_before_year(y)) == (yy, m, d),
    decreases (if y <= yy {
        yy - y
    } else {
        y - yy
    }),
{
    let k = days_before_month(yy, m) + d - 1;
    assert(0 <= k < days_in_year(yy)) by {
        lemma_days_before_month_monotone(yy, m, 12);
        lemma_days_before_month_monotone(yy, 1, m);
        lemma_months_fill_the_year(yy);
        if m < 12 {
            lemma_days_before_month_monotone(yy, m + 1, 12);
        }
    }
    let rem = day_number(yy, m, d) - days_before_year(y);
    if y == yy {
        lemma_month_from_finds(yy, 1, m, d);
    } else if y < yy {
        lemma_days_before_next_year(y);
        lemma_days_before_year_bound(y + 1, yy);
        lemma_date_from_finds(y + 1, yy, m, d);
    } else {
        lemma_days_before_next_year(y - 1);
        lemma_days_before_year_bound(yy + 1, y);
        lemma_date_from_finds(y - 1, yy, m, d);
    }
}

/// A year starts no earlier than a full year after any earlier year.
proof fn lemma_days_before_year_bound(a: int, b: int)
    requires
        a <= b,
    ensures
        days_before_year(b) >= days_before_year(a) + 365 * (b - a),
    decreases b - a,
{
    if a < b {
        lemma_days_before_year_bound(a, b - 1);
        lemma_days_before_next_year(b - 1);
    }
}

/// The date of day `days` is a valid date whose day number is `days`.
pub proof fn lemma_civil_date_is_day_number_inverse(days: int)
    ensures
        valid_date(civil_date(days).0, civil_date(days).1, civil_date(days).2),
        day_number(civil_date(days).0, civil_date(days).1, civil_date(days).2) == days,
{
    lemma_date_from(1970, days);
}

/// Every valid date is the date of its own day number.
pub proof fn lemma_day_number_is_civil_date_inverse(y: int, m: int, d: int)
    requires
        valid_date(y, m, d),
    ensures
        civil_date(day_number(y, m, d)) == (y, m, d),
{
    lemma_date_from_finds(1970, y, m, d);
}

/// `a / b` rounded toward negative infinity.
pub open spec fn floor_div(a: int, b: int) -> int {
    if b > 0 {
        a / b
    } else {
        (-a) / (-b)
    }
}

/// The magnitude of `a`.
fn magnitude(a: i64) -> (r: u64)
    ensures
        r as int == (if a < 0 {
            -a
        } else {
            a as int
        }),
{
    if a < 0 {
        if a == i64::MIN {
            0x8000_0000_0000_0000u64
        } else {
            (-a) as u64
        }
    } else {
        a as u64
    }
}

/// `a / b` rounded toward negative infinity.
fn div_floor(a: i64, b: i64) -> (r: i64)
    requires
        b != 0,
        !(a == i64::MIN && b == -1),
    ensures
        r as int == floor_div(a as int, b as int),
{
    let am = magnitude(a);
    let bm = magnitude(b);
    let q = am / bm;
    let rm = am % bm;
    proof {
        lemma_fundamental_div_mod(am as int, bm as int);
        assert(am as int == bm * q + rm);
        assert(0 <= rm < bm);
    }
    if (a < 0) == (b < 0) {
        proof {
            if a < 0 {
                lemma_fundamental_div_mod_converse(-a, -b, q as int, rm as int);
            } else {
                lemma_fundamental_div_mod_converse(a as int, b as int, q as int, rm as int);
            }
        }
        assert(q <= 0x7fff_ffff_ffff_ffffu64) by (nonlinear_arith)
            requires
                am as int == bm * q + rm,
                0 <= rm < bm,
                bm >= 1,
                am <= 0x8000_0000_0000_0000u64,
                bm == 1 ==> am < 0x8000_0000_0000_0000u64,
        ;
        q as i64
    } else {
        let neg = if rm == 0 {
            q
        } else {
            q + 1
        };
        proof {
            let x: int = if b > 0 {
                a as int
            } else {
                -a
            };
            assert(x == -(am as int));
            if rm == 0 {
                assert(x == -q * bm) by (nonlinear_arith)
                    requires
                        am as int == bm * q + rm,
                        rm == 0,
                        x == -(am as int),
                ;
                lemma_fundamental_div_mod_converse(x, bm as int, -q, 0);
            } else {
                assert(x == (-q - 1) * bm + (bm - rm)) by (nonlinear_arith)
                    requires
                        am as int == bm * q + rm,
                        x == -(am as int),
                ;
                lemma_fundamental_div_mod_converse(x, bm as int, -q - 1, bm - rm);
            }
            assert(neg <= am) by (nonlinear_arith)
                requires
                    am as int == bm * q + rm,
                    0 <= rm < bm,
                    bm >= 1,
                    neg == (if rm == 0 {
                        q as int
                    } else {
                        q + 1
                    }),
            ;
        }
        if neg == 0x8000_0000_0000_0000u64 {
            i64::MIN
        } else {
            -(neg as i64)
        }
    }
}

/// Whether `y` is a leap year.
#[verifier::spinoff_prover]
fn is_leap_exec(y: i64) -> (r: bool)
    ensures
        r == is_leap(y as int),
{
    (y % 4 == 0 && y % 100 != 0) || y % 400 == 0
}

/// The number of days of year `y`.
fn days_in_year_exec(y: i64) -> (r: i64)
    ensures
        r == days_in_year(y as int),
        365 <= r <= 366,
{
    if is_leap_exec(y) {
        366
    } else {
        365
    }
}

/// The number of days of month `m` of year `y`.
fn days_in_month_exec(y: i64, m: u32) -> (r: i64)
    ensures
        r == days_in_month(y as int, m as int),
        28 <= r <= 31,
{
    if m == 2 {
        if is_leap_exec(y) {
            29
        } else {
            28
        }
    } else if m == 4 || m == 6 || m == 9 || m == 11 {
        30
    } else {
        31
    }
}

/// The date (year, month, day) of the day numbered `days` from 1 January
/// 1970.
pub fn civil_from_days(days: i64) -> (r: (i64, u32, u32))
    ensures
        (r.0 as int, r.1 as int, r.2 as int) == civil_date(days as int),
{
    let mut y: i64 = 1970;
    let mut rem: i64 = days;
    while rem < 0
        invariant
            date_from(y as int, rem as int) == civil_date(days as int),
            y <= 1970,
            (1970 - y) * 365 <= rem - days,
            rem < 366 || rem == days,
        decreases 366 - rem,
    {
        y = y - 1;
        rem = rem + days_in_year_exec(y);
    }
    while rem >= days_in_year_exec(y)
        invariant
            date_from(y as int, rem as int) == civil_date(days as int),
            rem >= 0,
            (y - 1970) * 365 <= (if days >= 0 {
                days as int
            } else {
                0
            }) - rem + 365,
            y >= -30_000_000_000_000_000,
        decreases rem,
    {
        rem = rem - days_in_year_exec(y);
        y = y + 1;
    }
    let ghost rem0 = rem as int;
    let mut m: u32 = 1;
    proof {
        lemma_months_fill_the_year(y as int);
    }
    while m < 12 && rem >= days_in_month_exec(y, m)
        invariant
            1 <= m <= 12,
            0 <= rem,
            0 <= rem0 < days_in_year(y as int),
            date_from(y as int, rem0) == civil_date(days as int),
            days_before_month(y as int, m as int) + rem < days_in_year(y as int),
            days_before_month(y as int, 12) + days_in_month(y as int, 12) == days_in_year(y as int),
            month_from(y as int, m as int, rem as int) == month_from(y as int, 1, rem0),
        decreases 12 - m,
    {
        rem = rem - days_in_month_exec(y, m);
        m = m + 1;
    }
    (y, m, (rem + 1) as u32)
}

/// The abbreviated name of weekday `k` (0 is Sunday).
pub open spec fn weekday_name(k: int) -> Seq<char> {
    if k == 0 {
        "Sun"@
    } else if k == 1 {
        "Mon"@
    } else if k == 2 {
        "Tue"@
    } else if k == 3 {
        "Wed"@
    } else if k == 4 {
        "Thu"@
    } else if k == 5 {
        "Fri"@
    } else {
        "Sat"@
    }
}

/// The abbreviated name of month `m` (1 is January).
pub open spec fn month_name(m: int) -> Seq<char> {
    if m == 1 {
        "Jan"@
    } else if m == 2 {
        "Feb"@
    } else if m == 3 {
        "Mar"@
    } else if m == 4 {
        "Apr"@
    } else if m == 5 {
        "May"@
    } else if m == 6 {
        "Jun"@
    } else if m == 7 {
        "Jul"@
    } else if m == 8 {
        "Aug"@
    } else if m == 9 {
        "Sep"@
    } else if m == 10 {
        "Oct"@
    } else if m == 11 {
        "Nov"@
    } else {
        "Dec"@
    }
}

/// The twelve month abbreviations in calendar order.
pub open spec fn calendar_months() -> Seq<Seq<char>> {
    seq!["Jan"@, "Feb"@, "Mar"@, "Apr"@, "May"@, "Jun"@, "Jul"@, "Aug"@, "Sep"@, "Oct"@, "Nov"@, "Dec"@]
}

/// The seven weekday abbreviations, from Sunday.
pub open spec fn calendar_weekdays() -> Seq<Seq<char>> {
    seq!["Sun"@, "Mon"@, "Tue"@, "Wed"@, "Thu"@, "Fri"@, "Sat"@]
}

/// The date line names the civil month of its date: characters 4 to 6 of
/// the `ctime` line of `ts` are the `m`th of Jan, Feb, ..., Dec, where `m`
/// is the month of the day `ts` falls on; characters 0 to 2 name the
/// weekday, counted from the Thursday of 1 January 1970.
pub proof fn lemma_ctime_names_month_and_weekday(ts: int)
    ensures
        ({
            let days = floor_div(ts, 86400);
            let m = civil_date(days).1;
            &&& 1 <= m <= 12
            &&& ctime_text(ts).subrange(4, 7) == calendar_months()[m - 1]
            &&& ctime_text(ts).subrange(0, 3) == calendar_weekdays()[(days + 4) % 7]
        }),
{
    reveal_strlit("Jan");
    reveal_strlit("Feb");
    reveal_strlit("Mar");
    reveal_strlit("Apr");
    reveal_strlit("May");
    reveal_strlit("Jun");
    reveal_strlit("Jul");
    reveal_strlit("Aug");
    reveal_strlit("Sep");
    reveal_strlit("Oct");
    reveal_strlit("Nov");
    reveal_strlit("Dec");
    reveal_strlit("Sun");
    reveal_strlit("Mon");
    reveal_strlit("Tue");
    reveal_strlit("Wed");
    reveal_strlit("Thu");
    reveal_strlit("Fri");
    reveal_strlit("Sat");
    reveal_strlit(" ");
    let days = floor_div(ts, 86400);
    let date = civil_date(days);
    let m = date.1;
    lemma_civil_date_is_day_number_inverse(days);
    let k = (days + 4) % 7;
    assert(0 <= k < 7);
    let wd = weekday_name(k);
    let mn = month_name(m);
    assert(wd == calendar_weekdays()[k]);
    assert(mn == calendar_months()[m - 1]);
    assert(wd.len() == 3);
    assert(mn.len() == 3);
    let rest = " "@ + pad_left(decimal(date.2 as nat), 2, ' ') + " "@ + two_digits((ts - days * 86400) / 3600)
        + ":"@ + two_digits(((ts - days * 86400) % 3600) / 60) + ":"@ + two_digits((ts - days * 86400) % 60)
        + " "@ + signed_decimal(date.0) + "\n"@;
    assert(ctime_text(ts) =~= wd + " "@ + mn + rest);
    assert((wd + " "@ + mn + rest).subrange(4, 7) =~= mn);
    assert((wd + " "@ + mn + rest).subrange(0, 3) =~= wd);
}

/// `n` in two digits, zero-padded.
pub open spec fn two_digits(n: int) -> Seq<char> {
    pad_left(decimal(n as nat), 2, '0')
}

/// The `ctime` line of timestamp `ts` (seconds since the epoch, UTC):
/// weekday, month, day padded to two places, the time of day in two-digit
/// fields, the year, and a newline.
pub open spec fn ctime_text(ts: int) -> Seq<char> {
    let days = floor_div(ts, 86400);
    let secs = ts - days * 86400;
    let date = civil_date(days);
    weekday_name((days + 4) % 7) + " "@ + month_name(date.1) + " "@ + pad_left(
        decimal(date.2 as nat),
        2,
        ' ',
    ) + " "@ + two_digits(secs / 3600) + ":"@ + two_digits((secs % 3600) / 60) + ":"@
        + two_digits(secs % 60) + " "@ + signed_decimal(date.0) + "\n"@
}

/// Appends `n` (below 100) padded on the left with `pad` to two places.
fn push_two_places(s: &mut String, n: u64, pad: char)
    requires
        n < 100,
    ensures
        final(s)@ == old(s)@ + pad_left(decimal(n as nat), 2, pad),
{
    reveal_with_fuel(decimal, 3);
    if n < 10 {
        push_char(s, pad);
        push_decimal(s, n);
        assert(decimal(n as nat).len() == 1);
        assert(Seq::new(1, |_i: int| pad) + decimal(n as nat) =~= seq![pad] + decimal(n as nat));
        assert(old(s)@.push(pad) + decimal(n as nat) =~= old(s)@ + (seq![pad] + decimal(n as nat)));
    } else {
        push_decimal(s, n);
        assert(decimal(n as nat).len() == 2);
    }
}

/// The abbreviated name of weekday `k` (0 is Sunday).
fn weekday_str(k: u64) -> (r: &'static str)
    requires
        k < 7,
    ensures
        r@ == weekday_name(k as int),
{
    if k == 0 {
        "Sun"
    } else if k == 1 {
        "Mon"
    } else if k == 2 {
        "Tue"
    } else if k == 3 {
        "Wed"
    } else if k == 4 {
        "Thu"
    } else if k == 5 {
        "Fri"
    } else {
        "Sat"
    }
}

/// The abbreviated name of month `m` (1 is January).
fn month_str(m: u32) -> (r: &'static str)
    ensures
        r@ == month_name(m as int),
{
    if m == 1 {
        "Jan"
    } else if m == 2 {
        "Feb"
    } else if m == 3 {
        "Mar"
    } else if m == 4 {
        "Apr"
    } else if m == 5 {
        "May"
    } else if m == 6 {
        "Jun"
    } else if m == 7 {
        "Jul"
    } else if m == 8 {
        "Aug"
    } else if m == 9 {
        "Sep"
    } else if m == 10 {
        "Oct"
    } else if m == 11 {
        "Nov"
    } else {
        "Dec"
    }
}

/// The `ctime` line of `timestamp` (`"Thu Jan  1 00:00:00 1970\n"` for 0).
#[verifier::rlimit(40)]
pub fn format(timestamp: i32) -> (r: String)
    ensures
        r@ == ctime_text(timestamp as int),
{
    let t = timestamp as i64;
    let days = div_floor(t, 86400);
    proof {
        lemma_fundamental_div_mod(t as int, 86400);
        assert(0 <= t % 86400 < 86400);
        assert(-24856 <= days <= 24855);
    }
    let secs = (t - days * 86400) as u64;
    let hour = secs / 3600;
    let minute = (secs % 3600) / 60;
    let second = secs % 60;
    let shifted = (days + 70004) as u64;
    let weekday = shifted % 7;
    proof {
        lemma_fundamental_div_mod(shifted as int, 7);
        lemma_fundamental_div_mod_converse(days + 4, 7, shifted as int / 7 - 10000, weekday as int);
    }
    let date = civil_from_days(days);
    proof {
        lemma_civil_date_is_day_number_inverse(days as int);
    }
    let mut r = String::new();
    push_str(&mut r, weekday_str(weekday));
    push_str(&mut r, " ");
    push_str(&mut r, month_str(date.1));
    push_str(&mut r, " ");
    push_two_places(&mut r, date.2 as u64, ' ');
    push_str(&mut r, " ");
    push_two_places(&mut r, hour, '0');
    push_str(&mut r, ":");
    push_two_places(&mut r, minute, '0');
    push_str(&mut r, ":");
    push_two_places(&mut r, second, '0');
    push_str(&mut r, " ");
    push_signed_decimal(&mut r, date.0);
    push_str(&mut r, "\n");
    r
}

} // verus!
