//! Clock-time formatting for the demo's date label.
//!
//! The driver around the library reads the clock; [`format_time`] turns the
//! seconds since the Unix epoch into text, expanding a small strftime-style
//! format: `%H`, `%M` and `%S` for the time of day, `%D` for the
//! month/day/year date, `%%` for a literal percent sign.  Any other byte —
//! and any unknown conversion — is copied through.  The one failure the
//! helper knows is a format string that cannot be marshaled for the native
//! boundary because it holds a NUL byte.
//!
//! The calendar is the proleptic Gregorian one, counted year by year from
//! 1970: a year is split off the day count while a whole year remains, and
//! the day of the year falls into a month by the cumulative month lengths.

use vstd::prelude::*;
use crate::text::is_nul_free;
use crate::text::spec_nul_free;

verus! {

/// True for Gregorian leap years.
pub open spec fn spec_is_leap(y: int) -> bool {
    y % 4 == 0 && (y % 100 != 0 || y % 400 == 0)
}

/// Number of days in the year `y`.
pub open spec fn spec_days_in_year(y: int) -> int {
    if spec_is_leap(y) {
        366
    } else {
        365
    }
}

/// Split a day count into a year and the day within that year, counting
/// whole years up from `y`.
pub open spec fn spec_split_year(days: int, y: int) -> (int, int)
    decreases days,
    when days >= 0
{
    if days < spec_days_in_year(y) {
        (y, days)
    } else {
        spec_split_year(days - spec_days_in_year(y), y + 1)
    }
}

/// The year returned by [`spec_split_year`] is at least the starting year,
/// and the day within it is a real day of that year.
pub proof fn lemma_split_year_range(days: int, y: int)
    requires
        days >= 0,
    ensures
        ({
            let (ry, rd) = spec_split_year(days, y);
            ry >= y && 0 <= rd < spec_days_in_year(ry)
        }),
    decreases days,
{
    if days >= spec_days_in_year(y) {
        lemma_split_year_range(days - spec_days_in_year(y), y + 1);
    }
}

/// The month that the day `doy` of a year falls in, and the day within that
/// month, by the cumulative month lengths; `leap` is 1 in a leap year.
pub open spec fn spec_split_month(doy: int, leap: int) -> (int, int) {
    if doy < 31 {
        (1, doy)
    } else if doy < 59 + leap {
        (2, doy - 31)
    } else if doy < 90 + leap {
        (3, doy - (59 + leap))
    } else if doy < 120 + leap {
        (4, doy - (90 + leap))
    } else if doy < 151 + leap {
        (5, doy - (120 + leap))
    } else if doy < 181 + leap {
        (6, doy - (151 + leap))
    } else if doy < 212 + leap {
        (7, doy - (181 + leap))
    } else if doy < 243 + leap {
        (8, doy - (212 + leap))
    } else if doy < 273 + leap {
        (9, doy - (243 + leap))
    } else if doy < 304 + leap {
        (10, doy - (273 + leap))
    } else if doy < 334 + leap {
        (11, doy - (304 + leap))
    } else {
        (12, doy - (334 + leap))
    }
}

/// The year, month and day-of-month of an epoch timestamp.
pub open spec fn spec_civil_date(secs: int) -> (int, int, int) {
    let (y, doy) = spec_split_year(secs / 86400, 1970);
    let leap: int = if spec_is_leap(y) {
        1
    } else {
        0
    };
    let (m, dom) = spec_split_month(doy, leap);
    (y, m, dom + 1)
}

/// Hour of the day of an epoch timestamp.
pub open spec fn spec_hour(secs: int) -> int {
    secs / 3600 % 24
}

/// Minute of the hour of an epoch timestamp.
pub open spec fn spec_minute(secs: int) -> int {
    secs / 60 % 60
}

/// Second of the minute of an epoch timestamp.
pub open spec fn spec_second(secs: int) -> int {
    secs % 60
}

/// A number under one hundred as two decimal digit bytes.
pub open spec fn spec_two_digits(n: int) -> Seq<u8>
    recommends
        0 <= n < 100,
{
    seq![(48 + n / 10) as u8, (48 + n % 10) as u8]
}

/// What one conversion byte expands to: a known conversion gives its value,
/// a lone percent escapes itself, anything else is copied through with its
/// percent sign.
pub open spec fn spec_conversion(secs: int, c: u8) -> Seq<u8> {
    if c == 72 {  // H
        spec_two_digits(spec_hour(secs))
    } else if c == 77 {  // M
        spec_two_digits(spec_minute(secs))
    } else if c == 83 {  // S
        spec_two_digits(spec_second(secs))
    } else if c == 68 {  // D
        ({
            let (y, m, d) = spec_civil_date(secs);
            spec_two_digits(m) + seq![47u8] + spec_two_digits(d) + seq![47u8] + spec_two_digits(
                y % 100,
            )
        })
    } else if c == 37 {  // %
        seq![37u8]
    } else {
        seq![37u8, c]
    }
}

/// The expansion of a whole format string for an epoch timestamp.
pub open spec fn spec_format_time(secs: int, fmt: Seq<u8>) -> Seq<u8>
    decreases fmt.len(),
{
    if fmt.len() == 0 {
        Seq::empty()
    } else if fmt[0] == 37 {
        if fmt.len() == 1 {
            seq![37u8]
        } else {
            spec_conversion(secs, fmt[1]) + spec_format_time(secs, fmt.skip(2))
        }
    } else {
        seq![fmt[0]] + spec_format_time(secs, fmt.skip(1))
    }
}

/// Check for a Gregorian leap year.
fn is_leap(y: u64) -> (r: bool)
    ensures
        r == spec_is_leap(y as int),
{
    y % 4 == 0 && (y % 100 != 0 || y % 400 == 0)
}

/// Split a day count since the epoch into a year and the day within it.
fn split_year(days: u64) -> (r: (u64, u64))
    ensures
        (r.0 as int, r.1 as int) == spec_split_year(days as int, 1970),
        1970 <= r.0,
        r.1 < spec_days_in_year(r.0 as int),
{
    let mut d: u64 = days;
    let mut y: u64 = 1970;
    loop
        invariant
            1970 <= y,
            d <= days,
            (y - 1970) * 365 <= days - d,
            spec_split_year(days as int, 1970) == spec_split_year(d as int, y as int),
        ensures
            d < spec_days_in_year(y as int),
            spec_split_year(days as int, 1970) == (y as int, d as int),
        decreases d,
    {
        let diy: u64 = if is_leap(y) {
            366
        } else {
            365
        };
        if d < diy {
            break ;
        }
        d = d - diy;
        y = y + 1;
    }
    proof {
        lemma_split_year_range(days as int, 1970);
    }
    (y, d)
}

/// The year, month and day-of-month of an epoch timestamp.
fn civil_date(secs: u64) -> (r: (u64, u64, u64))
    ensures
        (r.0 as int, r.1 as int, r.2 as int) == spec_civil_date(secs as int),
        1 <= r.1 <= 12,
        1 <= r.2 <= 31,
{
    let days: u64 = secs / 86400;
    let (y, doy) = split_year(days);
    let leap: u64 = if is_leap(y) {
        1
    } else {
        0
    };
    let (m, dom): (u64, u64) = if doy < 31 {
        (1, doy)
    } else if doy < 59 + leap {
        (2, doy - 31)
    } else if doy < 90 + leap {
        (3, doy - (59 + leap))
    } else if doy < 120 + leap {
        (4, doy - (90 + leap))
    } else if doy < 151 + leap {
        (5, doy - (120 + leap))
    } else if doy < 181 + leap {
        (6, doy - (151 + leap))
    } else if doy < 212 + leap {
        (7, doy - (181 + leap))
    } else if doy < 243 + leap {
        (8, doy - (212 + leap))
    } else if doy < 273 + leap {
        (9, doy - (243 + leap))
    } else if doy < 304 + leap {
        (10, doy - (273 + leap))
    } else if doy < 334 + leap {
        (11, doy - (304 + leap))
    } else {
        (12, doy - (334 + leap))
    };
    (y, m, dom + 1)
}

/// Append a number under one hundred as two decimal digits.
fn push_two_digits(out: &mut Vec<u8>, n: u64)
    requires
        n < 100,
    ensures
        final(out)@ == old(out)@ + spec_two_digits(n as int),
{
    out.push((48 + n / 10) as u8);
    out.push((48 + n % 10) as u8);
    proof {
        assert(final(out)@ =~= old(out)@ + spec_two_digits(n as int));
    }
}

/// Format an epoch timestamp with a strftime-style format string.
///
/// The only failure is a format that cannot be marshaled for the native
/// boundary: one holding a NUL byte.  Every other format is expanded, with
/// unknown conversions copied through; the result is plain ASCII text.
pub fn format_time(secs: u64, format: &[u8]) -> (r: Result<Vec<u8>, ()>)
    ensures
        r is Err <==> !spec_nul_free(format@),
        r matches Ok(out) ==> out@ == spec_format_time(secs as int, format@),
{
    if !is_nul_free(format) {
        return Err(());
    }
    let (year, month, day) = civil_date(secs);
    let hour: u64 = secs / 3600 % 24;
    let minute: u64 = secs / 60 % 60;
    let second: u64 = secs % 60;

    let ghost t: int = secs as int;
    let n: usize = format.len();
    let mut out: Vec<u8> = Vec::new();
    let mut i: usize = 0;
    proof {
        assert(format@.skip(0) =~= format@);
    }
    while i < n
        invariant
            0 <= i <= n,
            n == format@.len(),
            spec_format_time(t, format@) == out@ + spec_format_time(t, format@.skip(i as int)),
            t == secs as int,
            (year as int, month as int, day as int) == spec_civil_date(t),
            month < 100,
            day < 100,
            hour == spec_hour(t) && hour < 100,
            minute == spec_minute(t) && minute < 100,
            second == spec_second(t) && second < 100,
        decreases n - i,
    {
        let ghost rest = format@.skip(i as int);
        proof {
            assert(rest[0] == format@[i as int]);
        }
        let b = format[i];
        if b == 37 && i + 1 < n {
            let c = format[i + 1];
            proof {
                assert(rest[1] == format@[i as int + 1]);
                assert(rest.skip(2) =~= format@.skip(i as int + 2));
            }
            if c == 72 {
                push_two_digits(&mut out, hour);
            } else if c == 77 {
                push_two_digits(&mut out, minute);
            } else if c == 83 {
                push_two_digits(&mut out, second);
            } else if c == 68 {
                push_two_digits(&mut out, month);
                out.push(47);
                push_two_digits(&mut out, day);
                out.push(47);
                push_two_digits(&mut out, year % 100);
            } else if c == 37 {
                out.push(37);
            } else {
                out.push(37);
                out.push(c);
            }
            proof {
                assert(spec_format_time(t, format@) == out@ + spec_format_time(
                    t,
                    format@.skip(i as int + 2),
                ));
            }
            i = i + 2;
        } else {
            out.push(b);
            proof {
                assert(rest.skip(1) =~= format@.skip(i as int + 1));
                if b == 37 {
                    assert(rest.len() == 1);
                }
                assert(spec_format_time(t, format@) == out@ + spec_format_time(
                    t,
                    format@.skip(i as int + 1),
                ));
            }
            i = i + 1;
        }
    }
    proof {
        assert(format@.skip(n as int) =~= Seq::<u8>::empty());
    }
    Ok(out)
}

} // verus!
