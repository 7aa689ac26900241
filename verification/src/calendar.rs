//! Timestamps of the example list: the current time and the Chinese-style
//! calendar date (`2024年01月05日`) of a Unix timestamp in milliseconds.
use vstd::prelude::*;
use chrono::{Datelike, TimeZone, Utc};
use crate::text::{padded_int, push_padded};

verus! {

/// The UTC calendar date `(year, month, day)` of a Unix timestamp in
/// milliseconds, as chrono computes it; `None` outside chrono's date range.
pub uninterp spec fn utc_date_of_millis(ms: i64) -> Option<(i32, u32, u32)>;

/// `y` is a leap year of the proleptic Gregorian calendar.
pub open spec fn is_leap_year(y: int) -> bool {
    y % 4 == 0 && (y % 100 != 0 || y % 400 == 0)
}

/// The number of days of month `m` of year `y`.
pub open spec fn days_in_month(y: int, m: int) -> int {
    if m == 2 {
        if is_leap_year(y) {
            29
        } else {
            28
        }
    } else if m == 4 || m == 6 || m == 9 || m == 11 {
        30
    } else {
        31
    }
}

/// The day number of the proleptic Gregorian date `y-m-d`, counted from
/// 1970-01-01 (day 0), for a month from 1 to 12.
pub open spec fn days_from_civil(y: int, m: int, d: int) -> int {
    let yy = if m <= 2 {
        y - 1
    } else {
        y
    };
    let era = yy / 400;
    let yoe = yy - era * 400;
    let mp = if m > 2 {
        m - 3
    } else {
        m + 9
    };
    let doy = (153 * mp + 2) / 5 + d - 1;
    let doe = yoe * 365 + yoe / 4 - yoe / 100 + doy;
    era * 146097 + doe - 719468
}

/// The years chrono's dates cover: from 262144 BCE (year -262143) to
/// 262142 CE.
pub open spec fn chrono_year_range(y: int) -> bool {
    -262143 <= y <= 262142
}

/// `chrono::Utc.timestamp_millis_opt(ms).single()`, read back as year, month
/// and day. chrono reads the timestamp as the day `ms` divided by
/// 86 400 000, rounded down, counted from 1970-01-01, and gives that day's
/// date in the proleptic Gregorian calendar; the result is `None` exactly
/// when that day lies outside chrono's years (`NaiveDate::MIN` to
/// `NaiveDate::MAX`).
#[verifier::external_body]
fn utc_date(ms: i64) -> (res: Option<(i32, u32, u32)>)
    ensures
        res == utc_date_of_millis(ms),
        (res is Some) == (days_from_civil(-262143, 1, 1) <= ms as int / 86_400_000 <= days_from_civil(
            262142,
            12,
            31,
        )),
        res matches Some((y, m, d)) ==> chrono_year_range(y as int),
        res matches Some((y, m, d)) ==> 1 <= m <= 12 && 1 <= d <= days_in_month(y as int, m as int)
            && days_from_civil(y as int, m as int, d as int) == ms as int / 86_400_000,
        ms == 0 ==> res == Some((1970i32, 1u32, 1u32)),
{
    match Utc.timestamp_millis_opt(ms).single() {
        Some(dt) => Some((dt.year(), dt.month(), dt.day())),
        None => None,
    }
}

/// `年`/`月`/`日` date text with a four-digit year and two-digit month and day.
pub open spec fn date_cn_text(y: int, m: int, d: int) -> Seq<char> {
    padded_int(y, 4) + "年"@ + padded_int(m, 2) + "月"@ + padded_int(d, 2) + "日"@
}

/// The date text of a timestamp; a timestamp whose day lies outside
/// chrono's years (see `utc_date`) falls back to the Unix epoch.
pub open spec fn date_cn(ms: i64) -> Seq<char> {
    match utc_date_of_millis(ms) {
        Some((y, m, d)) => date_cn_text(y as int, m as int, d as int),
        None => date_cn_text(1970, 1, 1),
    }
}

/// Formats the UTC calendar date of `timestamp_ms` as `YYYY年MM月DD日`.
pub fn date_cn_from_timestamp_ms(timestamp_ms: i64) -> (res: String)
    ensures
        res@ == date_cn(timestamp_ms),
        !(days_from_civil(-262143, 1, 1) <= timestamp_ms as int / 86_400_000 <= days_from_civil(
            262142,
            12,
            31,
        )) ==> res@ == date_cn_text(1970, 1, 1),
{
    let (y, m, d) = match utc_date(timestamp_ms) {
        Some(date) => date,
        None => utc_date(0).unwrap(),
    };
    let mut s = String::new();
    push_padded(&mut s, y as i64, 4);
    s.append("年");
    push_padded(&mut s, m as i64, 2);
    s.append("月");
    push_padded(&mut s, d as i64, 2);
    s.append("日");
    s
}

/// `std::time::UNIX_EPOCH.elapsed()` in whole milliseconds; `None` when the
/// system clock reads a time before the epoch. The value depends on the clock
/// and is not stated.
#[verifier::external_body]
fn millis_since_epoch() -> Option<u128> {
    match std::time::UNIX_EPOCH.elapsed() {
        Ok(elapsed) => Some(elapsed.as_millis()),
        Err(_) => None,
    }
}

/// The current time as a Unix timestamp in milliseconds (0 for a clock set
/// before the epoch).
pub fn now_timestamp_ms() -> i64 {
    match millis_since_epoch() {
        Some(ms) => ms as i64,
        None => 0,
    }
}

} // verus!
