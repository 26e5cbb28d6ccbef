//! Human-readable times: the Jalali date of a Unix timestamp, and how long
//! ago a timestamp was.

use vstd::prelude::*;
use vstd::string::StringExecFns;
use std::time::{Duration, SystemTime, UNIX_EPOCH};
use crate::text::{decimal, push_decimal, push_signed_decimal, signed_decimal};

verus! {

/// The earliest Unix timestamp that `chrono` represents (`DateTime::MIN_UTC`).
pub const CHRONO_MIN_TIMESTAMP: i64 = -8334601228800;

/// The latest Unix timestamp that `chrono` represents (`DateTime::MAX_UTC`).
pub const CHRONO_MAX_TIMESTAMP: i64 = 8210266876799;

/// The earliest timestamp whose Jalali date is computed here: the start of
/// the earliest day, counting back from the epoch, at which `jalali_calendar`
/// still converts without overflow (in Gregorian year -974).
pub const JALALI_MIN_TIMESTAMP: i64 = -92896934400;

/// The latest timestamp whose Jalali date is computed here: the end of the
/// last day, counting on from the epoch, at which `jalali_calendar` converts
/// without overflowing its 32-bit day and year arithmetic (about 5.88 million
/// years on).
pub const JALALI_MAX_TIMESTAMP: i64 = 185445911635199;

/// The text `YYYY/MM/DD` that `jalali_calendar` gives for the Jalali date of a
/// Unix timestamp.
pub uninterp spec fn jalali_date_text(timestamp: i64) -> Seq<char>;

/// Calls `jalali_calendar::JalaliDateTime::from_unix_timestamp` and formats
/// the date with `%Y/%m/%d`; the text is named by `jalali_date_text`. The
/// conversion overflows its 32-bit arithmetic, or an unsigned day or month,
/// for timestamps far from the present; the range left in is the widest one
/// around the epoch on which neither happens.
#[verifier::external_body]
pub(crate) fn jalali_format(timestamp: i64) -> (s: String)
    requires
        JALALI_MIN_TIMESTAMP <= timestamp <= JALALI_MAX_TIMESTAMP,
    ensures
        s@ == jalali_date_text(timestamp),
{
    jalali_calendar::JalaliDateTime::from_unix_timestamp(timestamp).unwrap().format("%Y/%m/%d")
}

/// A reading of the system clock, `std::time::SystemTime`.
#[verifier::external_type_specification]
#[verifier::external_body]
pub struct ExSystemTime(SystemTime);

/// Calls `SystemTime::now`: the current reading of the system clock.
#[verifier::external_body]
fn system_now() -> SystemTime {
    SystemTime::now()
}

/// Calls `SystemTime::duration_since` with `UNIX_EPOCH`: the time from the
/// epoch to `time`, or `None` where `time` lies before the epoch.
#[verifier::external_body]
fn since_unix_epoch(time: &SystemTime) -> Option<Duration> {
    time.duration_since(UNIX_EPOCH).ok()
}

/// Calls `Duration::as_secs`: the whole seconds of `duration`.
#[verifier::external_body]
fn duration_secs(duration: &Duration) -> u64 {
    duration.as_secs()
}

/// Calls `Duration::subsec_nanos`: the nanoseconds past the whole seconds,
/// which the documentation gives as less than one billion.
#[verifier::external_body]
fn duration_subsec_nanos(duration: &Duration) -> (n: u32)
    ensures
        n < 1_000_000_000,
{
    duration.subsec_nanos()
}

/// Calls `chrono::DateTime::<Utc>::from_timestamp(secs, nanos)` and gives the
/// `timestamp()` of the result. For nanoseconds below one second the result
/// exists exactly for the seconds between `MIN_UTC` and `MAX_UTC`, and its
/// timestamp is `secs` again.
#[verifier::external_body]
fn utc_timestamp(secs: i64, nanos: u32) -> (t: Option<i64>)
    requires
        nanos < 1_000_000_000,
    ensures
        t == (if CHRONO_MIN_TIMESTAMP <= secs <= CHRONO_MAX_TIMESTAMP {
            Some(secs)
        } else {
            None
        }),
{
    chrono::DateTime::<chrono::Utc>::from_timestamp(secs, nanos).map(|d| d.timestamp())
}

/// The seconds since the Unix epoch by the system clock, as a UTC time of
/// `chrono`; `None` where the clock reads before the epoch or beyond what
/// `chrono` represents.
pub(crate) fn utc_now_timestamp() -> (t: Option<i64>)
    ensures
        t matches Some(s) ==> CHRONO_MIN_TIMESTAMP <= s <= CHRONO_MAX_TIMESTAMP,
{
    let now = system_now();
    match since_unix_epoch(&now) {
        None => None,
        Some(since) => {
            let secs = duration_secs(&since);
            let nanos = duration_subsec_nanos(&since);
            if secs <= 9223372036854775807u64 {
                utc_timestamp(secs as i64, nanos)
            } else {
                None
            }
        },
    }
}

/// How long ago `seconds` seconds are: in seconds below a minute (negative
/// counts included), else in whole minutes, hours, days, 30-day months or
/// 365-day years, whichever is the largest unit that is at most `seconds`.
pub open spec fn time_ago_text(seconds: int) -> Seq<char> {
    if seconds < 60 {
        signed_decimal(seconds) + " seconds ago"@
    } else if seconds < 3600 {
        decimal((seconds / 60) as nat) + " minutes ago"@
    } else if seconds < 86400 {
        decimal((seconds / 3600) as nat) + " hours ago"@
    } else if seconds < 2592000 {
        decimal((seconds / 86400) as nat) + " days ago"@
    } else if seconds < 31536000 {
        decimal((seconds / 2592000) as nat) + " months ago"@
    } else {
        decimal((seconds / 31536000) as nat) + " years ago"@
    }
}

/// The Jalali date of a Unix timestamp, as `YYYY/MM/DD`.
pub fn convert_to_jalali(timestamp: i64) -> (s: String)
    requires
        JALALI_MIN_TIMESTAMP <= timestamp <= JALALI_MAX_TIMESTAMP,
    ensures
        s@ == jalali_date_text(timestamp),
{
    jalali_format(timestamp)
}

/// How long ago `timestmp` was, by the system clock (see `time_ago`); `None`
/// where the clock cannot be read as a UTC time.
pub fn distance_calculator(timestmp: i64) -> (s: Option<String>)
    requires
        CHRONO_MAX_TIMESTAMP - i64::MAX <= timestmp <= i64::MAX + CHRONO_MIN_TIMESTAMP,
    ensures
        s matches Some(text) ==> exists|now: int|
            CHRONO_MIN_TIMESTAMP <= now <= CHRONO_MAX_TIMESTAMP && text@ == #[trigger] time_ago_text(
                now - timestmp,
            ),
{
    match utc_now_timestamp() {
        None => None,
        Some(now) => {
            let difference = now - timestmp;
            let s = time_ago(difference);
            assert(s@ == time_ago_text(now - timestmp));
            Some(s)
        },
    }
}

/// How long ago `seconds` seconds are (see `time_ago_text`).
pub fn time_ago(seconds: i64) -> (s: String)
    ensures
        s@ == time_ago_text(seconds as int),
{
    let mut s = String::new();
    if seconds < 60 {
        push_signed_decimal(&mut s, seconds);
        s.append(" seconds ago");
    } else if seconds < 3600 {
        push_decimal(&mut s, (seconds / 60) as u64);
        s.append(" minutes ago");
    } else if seconds < 86400 {
        push_decimal(&mut s, (seconds / 3600) as u64);
        s.append(" hours ago");
    } else if seconds < 2592000 {
        push_decimal(&mut s, (seconds / 86400) as u64);
        s.append(" days ago");
    } else if seconds < 31536000 {
        push_decimal(&mut s, (seconds / 2592000) as u64);
        s.append(" months ago");
    } else {
        push_decimal(&mut s, (seconds / 31536000) as u64);
        s.append(" years ago");
    }
    assert(s@ =~= time_ago_text(seconds as int));
    s
}

} // verus!
