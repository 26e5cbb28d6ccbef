//! The time texts of the store, in Persian: the Jalali date of a timestamp,
//! and how long ago it was as a number followed by «قبل» ("ago").

use vstd::prelude::*;
use vstd::string::StringExecFns;
use crate::encryption::time::{
    jalali_date_text, jalali_format, utc_now_timestamp, CHRONO_MAX_TIMESTAMP,
    CHRONO_MIN_TIMESTAMP, JALALI_MAX_TIMESTAMP, JALALI_MIN_TIMESTAMP,
};
use crate::text::{decimal, push_decimal, push_signed_decimal, signed_decimal};

verus! {

/// How long ago `seconds` seconds are, followed by « قبل»: the count of
/// seconds below a minute (negative counts included), else of whole minutes,
/// hours, days, 30-day months or 365-day years. The unit is not written.
pub open spec fn time_ago_text(seconds: int) -> Seq<char> {
    if seconds < 60 {
        signed_decimal(seconds) + " قبل"@
    } else if seconds < 3600 {
        decimal((seconds / 60) as nat) + " قبل"@
    } else if seconds < 86400 {
        decimal((seconds / 3600) as nat) + " قبل"@
    } else if seconds < 2592000 {
        decimal((seconds / 86400) as nat) + " قبل"@
    } else if seconds < 31536000 {
        decimal((seconds / 2592000) as nat) + " قبل"@
    } else {
        decimal((seconds / 31536000) as nat) + " قبل"@
    }
}

/// The Jalali date of a Unix timestamp, as `YYYY/MM/DD`.
pub fn convert_to_jalali(timestamp: i64) -> (s: String)
    requires
        JALALI_MIN_TIMESTAMP <= timestamp <= JALALI_MAX_TIMESTAMP,
    ensures
        s@ == jalali_date_text(timestamp),
{
    jalali_format(timestamp)
}

/// How long ago `timestmp` was, by the system clock (see `time_ago`); `None`
/// where the clock cannot be read as a UTC time.
pub fn distance_calculator(timestmp: i64) -> (s: Option<String>)
    requires
        CHRONO_MAX_TIMESTAMP - i64::MAX <= timestmp <= i64::MAX + CHRONO_MIN_TIMESTAMP,
    ensures
        s matches Some(text) ==> exists|now: int|
            CHRONO_MIN_TIMESTAMP <= now <= CHRONO_MAX_TIMESTAMP && text@ == #[trigger] time_ago_text(
                now - timestmp,
            ),
{
    match utc_now_timestamp() {
        None => None,
        Some(now) => {
            let difference = now - timestmp;
            let s = time_ago(difference);
            assert(s@ == time_ago_text(now - timestmp));
            Some(s)
        },
    }
}

/// How long ago `seconds` seconds are (see `time_ago_text`).
pub fn time_ago(seconds: i64) -> (s: String)
    ensures
        s@ == time_ago_text(seconds as int),
{
    let mut s = String::new();
    if seconds < 60 {
        push_signed_decimal(&mut s, seconds);
    } else if seconds < 3600 {
        push_decimal(&mut s, (seconds / 60) as u64);
    } else if seconds < 86400 {
        push_decimal(&mut s, (seconds / 3600) as u64);
    } else if seconds < 2592000 {
        push_decimal(&mut s, (seconds / 86400) as u64);
    } else if seconds < 31536000 {
        push_decimal(&mut s, (seconds / 2592000) as u64);
    } else {
        push_decimal(&mut s, (seconds / 31536000) as u64);
    }
    s.append(" قبل");
    assert(s@ =~= time_ago_text(seconds as int));
    s
}

} // verus!
