use chrono::{DateTime, TimeDelta, Timelike, Utc};
use vstd::prelude::*;

use crate::model::{Timestamp, SECS_PER_DAY};

verus! {

/// Seconds since the epoch of the instant `secs` with its hour of the day set to `hour`.
pub open spec fn secs_with_hour(secs: int, hour: int) -> int {
    secs - secs % 86_400 + hour * 3600 + secs % 3600
}

/// Seconds since the epoch of the instant `secs` with its minute of the hour set to `minute`.
pub open spec fn secs_with_minute(secs: int, minute: int) -> int {
    secs - secs % 3600 + minute * 60 + secs % 60
}

/// Relies on chrono's `Timelike::with_hour` for `DateTime<Utc>`: the same day, minute,
/// second and nanosecond at another hour; `None` for an hour past 23.
#[verifier::external_body]
pub(crate) fn with_hour(ts: Timestamp, hour: u32) -> (r: Option<Timestamp>)
    requires
        ts.valid(),
    ensures
        hour < 24 ==> r == Some(
            Timestamp { secs: secs_with_hour(ts.secs as int, hour as int) as i64, nanos: ts.nanos },
        ),
        hour >= 24 ==> r is None,
{
    let dt = DateTime::<Utc>::from_timestamp(ts.secs, ts.nanos).unwrap();
    dt.with_hour(hour).map(|d| Timestamp { secs: d.timestamp(), nanos: d.timestamp_subsec_nanos() })
}

/// Relies on chrono's `Timelike::with_minute` for `DateTime<Utc>`: the same day, hour,
/// second and nanosecond at another minute; `None` for a minute past 59.
#[verifier::external_body]
pub(crate) fn with_minute(ts: Timestamp, minute: u32) -> (r: Option<Timestamp>)
    requires
        ts.valid(),
    ensures
        minute < 60 ==> r == Some(
            Timestamp {
                secs: secs_with_minute(ts.secs as int, minute as int) as i64,
                nanos: ts.nanos,
            },
        ),
        minute >= 60 ==> r is None,
{
    let dt = DateTime::<Utc>::from_timestamp(ts.secs, ts.nanos).unwrap();
    dt.with_minute(minute).map(|d| Timestamp { secs: d.timestamp(), nanos: d.timestamp_subsec_nanos() })
}

/// Relies on chrono's `DateTime::checked_add_signed` with `TimeDelta::days(1)`: the
/// instant one day of 86 400 seconds later, which lies inside chrono's range for a
/// valid timestamp.
#[verifier::external_body]
pub(crate) fn add_one_day(ts: Timestamp) -> (r: Option<Timestamp>)
    requires
        ts.valid(),
    ensures
        r == Some(Timestamp { secs: (ts.secs + SECS_PER_DAY) as i64, nanos: ts.nanos }),
{
    let dt = DateTime::<Utc>::from_timestamp(ts.secs, ts.nanos).unwrap();
    dt.checked_add_signed(TimeDelta::days(1))
        .map(|d| Timestamp { secs: d.timestamp(), nanos: d.timestamp_subsec_nanos() })
}

} // verus!
