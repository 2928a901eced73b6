use vstd::prelude::*;

use crate::session_state::{Clock, TimestampMs};

verus! {

/// The RFC 3339 text, in UTC with millisecond precision and a `Z` suffix, of a time
/// given in milliseconds since the Unix epoch.
pub uninterp spec fn iso8601_of(ms: int) -> Seq<char>;

/// Relies on chrono's `DateTime::<Utc>::from_timestamp_millis` and
/// `to_rfc3339_opts(SecondsFormat::Millis, true)`: the text depends on the instant alone.
/// An instant outside chrono's range is written as the epoch.
#[verifier::external_body]
pub(crate) fn timestamp_to_iso8601(timestamp: TimestampMs) -> (r: String)
    ensures
        r@ == iso8601_of(timestamp.0 as int),
{
    let datetime = chrono::DateTime::<chrono::Utc>::from_timestamp_millis(timestamp.0)
        .unwrap_or_else(|| chrono::DateTime::<chrono::Utc>::from(std::time::UNIX_EPOCH));
    datetime.to_rfc3339_opts(chrono::SecondsFormat::Millis, true)
}

/// Relies on chrono's `DateTime::<Utc>::from(SystemTime)` and `timestamp_millis`, on
/// `SystemTime::now()`: the current time, which nothing constrains. Times before the epoch
/// convert without panicking.
#[verifier::external_body]
fn current_time_millis() -> (r: i64) {
    chrono::DateTime::<chrono::Utc>::from(std::time::SystemTime::now()).timestamp_millis()
}

/// The wall clock.
#[derive(Debug, Clone, Copy)]
pub struct SystemClock;

impl Clock for SystemClock {
    fn now(&self) -> TimestampMs {
        TimestampMs(current_time_millis())
    }
}

/// How far back a session may have been created to count as recent: five minutes.
pub const RECENT_WINDOW_MS: i64 = 300000;

pub open spec fn recent_cutoff_ms(now: int) -> int {
    if now - RECENT_WINDOW_MS >= i64::MIN {
        now - RECENT_WINDOW_MS
    } else {
        i64::MIN as int
    }
}

/// The oldest `created_at` that counts as recent at `now`, as text that orders as time does.
pub fn recent_session_cutoff(now: TimestampMs) -> (r: String)
    ensures
        r@ == iso8601_of(recent_cutoff_ms(now.0 as int)),
{
    let cutoff = if now.0 >= i64::MIN + RECENT_WINDOW_MS { now.0 - RECENT_WINDOW_MS } else { i64::MIN };
    timestamp_to_iso8601(TimestampMs(cutoff))
}

} // verus!
