//! The clock and time zones, from `chrono` and `chrono-tz`.
use vstd::prelude::*;
use chrono::{Offset, TimeZone};

verus! {

/// Reads the system clock as whole seconds since the Unix epoch
/// (`std::time::SystemTime::now`, then `duration_since(UNIX_EPOCH)`); `None`
/// when the clock reads before 1970 or past what an `i64` holds. Nothing is
/// promised of the value read.
#[verifier::external_body]
pub(crate) fn unix_time_now() -> Option<i64> {
    let since = std::time::SystemTime::now().duration_since(std::time::UNIX_EPOCH).ok()?;
    i64::try_from(since.as_secs()).ok()
}

/// The offset from UTC, in seconds, of the IANA time zone `zone` at the
/// instant `secs` (a Unix timestamp), as `chrono-tz` computes it; `None`
/// when the zone is unknown or `chrono` cannot represent the instant.
pub uninterp spec fn zone_offset_at(zone: Seq<char>, secs: i64) -> Option<i32>;

/// Looks `zone` up in the time-zone database of `chrono-tz`
/// (`str::parse::<chrono_tz::Tz>`) and asks for its offset from UTC at the
/// instant `secs` (`TimeZone::offset_from_utc_datetime`, read out with
/// `Offset::fix` and `FixedOffset::local_minus_utc`). Trusted to return
/// `zone_offset_at(zone, secs)`, and, as every `FixedOffset` is, an offset
/// strictly within a day.
#[verifier::external_body]
pub(crate) fn timezone_offset_at(zone: &str, secs: i64) -> (r: Option<i32>)
    ensures
        r == zone_offset_at(zone@, secs),
        r matches Some(o) ==> -86400 < o < 86400,
{
    let tz = zone.parse::<chrono_tz::Tz>().ok()?;
    let utc = chrono::DateTime::from_timestamp(secs, 0)?;
    Some(tz.offset_from_utc_datetime(&utc.naive_utc()).fix().local_minus_utc())
}

/// Whether `chrono` can represent the Unix timestamp `secs` as a UTC date
/// and time: from the first second of `NaiveDate::MIN` (January 1, 262144
/// BCE) to the last second of `NaiveDate::MAX` (December 31, 262142 CE).
pub open spec fn chrono_accepts_timestamp(secs: i64) -> bool {
    -8334601228800 <= secs <= 8210266876799
}

/// Asks `chrono::Utc.timestamp_opt(secs, 0)` whether it yields a single
/// date and time (`DateTime::from_timestamp` succeeds exactly for the dates
/// between `NaiveDate::MIN` and `NaiveDate::MAX`). Trusted to return
/// `chrono_accepts_timestamp(secs)`.
#[verifier::external_body]
pub(crate) fn timestamp_is_representable(secs: i64) -> (b: bool)
    ensures
        b == chrono_accepts_timestamp(secs),
{
    chrono::Utc.timestamp_opt(secs, 0).single().is_some()
}

} // verus!
