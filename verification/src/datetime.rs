//! Points in time, as the weather data carries them.

use vstd::prelude::*;

verus! {

/// Nanoseconds in one second.
pub const NANOS_PER_SECOND: i128 = 1_000_000_000;

/// A point in time together with the UTC offset it was given in.
///
/// Two values denote the same instant exactly when their
/// `unix_timestamp_nanos` are equal; the offset only says how the instant is
/// written out.
#[derive(Clone, Copy)]
pub struct DateTime {
    /// Nanoseconds since 1970-01-01T00:00:00Z.
    pub unix_timestamp_nanos: i128,
    /// Offset from UTC, in seconds.
    pub offset_seconds: i32,
}

/// `true` when `a` is an earlier instant than `b`.
pub open spec fn spec_earlier(a: DateTime, b: DateTime) -> bool {
    a.unix_timestamp_nanos < b.unix_timestamp_nanos
}


/// The earliest date-time that the `time` crate represents,
/// -9999-01-01T00:00:00, in nanoseconds from 1970-01-01T00:00:00 on the same
/// clock.
pub const MIN_LOCAL_NANOS: i128 = -377_705_116_800 * NANOS_PER_SECOND;

/// The latest date-time that the `time` crate represents,
/// 9999-12-31T23:59:59.999999999, in nanoseconds from 1970-01-01T00:00:00 on
/// the same clock.
pub const MAX_LOCAL_NANOS: i128 = 253_402_300_799 * NANOS_PER_SECOND + 999_999_999;

/// Whether a local date-time, in nanoseconds from 1970-01-01T00:00:00 on its
/// own clock, is one that the `time` crate represents.
pub open spec fn local_in_range(local_nanos: int) -> bool {
    MIN_LOCAL_NANOS <= local_nanos <= MAX_LOCAL_NANOS
}

/// The local date-time that `text` denotes in ISO 8601 (date and time, no
/// offset), read on a UTC clock, in nanoseconds since 1970-01-01T00:00:00;
/// `None` when `time::PrimitiveDateTime::parse` with
/// `Iso8601::DATE_TIME` rejects the text.
pub uninterp spec fn iso8601_date_time_nanos(text: Seq<char>) -> Option<i128>;

/// Parses an ISO 8601 date and time without offset.
///
/// Calls `time::PrimitiveDateTime::parse` with
/// `time::format_description::well_known::Iso8601::DATE_TIME` and reads the
/// result on a UTC clock (`assume_utc().unix_timestamp_nanos()`).  The
/// contract names the result and claims, as the crate documents for every
/// `PrimitiveDateTime`, that its year lies in -9999..=9999.
#[verifier::external_body]
pub(crate) fn parse_iso8601_date_time(text: &str) -> (local_nanos: Option<i128>)
    ensures
        local_nanos == iso8601_date_time_nanos(text@),
        local_nanos matches Some(n) ==> local_in_range(n as int),
{
    match time::PrimitiveDateTime::parse(text, &time::format_description::well_known::Iso8601::DATE_TIME) {
        Ok(local) => Some(local.assume_utc().unix_timestamp_nanos()),
        Err(_) => None,
    }
}

/// The largest offset from UTC that the `time` crate represents, in seconds
/// (25:59:59).
pub open spec fn max_offset_seconds() -> int {
    93_599
}

/// Checks an offset from UTC given in seconds.
///
/// Calls `time::UtcOffset::from_whole_seconds` and gives back the offset's
/// whole seconds, or the text of its error.  The contract claims what the
/// crate's source shows: the offset is accepted exactly when it lies within
/// ±25:59:59, an accepted offset keeps its seconds, and the error reads
/// "seconds was not in range".
#[verifier::external_body]
pub(crate) fn utc_offset_whole_seconds(seconds: i32) -> (r: Result<i32, String>)
    ensures
        r is Ok <==> -max_offset_seconds() <= seconds <= max_offset_seconds(),
        r matches Ok(s) ==> s == seconds,
        r matches Err(m) ==> m@ == "seconds was not in range"@,
{
    match time::UtcOffset::from_whole_seconds(seconds) {
        Ok(offset) => Ok(offset.whole_seconds()),
        Err(e) => Err(e.to_string()),
    }
}

/// The RFC 3339 text of an instant written in the given offset from UTC;
/// `None` when the `time` crate cannot write it (the instant or offset is out
/// of its range, the year is outside 0..=9999, or the offset has seconds).
pub uninterp spec fn rfc3339_text(unix_timestamp_nanos: i128, offset_seconds: i32) -> Option<Seq<char>>;

/// The view of an optional text.
pub open spec fn opt_text(text: Option<String>) -> Option<Seq<char>> {
    match text {
        Some(t) => Some(t@),
        None => None,
    }
}

/// Writes a date-time in RFC 3339.
///
/// Rebuilds the `time::OffsetDateTime` (`from_unix_timestamp_nanos`,
/// `UtcOffset::from_whole_seconds`, `checked_to_offset`) and calls its
/// `format` with `time::format_description::well_known::Rfc3339`.  The
/// contract names the result.
#[verifier::external_body]
pub(crate) fn format_date_time(dt: &DateTime) -> (text: Option<String>)
    ensures
        opt_text(text) == rfc3339_text(dt.unix_timestamp_nanos, dt.offset_seconds),
{
    let utc = time::OffsetDateTime::from_unix_timestamp_nanos(dt.unix_timestamp_nanos).ok()?;
    let offset = time::UtcOffset::from_whole_seconds(dt.offset_seconds).ok()?;
    let local = utc.checked_to_offset(offset)?;
    local.format(&time::format_description::well_known::Rfc3339).ok()
}

} // verus!
