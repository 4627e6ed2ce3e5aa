//! Dates and instants, through jiff and std.
//!
//! The library keeps instants as plain integers (Unix seconds and
//! nanoseconds); jiff parses civil date-times and resolves them in a time
//! zone, which only it can do.
use vstd::prelude::*;

verus! {

#[verifier::external_type_specification]
#[verifier::external_body]
pub struct ExTimeZone(jiff::tz::TimeZone);

#[verifier::external_type_specification]
#[verifier::external_body]
pub struct ExDateTime(jiff::civil::DateTime);

#[verifier::external_type_specification]
#[verifier::external_body]
pub struct ExInstant(std::time::Instant);

/// A civil date-time: year, month, day, hour, minute, second.
pub type Civil = (i16, i8, i8, i8, i8, i8);

/// The civil date-time that `input` denotes under the strftime-style
/// `format`, or `None` when it does not parse.
pub uninterp spec fn civil_fields(format: Seq<char>, input: Seq<char>) -> Option<Civil>;

/// The ranges that jiff guarantees for the parts of a civil date-time.
pub open spec fn civil_in_range(c: Civil) -> bool {
    &&& -9999 <= c.0 <= 9999
    &&& 1 <= c.1 <= 12
    &&& 1 <= c.2 <= 31
    &&& 0 <= c.3 <= 23
    &&& 0 <= c.4 <= 59
    &&& 0 <= c.5 <= 59
}

/// Relies on `jiff::civil::DateTime::strptime`, read back with the
/// `DateTime` accessors `year` .. `second` (whose documented ranges are
/// stated): the outcome depends on the format and the text alone. An error
/// comes back as its message.
#[verifier::external_body]
pub fn parse_civil(format: &str, input: &str) -> (r: Result<(jiff::civil::DateTime, Civil), String>)
    ensures
        r matches Ok((_, c)) ==> civil_fields(format@, input@) == Some(c) && civil_in_range(c),
        r is Err ==> civil_fields(format@, input@) is None,
{
    match jiff::civil::DateTime::strptime(format, input) {
        Ok(dt) => Ok((dt, (dt.year(), dt.month(), dt.day(), dt.hour(), dt.minute(), dt.second()))),
        Err(e) => Err(e.to_string()),
    }
}

/// Days from 1970-01-01 to the given date of the proleptic Gregorian
/// calendar (years from -39999 on).
pub open spec fn days_from_civil(y: int, m: int, d: int) -> int {
    let y2 = if m <= 2 {
        y - 1
    } else {
        y
    };
    // shifted by 100 eras so that the divisions see a non-negative year
    let ys = y2 + 40000;
    let era = ys / 400 - 100;
    let yoe = ys % 400;
    let mp = if m > 2 {
        m - 3
    } else {
        m + 9
    };
    let doy = (153 * mp + 2) / 5 + d - 1;
    let doe = yoe * 365 + yoe / 4 - yoe / 100 + doy;
    era * 146097 + doe - 719468
}

/// Seconds from 1970-01-01T00:00:00 to a civil date-time, both read on the
/// same clock (no zone applied).
pub open spec fn civil_seconds(c: Civil) -> int {
    days_from_civil(c.0 as int, c.1 as int, c.2 as int) * 86400 + c.3 * 3600 + c.4 * 60 + c.5
}

pub fn civil_seconds_exec(c: Civil) -> (r: i64)
    requires
        civil_in_range(c),
    ensures
        r == civil_seconds(c),
{
    let (y, m, d, h, mi, s) = c;
    let y2: i64 = if m <= 2 {
        y as i64 - 1
    } else {
        y as i64
    };
    let ys: u64 = (y2 + 40000) as u64;
    let era: i64 = (ys / 400) as i64 - 100;
    let yoe: i64 = (ys % 400) as i64;
    let mp: u64 = if m > 2 {
        (m - 3) as u64
    } else {
        (m + 9) as u64
    };
    let doy: i64 = ((153 * mp + 2) / 5) as i64 + d as i64 - 1;
    let doe: i64 = yoe * 365 + yoe / 4 - yoe / 100 + doy;
    let days: i64 = era * 146097 + doe - 719468;
    days * 86400 + h as i64 * 3600 + mi as i64 * 60 + s as i64
}

/// Largest magnitude of a jiff zone offset, in seconds (25:59:59).
pub const OFFSET_SECONDS_MAX: i32 = 93599;

/// The offsets (seconds east of UTC) that a zone has at a civil date-time.
#[derive(Clone, Copy, Debug, PartialEq, Eq, Structural)]
pub enum ZoneOffsets {
    Unambiguous { offset: i32 },
    /// The civil time was skipped (e.g. the start of daylight saving time).
    Gap { before: i32, after: i32 },
    /// The civil time happened twice (e.g. its end).
    Fold { before: i32, after: i32 },
}

pub open spec fn offset_in_range(o: i32) -> bool {
    -OFFSET_SECONDS_MAX <= o <= OFFSET_SECONDS_MAX
}

/// Relies on `jiff::tz::TimeZone::to_ambiguous_timestamp`, read with
/// `AmbiguousTimestamp::offset` and `Offset::seconds`: the offsets in force
/// at `dt` in `tz`. Each jiff `Offset` lies within `Offset::MIN ..=
/// Offset::MAX` (-25:59:59 ..= 25:59:59). The zone's rules come from the
/// system, so nothing else is stated.
#[verifier::external_body]
pub fn zone_offsets(dt: jiff::civil::DateTime, tz: &jiff::tz::TimeZone) -> (r: ZoneOffsets)
    ensures
        match r {
            ZoneOffsets::Unambiguous { offset } => offset_in_range(offset),
            ZoneOffsets::Gap { before, after } => offset_in_range(before) && offset_in_range(after),
            ZoneOffsets::Fold { before, after } => offset_in_range(before) && offset_in_range(after),
        },
{
    match tz.to_ambiguous_timestamp(dt).offset() {
        jiff::tz::AmbiguousOffset::Unambiguous { offset } => ZoneOffsets::Unambiguous {
            offset: offset.seconds(),
        },
        jiff::tz::AmbiguousOffset::Gap { before, after } => ZoneOffsets::Gap {
            before: before.seconds(),
            after: after.seconds(),
        },
        jiff::tz::AmbiguousOffset::Fold { before, after } => ZoneOffsets::Fold {
            before: before.seconds(),
            after: after.seconds(),
        },
    }
}

/// The offset that places a civil date-time in a zone the way jiff's
/// `to_zoned` does ("compatible"): the offset in force before a gap or a
/// fold.
pub open spec fn compatible_offset(z: ZoneOffsets) -> i32 {
    match z {
        ZoneOffsets::Unambiguous { offset } => offset,
        ZoneOffsets::Gap { before, .. } => before,
        ZoneOffsets::Fold { before, .. } => before,
    }
}

pub fn compatible_offset_exec(z: ZoneOffsets) -> (r: i32)
    ensures
        r == compatible_offset(z),
{
    match z {
        ZoneOffsets::Unambiguous { offset } => offset,
        ZoneOffsets::Gap { before, .. } => before,
        ZoneOffsets::Fold { before, .. } => before,
    }
}

/// Relies on `jiff::tz::TimeZone::system`: the zone that the system is set to.
#[verifier::external_body]
pub fn system_zone() -> jiff::tz::TimeZone {
    jiff::tz::TimeZone::system()
}

/// Smallest Unix second that a jiff `Timestamp` holds.
pub const UNIX_SECOND_MIN: i64 = -377705023201;

/// Largest Unix second that a jiff `Timestamp` holds.
pub const UNIX_SECOND_MAX: i64 = 253402207200;

/// Relies on `jiff::Timestamp::from_second`, which fails exactly when the
/// second lies outside `Timestamp::MIN ..= Timestamp::MAX`.
#[verifier::external_body]
pub fn unix_second_supported(second: i64) -> (r: bool)
    ensures
        r == (UNIX_SECOND_MIN <= second <= UNIX_SECOND_MAX),
{
    jiff::Timestamp::from_second(second).is_ok()
}

/// Largest number of nanoseconds that a `std::time::Duration` holds
/// (`Duration::MAX`: `u64::MAX` seconds and 999 999 999 nanoseconds).
pub const DURATION_NANOS_MAX: u128 = 18_446_744_073_709_551_615_999_999_999;

/// Relies on `std::time::Instant::elapsed` (which does not panic), read with
/// `Duration::as_nanos`. The value depends on the clock: only the bound of a
/// `Duration` is stated.
#[verifier::external_body]
pub fn elapsed_nanos(start: &std::time::Instant) -> (r: u128)
    ensures
        r <= DURATION_NANOS_MAX,
{
    start.elapsed().as_nanos()
}

} // verus!
