use vstd::prelude::*;

verus! {

/// The earliest second chrono can represent: January 1 of year -262143, UTC.
pub const MIN_TIMESTAMP: i64 = -8334601228800;

/// The last second chrono can represent: December 31 of year 262142,
/// 23:59:59 UTC.
pub const MAX_TIMESTAMP: i64 = 8210266876799;

/// Whether an instant given as seconds and nanoseconds since the Unix epoch
/// can be represented: the day lies within chrono's years, and the
/// nanoseconds are below one second, or below two on the last second of a
/// minute (a leap second).
pub open spec fn timestamp_in_range(secs: int, nanos: int) -> bool {
    &&& MIN_TIMESTAMP <= secs <= MAX_TIMESTAMP
    &&& (nanos < 1_000_000_000 || (nanos < 2_000_000_000 && secs % 60 == 59))
}

/// Relies on chrono's `DateTime::from_timestamp`, which returns `None`
/// exactly for an instant out of range (a day outside years -262143 to
/// 262142, or nanoseconds as `timestamp_in_range` refuses them); then on
/// `DateTime::with_timezone` with `Local` and `format` with `pattern`, which
/// render it in the machine's local time zone. That zone is read from the
/// environment, so nothing is stated of the text. The pattern is the one
/// the library shows, every specifier of which chrono knows; an unknown one
/// would make the rendering panic. chrono's lookup of the local offset
/// panics only where the machine's time-zone data cannot place the instant,
/// which no argument decides.
#[verifier::external_body]
fn local_time_text(secs: i64, nanos: u32, pattern: &str) -> (r: Option<String>)
    requires
        pattern@ == "%b %d %Y  %H:%M"@,
    ensures
        r is Some <==> timestamp_in_range(secs as int, nanos as int),
{
    match chrono::DateTime::from_timestamp(secs, nanos) {
        Some(t) => Some(t.with_timezone(&chrono::Local).format(pattern).to_string()),
        None => None,
    }
}

/// The modification time shown for an entry (`Jan 05 2024  13:45`, local
/// time), from seconds and nanoseconds since the Unix epoch; `None` exactly
/// where the instant cannot be represented.
pub fn modified_text(secs: i64, nanos: u32) -> (r: Option<String>)
    ensures
        r is Some <==> timestamp_in_range(secs as int, nanos as int),
{
    local_time_text(secs, nanos, "%b %d %Y  %H:%M")
}

} // verus!
