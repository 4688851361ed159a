//! Timestamps as wall-clock text in the one time zone of the tables.

use vstd::prelude::*;

verus! {

/// The offset of the tables' time zone from UTC, in seconds: five and a half
/// hours to the east.
pub const OFFSET_SECONDS: i32 = 19_800;

/// The pattern of every rendered timestamp: day, month and year, then hour
/// and minute, in the notation of `chrono::format::strftime`.
pub open spec fn stamp_pattern() -> Seq<char> {
    "%d-%m-%Y %H:%M"@
}

/// What chrono writes for the instant `secs` seconds after the Unix epoch,
/// seen `east_secs` seconds east of UTC, under the strftime pattern `pattern`.
pub uninterp spec fn offset_time_text(secs: int, east_secs: int, pattern: Seq<char>) -> Seq<char>;

/// The text of a timestamp in the tables: the instant `secs` seconds after the
/// Unix epoch, moved from UTC to the fixed offset, as `DD-MM-YYYY HH:MM`.
pub open spec fn local_stamp(secs: int) -> Seq<char> {
    offset_time_text(secs, OFFSET_SECONDS as int, stamp_pattern())
}

/// Calls chrono: `DateTime::from_timestamp` makes the UTC instant from `secs`,
/// `FixedOffset::east_opt` the offset from `east_secs`, `DateTime::with_timezone`
/// moves the instant to that offset, and `DateTime::format` with `to_string`
/// writes it under `pattern`.
///
/// Nothing is claimed of the text but that it is the one chrono gives for
/// these three values; it depends on no clock, locale or time zone of the
/// machine. The `requires` keeps the calls from failing: every `i32` is a
/// timestamp that chrono can hold, an offset must lie within a day, and the
/// pattern is the one known to be well formed.
#[verifier::external_body]
fn format_at_offset(secs: i32, east_secs: i32, pattern: &str) -> (out: String)
    requires
        -86_400 < east_secs < 86_400,
        pattern@ == stamp_pattern(),
    ensures
        out@ == offset_time_text(secs as int, east_secs as int, pattern@),
{
    let utc = chrono::DateTime::from_timestamp(i64::from(secs), 0).unwrap();
    let offset = chrono::FixedOffset::east_opt(east_secs).unwrap();
    utc.with_timezone(&offset).format(pattern).to_string()
}

/// Renders a Unix timestamp as the tables show it.
pub fn local_time(secs: i32) -> (out: String)
    ensures
        out@ == local_stamp(secs as int),
{
    format_at_offset(secs, OFFSET_SECONDS, "%d-%m-%Y %H:%M")
}

} // verus!
