//! Instants written as text, through `chrono`.
use vstd::prelude::*;

verus! {

/// The text that `chrono` writes for the instant `secs` seconds after the
/// epoch, shown at the fixed UTC offset `offset` (in seconds) and
/// formatted with the strftime pattern `fmt`.
pub uninterp spec fn offset_time_text(secs: int, offset: int, fmt: Seq<char>) -> Seq<char>;

/// The text that `chrono`'s `NaiveDateTime` writes (its `Display`) for the
/// UTC wall time `secs` seconds and `nanos` nanoseconds after the epoch.
pub uninterp spec fn naive_time_text(secs: int, nanos: int) -> Seq<char>;

/// Instants within about 250,000 years of the epoch, in seconds: all lie
/// inside `chrono`'s range of dates.
pub open spec fn secs_in_range(secs: int) -> bool {
    -8_000_000_000_000 <= secs <= 8_000_000_000_000
}

/// The one strftime pattern the library formats with: the compact
/// `%Y%m%d%H%M%S` stamp.
pub open spec fn compact_stamp_format() -> Seq<char> {
    "%Y%m%d%H%M%S"@
}

/// `chrono::DateTime::<Utc>::from_timestamp(secs, 0)`, moved to the
/// offset `chrono::FixedOffset::east_opt(offset)` by `with_timezone` and
/// written by `format(fmt).to_string()`: named `offset_time_text`.
/// `from_timestamp` gives `None` only outside `chrono`'s dates, which
/// every instant of `secs_in_range` is inside; `east_opt` accepts every
/// offset under a day. The pattern is the compact stamp, whose items are
/// all valid (an invalid one makes `to_string` panic).
#[verifier::external_body]
pub(crate) fn format_at_offset(secs: i64, offset: i32, fmt: &str) -> (r: Option<String>)
    requires
        -86_400 < offset < 86_400,
        fmt@ == compact_stamp_format(),
    ensures
        r matches Some(t) ==> t@ == offset_time_text(secs as int, offset as int, fmt@),
        secs_in_range(secs as int) ==> r is Some,
{
    match (chrono::DateTime::<chrono::Utc>::from_timestamp(secs, 0), chrono::FixedOffset::east_opt(offset)) {
        (Some(t), Some(zone)) => Some(t.with_timezone(&zone).format(fmt).to_string()),
        _ => None,
    }
}

/// `chrono::DateTime::<Utc>::from_timestamp(secs, nanos)`, its
/// `naive_utc()` written by `to_string()`: named `naive_time_text`.
/// `from_timestamp` gives `None` only outside `chrono`'s dates (every
/// instant of `secs_in_range` is inside) or for a nanosecond part of a
/// second or more (allowed only within a leap second).
#[verifier::external_body]
pub(crate) fn naive_utc_text(secs: i64, nanos: u32) -> (r: Option<String>)
    ensures
        r matches Some(t) ==> t@ == naive_time_text(secs as int, nanos as int),
        secs_in_range(secs as int) && nanos < 1_000_000_000 ==> r is Some,
{
    match chrono::DateTime::<chrono::Utc>::from_timestamp(secs, nanos) {
        Some(t) => Some(t.naive_utc().to_string()),
        None => None,
    }
}

} // verus!
