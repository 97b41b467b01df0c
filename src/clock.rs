//! Wall-clock access and timestamp formatting, through chrono.
//!
//! Instants are carried as milliseconds since the Unix epoch (UTC).

use vstd::prelude::*;

verus! {

/// One day in milliseconds.
pub const DAY_MILLIS: i64 = 86_400_000;

/// First instant of year 0000 (UTC), in milliseconds.
pub const FOUR_DIGIT_YEAR_MIN: i64 = -62_167_219_200_000;

/// First instant of year 10000 (UTC), in milliseconds.
pub const FOUR_DIGIT_YEAR_END: i64 = 253_402_300_800_000;

/// Whether an instant falls in a year with four digits, the range in which
/// both text forms below are defined.
pub open spec fn formattable(ms: i64) -> bool {
    FOUR_DIGIT_YEAR_MIN <= ms < FOUR_DIGIT_YEAR_END
}

/// RFC 3339 text of an instant, as chrono writes it for UTC.
pub uninterp spec fn rfc3339_text(ms: i64) -> Seq<char>;

/// RFC 2822 text of an instant, as chrono writes it for UTC.
pub uninterp spec fn rfc2822_text(ms: i64) -> Seq<char>;

/// Relies on chrono's `Utc::now` and `DateTime::timestamp_millis`: reads the
/// system clock. Nothing is promised of the value.
#[verifier::external_body]
pub(crate) fn now_millis() -> (r: i64) {
    chrono::Utc::now().timestamp_millis()
}

/// Relies on chrono's `DateTime::to_rfc3339` (with `from_timestamp_millis`,
/// which is defined for every four-digit year): the text depends on the
/// instant alone.
#[verifier::external_body]
pub(crate) fn format_rfc3339(ms: i64) -> (r: String)
    requires
        formattable(ms),
    ensures
        r@ == rfc3339_text(ms),
{
    chrono::DateTime::from_timestamp_millis(ms).unwrap().to_rfc3339()
}

/// Relies on chrono's `DateTime::to_rfc2822` (with `from_timestamp_millis`),
/// which panics outside four-digit years: the text depends on the instant
/// alone.
#[verifier::external_body]
pub(crate) fn format_rfc2822(ms: i64) -> (r: String)
    requires
        formattable(ms),
    ensures
        r@ == rfc2822_text(ms),
{
    chrono::DateTime::from_timestamp_millis(ms).unwrap().to_rfc2822()
}

/// The instant `days` days before `now`, or the earliest representable
/// instant where that would fall below it.
pub fn days_before(now: i64, days: i64) -> (r: i64)
    requires
        0 <= days <= 100_000,
    ensures
        r == (if now - days * DAY_MILLIS >= i64::MIN { now - days * DAY_MILLIS } else { i64::MIN as int }),
{
    let span: i64 = days * DAY_MILLIS;
    if now >= i64::MIN + span {
        now - span
    } else {
        i64::MIN
    }
}

} // verus!
