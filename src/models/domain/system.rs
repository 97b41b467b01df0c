//! The system time as the service reports it.

use vstd::prelude::*;
use crate::clock::{format_rfc3339, formattable, rfc3339_text, FOUR_DIGIT_YEAR_END, FOUR_DIGIT_YEAR_MIN};

verus! {

/// The system time: milliseconds since the epoch, the same instant as RFC
/// 3339 text, and the time zone of that text.
#[derive(Debug, Clone)]
pub struct SystemTimeData {
    pub timestamp: i64,
    pub current_time: String,
    pub timezone: String,
}

impl SystemTimeData {
    /// Completes a reading of the clock with its text form, in UTC. An
    /// instant outside four-digit years has an empty text.
    pub fn from_service(service_data: crate::services::system_service::SystemTimeData) -> (r: Self)
        ensures
            r.timestamp == service_data.timestamp,
            r.current_time@ == (if formattable(service_data.timestamp) {
                rfc3339_text(service_data.timestamp)
            } else {
                Seq::empty()
            }),
            r.timezone@ == "UTC"@,
    {
        let ts = service_data.timestamp;
        let current_time = if FOUR_DIGIT_YEAR_MIN <= ts && ts < FOUR_DIGIT_YEAR_END {
            format_rfc3339(ts)
        } else {
            String::new()
        };
        SystemTimeData { timestamp: ts, current_time, timezone: "UTC".to_string() }
    }
}

} // verus!
