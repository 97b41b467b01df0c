//! The attack timeline of an intelligence item.

use vstd::prelude::*;

verus! {

/// One email on a timeline; `timestamp` in milliseconds since the epoch.
#[derive(Debug, Clone)]
pub struct TimelineEmail {
    pub mail_id: u64,
    pub timestamp: i64,
    pub status: String,
    pub sender: String,
    pub recipient: Vec<String>,
}

/// The emails in which an intelligence item was seen, with its first
/// sighting and its source.
#[derive(Debug, Clone)]
pub struct Timeline {
    pub intelligence_id: u128,
    pub first_found_time: i64,
    pub source: String,
    pub emails: Vec<TimelineEmail>,
}

} // verus!
