//! The attack timeline service.

use std::sync::Arc;
use vstd::prelude::*;
use crate::db::clickhouse::{ClickHouseClient, ClientHolder};
use crate::db::models::ActionType;
use crate::models::domain::timeline::{Timeline, TimelineEmail};
use crate::services::intelligence_service::{FEB_01_2024, HOUR_MILLIS, MAR_01_2024};

verus! {

/// The fallback timeline of an item, as far as callers read it.
pub open spec fn is_fallback_timeline(t: Timeline, intelligence_id: u128) -> bool {
    &&& t.intelligence_id == intelligence_id
    &&& t.first_found_time == FEB_01_2024
    &&& t.source@ == "Local-金融行业"@
    &&& t.emails@.len() == 2
    &&& t.emails@[0].mail_id == 1001
    &&& t.emails@[0].status@ == "Accept"@
    &&& t.emails@[0].sender@ == "sender1@example.com"@
    &&& t.emails@[1].mail_id == 1002
    &&& t.emails@[1].status@ == "Quarantine"@
    &&& t.emails@[1].sender@ == "sender2@example.com"@
}

fn timeline_email(mail_id: u64, timestamp: i64, action: ActionType, sender: &str, recipient: &str) -> (r: TimelineEmail)
    ensures
        r.mail_id == mail_id,
        r.timestamp == timestamp,
        action == ActionType::Accept ==> r.status@ == "Accept"@,
        action == ActionType::Quarantine ==> r.status@ == "Quarantine"@,
        r.sender@ == sender@,
        r.recipient@.len() == 1 && r.recipient@[0]@ == recipient@,
{
    let mut to: Vec<String> = Vec::new();
    to.push(recipient.to_string());
    TimelineEmail {
        mail_id,
        timestamp,
        status: action.name().to_string(),
        sender: sender.to_string(),
        recipient: to,
    }
}

/// Timeline service.
#[derive(Clone)]
pub struct TimelineService {
    pub db_client: ClientHolder,
}

impl TimelineService {
    /// A service over the connection, if any.
    pub fn new(db_client: Option<Arc<ClickHouseClient>>) -> (r: Self)
        ensures
            r.db_client == ClientHolder::of_slot(db_client),
    {
        TimelineService { db_client: ClientHolder::from_slot(db_client) }
    }

    /// The attack timeline of an item. No store query exists for this family
    /// yet: the answer is the fallback timeline, with the item's identifier.
    pub fn get_timeline(&self, intelligence_id: u128) -> (r: Timeline)
        ensures
            is_fallback_timeline(r, intelligence_id),
    {
        let mut emails: Vec<TimelineEmail> = Vec::new();
        emails.push(timeline_email(1001, MAR_01_2024 + 9 * HOUR_MILLIS, ActionType::Accept, "sender1@example.com", "recipient1@example.com"));
        emails.push(timeline_email(1002, MAR_01_2024 + 44 * HOUR_MILLIS, ActionType::Quarantine, "sender2@example.com", "recipient2@example.com"));
        Timeline {
            intelligence_id,
            first_found_time: FEB_01_2024,
            source: "Local-金融行业".to_string(),
            emails,
        }
    }
}

} // verus!
