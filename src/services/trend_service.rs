//! The hit trend service.

use std::sync::Arc;
use vstd::prelude::*;
use crate::clock::{days_before, now_millis, DAY_MILLIS};
use crate::db::clickhouse::{ClickHouseClient, ClientHolder};
use crate::models::domain::trend::{Trend, TrendPoint};

verus! {

/// Length of the default trend window, in days.
pub const DEFAULT_WINDOW_DAYS: i64 = 7;

/// The window of a trend query at instant `now`: the given bounds, or the
/// last seven days up to `now` for the missing ones.
pub open spec fn trend_window_spec(start: Option<i64>, end: Option<i64>, now: i64) -> (i64, i64) {
    let s = match start {
        Some(s) => s,
        None => if now - 7 * DAY_MILLIS >= i64::MIN { (now - 7 * DAY_MILLIS) as i64 } else { i64::MIN },
    };
    let e = match end {
        Some(e) => e,
        None => now,
    };
    (s, e)
}

/// Fills the missing bounds of a trend window at instant `now`.
pub fn trend_window(start: Option<i64>, end: Option<i64>, now: i64) -> (r: (i64, i64))
    ensures
        r == trend_window_spec(start, end, now),
{
    let s = match start {
        Some(s) => s,
        None => days_before(now, DEFAULT_WINDOW_DAYS),
    };
    let e = match end {
        Some(e) => e,
        None => now,
    };
    (s, e)
}

/// The five points of the fallback trend.
pub open spec fn trend_points() -> Seq<TrendPoint> {
    seq![
        TrendPoint { hit_emails: 10, hit_intelligence: 5 },
        TrendPoint { hit_emails: 20, hit_intelligence: 8 },
        TrendPoint { hit_emails: 15, hit_intelligence: 6 },
        TrendPoint { hit_emails: 30, hit_intelligence: 12 },
        TrendPoint { hit_emails: 25, hit_intelligence: 10 },
    ]
}

/// Trend service.
#[derive(Clone)]
pub struct TrendService {
    pub db_client: ClientHolder,
}

impl TrendService {
    /// A service over the connection, if any.
    pub fn new(db_client: Option<Arc<ClickHouseClient>>) -> (r: Self)
        ensures
            r.db_client == ClientHolder::of_slot(db_client),
    {
        TrendService { db_client: ClientHolder::from_slot(db_client) }
    }

    /// The hit trend over a window; missing bounds default to the last seven
    /// days up to now. No store query exists for this family yet: the points
    /// are the fallback trend, one per label, whatever the granularity.
    pub fn get_hit_trend(&self, start_time: Option<i64>, end_time: Option<i64>, _granularity: Option<String>) -> (r: Trend)
        ensures
            exists|now: i64| (r.start_time, r.end_time) == trend_window_spec(start_time, end_time, now),
            start_time matches Some(s) ==> r.start_time == s,
            end_time matches Some(e) ==> r.end_time == e,
            r.y_axis@ == trend_points(),
            r.x_axis@.len() == 5,
    {
        let now = now_millis();
        let (start, end) = trend_window(start_time, end_time, now);
        let mut x: Vec<String> = Vec::new();
        x.push("2023-01-01".to_string());
        x.push("2023-01-02".to_string());
        x.push("2023-01-03".to_string());
        x.push("2023-01-04".to_string());
        x.push("2023-01-05".to_string());
        let mut y: Vec<TrendPoint> = Vec::new();
        y.push(TrendPoint { hit_emails: 10, hit_intelligence: 5 });
        y.push(TrendPoint { hit_emails: 20, hit_intelligence: 8 });
        y.push(TrendPoint { hit_emails: 15, hit_intelligence: 6 });
        y.push(TrendPoint { hit_emails: 30, hit_intelligence: 12 });
        y.push(TrendPoint { hit_emails: 25, hit_intelligence: 10 });
        assert(y@ =~= trend_points());
        Trend { start_time: start, end_time: end, x_axis: x, y_axis: y }
    }
}

} // verus!
