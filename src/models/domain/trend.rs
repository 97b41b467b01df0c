//! The trend of hit emails over a time window.

use vstd::prelude::*;

verus! {

/// Counts of one point of a trend.
#[derive(Debug, Clone, Copy, PartialEq, Eq, Structural)]
pub struct TrendPoint {
    pub hit_emails: u64,
    pub hit_intelligence: u64,
}

/// A trend over `[start_time, end_time]`: one point per label.
#[derive(Debug, Clone)]
pub struct Trend {
    pub start_time: i64,
    pub end_time: i64,
    pub x_axis: Vec<String>,
    pub y_axis: Vec<TrendPoint>,
}

} // verus!
