//! Statistics records: four shapes, one per kind of dashboard panel.

use vstd::prelude::*;

verus! {

/// Direction of change between two periods.
#[derive(Debug, Clone, Copy, PartialEq, Eq, Structural)]
pub enum ChangeDirection {
    Increase,
    Decrease,
    Unchanged,
}

/// Filter of a statistics query. `module` names the panel; `extras` are
/// reserved key/value pairs.
#[derive(Debug, Clone)]
pub struct StatisticsFilter {
    pub start_time: i64,
    pub end_time: i64,
    pub module: String,
    pub extras: Vec<(String, String)>,
}

/// Counts of one point of a trend.
#[derive(Debug, Clone, Copy, PartialEq, Eq, Structural)]
pub struct TrendPoint {
    pub hit_emails: u64,
    pub hit_intelligence: u64,
}

/// A total of this period against the previous one, with its trend.
#[derive(Debug, Clone)]
pub struct BasicStatisticsItem {
    pub title: String,
    pub current_total: u64,
    pub previous_total: u64,
    pub change_direction: ChangeDirection,
    pub change_value: u64,
    pub trend_x: Vec<String>,
    pub trend_y: Vec<u64>,
}

/// The direction from `previous` to `current`.
pub open spec fn direction_of(current: u64, previous: u64) -> ChangeDirection {
    if current > previous {
        ChangeDirection::Increase
    } else if current < previous {
        ChangeDirection::Decrease
    } else {
        ChangeDirection::Unchanged
    }
}

/// The size of the change from `previous` to `current`.
pub open spec fn change_of(current: u64, previous: u64) -> u64 {
    if current >= previous {
        (current - previous) as u64
    } else {
        (previous - current) as u64
    }
}

impl BasicStatisticsItem {
    /// The change agrees with the two totals, and the trend has one value
    /// per point in time.
    pub open spec fn wf(&self) -> bool {
        &&& self.change_direction == direction_of(self.current_total, self.previous_total)
        &&& self.change_value == change_of(self.current_total, self.previous_total)
        &&& self.trend_x@.len() == self.trend_y@.len()
    }

    /// An item whose change is computed from its two totals.
    pub fn from_totals(title: String, current_total: u64, previous_total: u64, trend_x: Vec<String>, trend_y: Vec<u64>) -> (r: Self)
        requires
            trend_x@.len() == trend_y@.len(),
        ensures
            r.wf(),
            r.title == title,
            r.current_total == current_total,
            r.previous_total == previous_total,
            r.trend_x == trend_x,
            r.trend_y == trend_y,
    {
        let (change_direction, change_value) = if current_total > previous_total {
            (ChangeDirection::Increase, current_total - previous_total)
        } else if current_total < previous_total {
            (ChangeDirection::Decrease, previous_total - current_total)
        } else {
            (ChangeDirection::Unchanged, 0)
        };
        BasicStatisticsItem {
            title,
            current_total,
            previous_total,
            change_direction,
            change_value,
            trend_x,
            trend_y,
        }
    }
}

/// Counts of attacking organizations.
#[derive(Debug, Clone)]
pub struct OrganizationStatisticsItem {
    pub title: String,
    pub total_count: u64,
    pub black_count: u64,
    pub apt_count: u64,
}

/// Hits of custom intelligence against the number of custom rules.
#[derive(Debug, Clone)]
pub struct IntelHitStatisticsItem {
    pub title: String,
    pub hit_custom_intel_count: u64,
    pub total_custom_intel_count: u64,
}

/// A trend chart: one point per label.
#[derive(Debug, Clone)]
pub struct TrendChartItem {
    pub x_axis: Vec<String>,
    pub y_axis: Vec<TrendPoint>,
}

impl TrendChartItem {
    /// One point per label.
    pub open spec fn wf(&self) -> bool {
        self.x_axis@.len() == self.y_axis@.len()
    }
}

/// A statistics item in the older flat shape, where the optional fields
/// hold what some panels have.
#[derive(Debug, Clone)]
pub struct StatisticsItem {
    pub title: String,
    pub current_total: u64,
    pub previous_total: u64,
    pub change_direction: ChangeDirection,
    pub change_value: u64,
    pub trend_x: Option<Vec<String>>,
    pub trend_y: Option<Vec<u64>>,
    pub apt_count: Option<u64>,
    pub black_count: Option<u64>,
    pub custom_count: Option<u64>,
}

/// A statistics answer: one variant per panel shape.
#[derive(Debug, Clone)]
pub enum StatisticsResult {
    BasicStats(Vec<BasicStatisticsItem>),
    OrgStats(Vec<OrganizationStatisticsItem>),
    IntelHitStats(Vec<IntelHitStatisticsItem>),
    TrendChart(TrendChartItem),
}

} // verus!
