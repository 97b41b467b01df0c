//! Dashboard statistics, one panel shape per module.

use std::sync::Arc;
use vstd::prelude::*;
use crate::db::clickhouse::{ClickHouseClient, ClientHolder};
use crate::models::domain::statistics::{
    BasicStatisticsItem, IntelHitStatisticsItem, OrganizationStatisticsItem, StatisticsFilter,
    StatisticsResult, TrendChartItem, TrendPoint,
};
use crate::text::str_eq;

verus! {

/// The statistics modules. A name that names none of them selects
/// `Default`.
#[derive(Debug, Clone, Copy, PartialEq, Eq, Structural)]
pub enum StatisticsModule {
    Dashboard,
    Intelligence,
    AptOrg,
    IntelHit,
    TrendChart,
    Default,
}

impl StatisticsModule {
    /// The module that a name selects.
    pub open spec fn of_name(name: Seq<char>) -> StatisticsModule {
        if name == "dashboard"@ {
            StatisticsModule::Dashboard
        } else if name == "intelligence"@ {
            StatisticsModule::Intelligence
        } else if name == "apt_org"@ {
            StatisticsModule::AptOrg
        } else if name == "intel_hit"@ {
            StatisticsModule::IntelHit
        } else if name == "trend_chart"@ {
            StatisticsModule::TrendChart
        } else {
            StatisticsModule::Default
        }
    }

    /// The module that a name selects.
    pub fn from_name(name: &str) -> (r: StatisticsModule)
        ensures
            r == Self::of_name(name@),
    {
        if str_eq(name, "dashboard") {
            StatisticsModule::Dashboard
        } else if str_eq(name, "intelligence") {
            StatisticsModule::Intelligence
        } else if str_eq(name, "apt_org") {
            StatisticsModule::AptOrg
        } else if str_eq(name, "intel_hit") {
            StatisticsModule::IntelHit
        } else if str_eq(name, "trend_chart") {
            StatisticsModule::TrendChart
        } else {
            StatisticsModule::Default
        }
    }
}

/// The labels of the three-day trends: 2024-03-01 to 2024-03-03.
pub open spec fn three_days(x: Seq<String>) -> bool {
    &&& x.len() == 3
    &&& x[0]@ == "2024-03-01"@
    &&& x[1]@ == "2024-03-02"@
    &&& x[2]@ == "2024-03-03"@
}

/// A well-formed basic item with these totals and trend values.
pub open spec fn basic_is(i: BasicStatisticsItem, title: Seq<char>, current: u64, previous: u64, y: Seq<u64>) -> bool {
    &&& i.wf()
    &&& i.title@ == title
    &&& i.current_total == current
    &&& i.previous_total == previous
    &&& three_days(i.trend_x@)
    &&& i.trend_y@ == y
}

fn three_day_item(title: &str, current: u64, previous: u64, y0: u64, y1: u64, y2: u64) -> (r: BasicStatisticsItem)
    ensures
        basic_is(r, title@, current, previous, seq![y0, y1, y2]),
{
    let mut x: Vec<String> = Vec::new();
    x.push("2024-03-01".to_string());
    x.push("2024-03-02".to_string());
    x.push("2024-03-03".to_string());
    let mut y: Vec<u64> = Vec::new();
    y.push(y0);
    y.push(y1);
    y.push(y2);
    assert(y@ =~= seq![y0, y1, y2]);
    BasicStatisticsItem::from_totals(title.to_string(), current, previous, x, y)
}

/// The answer of the default (and dashboard) module: hit emails, affected
/// mailbox users and hit organizations.
pub open spec fn is_default_statistics(r: StatisticsResult) -> bool {
    r matches StatisticsResult::BasicStats(v) && v@.len() == 3 && basic_is(
        v@[0],
        "命中邮件"@,
        385,
        308,
        seq![308u64, 350, 385],
    ) && basic_is(v@[1], "受影响邮箱用户"@, 147, 117, seq![117u64, 130, 147]) && basic_is(
        v@[2],
        "命中单位"@,
        32,
        25,
        seq![25u64, 28, 32],
    )
}

/// The answer of the intelligence module: intelligence count and active
/// sources.
pub open spec fn is_intelligence_statistics(r: StatisticsResult) -> bool {
    r matches StatisticsResult::BasicStats(v) && v@.len() == 2 && basic_is(
        v@[0],
        "情报数量"@,
        523,
        478,
        seq![478u64, 500, 523],
    ) && basic_is(v@[1], "活跃情报源"@, 8, 7, seq![7u64, 7, 8])
}

/// The answer of the organization module.
pub open spec fn is_apt_org_statistics(r: StatisticsResult) -> bool {
    r matches StatisticsResult::OrgStats(v) && v@.len() == 1 && v@[0].title@ == "APT/黑产组织"@
        && v@[0].total_count == 25 && v@[0].black_count == 18 && v@[0].apt_count == 7
}

/// The answer of the custom intelligence hit module.
pub open spec fn is_intel_hit_statistics(r: StatisticsResult) -> bool {
    r matches StatisticsResult::IntelHitStats(v) && v@.len() == 1 && v@[0].title@ == "自定义情报命中"@
        && v@[0].hit_custom_intel_count == 12 && v@[0].total_custom_intel_count == 500
}

/// The five points of the fallback trend charts.
pub open spec fn chart_points() -> Seq<TrendPoint> {
    seq![
        TrendPoint { hit_emails: 308, hit_intelligence: 150 },
        TrendPoint { hit_emails: 320, hit_intelligence: 165 },
        TrendPoint { hit_emails: 350, hit_intelligence: 180 },
        TrendPoint { hit_emails: 370, hit_intelligence: 190 },
        TrendPoint { hit_emails: 385, hit_intelligence: 200 },
    ]
}

/// The labels 2024-03-01 to 2024-03-05.
pub open spec fn five_days(x: Seq<String>) -> bool {
    &&& x.len() == 5
    &&& x[0]@ == "2024-03-01"@
    &&& x[1]@ == "2024-03-02"@
    &&& x[2]@ == "2024-03-03"@
    &&& x[3]@ == "2024-03-04"@
    &&& x[4]@ == "2024-03-05"@
}

/// The answer of the trend chart module.
pub open spec fn is_trend_chart_statistics(r: StatisticsResult) -> bool {
    r matches StatisticsResult::TrendChart(t) && t.wf() && five_days(t.x_axis@) && t.y_axis@ == chart_points()
}

/// The answer that a module gets.
pub open spec fn statistics_for(m: StatisticsModule, r: StatisticsResult) -> bool {
    match m {
        StatisticsModule::Dashboard => is_default_statistics(r),
        StatisticsModule::Intelligence => is_intelligence_statistics(r),
        StatisticsModule::AptOrg => is_apt_org_statistics(r),
        StatisticsModule::IntelHit => is_intel_hit_statistics(r),
        StatisticsModule::TrendChart => is_trend_chart_statistics(r),
        StatisticsModule::Default => is_default_statistics(r),
    }
}

/// The labels 2024-03-01 to 2024-03-05.
pub fn five_day_labels() -> (r: Vec<String>)
    ensures
        five_days(r@),
{
    let mut x: Vec<String> = Vec::new();
    x.push("2024-03-01".to_string());
    x.push("2024-03-02".to_string());
    x.push("2024-03-03".to_string());
    x.push("2024-03-04".to_string());
    x.push("2024-03-05".to_string());
    x
}

/// The five points of the fallback trend charts.
pub fn five_chart_points() -> (r: Vec<TrendPoint>)
    ensures
        r@ == chart_points(),
{
    let mut y: Vec<TrendPoint> = Vec::new();
    y.push(TrendPoint { hit_emails: 308, hit_intelligence: 150 });
    y.push(TrendPoint { hit_emails: 320, hit_intelligence: 165 });
    y.push(TrendPoint { hit_emails: 350, hit_intelligence: 180 });
    y.push(TrendPoint { hit_emails: 370, hit_intelligence: 190 });
    y.push(TrendPoint { hit_emails: 385, hit_intelligence: 200 });
    assert(y@ =~= chart_points());
    y
}

/// Statistics service.
#[derive(Clone)]
pub struct StatisticsService {
    pub db_client: ClientHolder,
}

impl StatisticsService {
    /// A service over the connection, if any.
    pub fn new(db_client: Option<Arc<ClickHouseClient>>) -> (r: Self)
        ensures
            r.db_client == ClientHolder::of_slot(db_client),
    {
        StatisticsService { db_client: ClientHolder::from_slot(db_client) }
    }

    /// The statistics of the module that the filter names; an unknown module
    /// gets the default panel. No store query exists for this family yet:
    /// the answer is the fallback panel of the module.
    pub fn get_statistics(&self, filter: &StatisticsFilter) -> (r: StatisticsResult)
        ensures
            statistics_for(StatisticsModule::of_name(filter.module@), r),
    {
        match StatisticsModule::from_name(filter.module.as_str()) {
            StatisticsModule::Dashboard => self.get_dashboard_statistics(),
            StatisticsModule::Intelligence => self.get_intelligence_statistics(),
            StatisticsModule::AptOrg => self.get_apt_org_statistics(),
            StatisticsModule::IntelHit => self.get_intel_hit_statistics(),
            StatisticsModule::TrendChart => self.get_trend_chart_statistics(),
            StatisticsModule::Default => self.get_default_statistics(),
        }
    }

    /// The default panel: hit emails, affected mailbox users, hit
    /// organizations.
    pub fn get_default_statistics(&self) -> (r: StatisticsResult)
        ensures
            is_default_statistics(r),
    {
        let mut items: Vec<BasicStatisticsItem> = Vec::new();
        items.push(three_day_item("命中邮件", 385, 308, 308, 350, 385));
        items.push(three_day_item("受影响邮箱用户", 147, 117, 117, 130, 147));
        items.push(three_day_item("命中单位", 32, 25, 25, 28, 32));
        StatisticsResult::BasicStats(items)
    }

    /// The dashboard panel, the same as the default one.
    pub fn get_dashboard_statistics(&self) -> (r: StatisticsResult)
        ensures
            is_default_statistics(r),
    {
        self.get_default_statistics()
    }

    /// The intelligence panel: intelligence count and active sources.
    pub fn get_intelligence_statistics(&self) -> (r: StatisticsResult)
        ensures
            is_intelligence_statistics(r),
    {
        let mut items: Vec<BasicStatisticsItem> = Vec::new();
        items.push(three_day_item("情报数量", 523, 478, 478, 500, 523));
        items.push(three_day_item("活跃情报源", 8, 7, 7, 7, 8));
        StatisticsResult::BasicStats(items)
    }

    /// The organization panel.
    pub fn get_apt_org_statistics(&self) -> (r: StatisticsResult)
        ensures
            is_apt_org_statistics(r),
    {
        let mut items: Vec<OrganizationStatisticsItem> = Vec::new();
        items.push(
            OrganizationStatisticsItem {
                title: "APT/黑产组织".to_string(),
                total_count: 25,
                black_count: 18,
                apt_count: 7,
            },
        );
        StatisticsResult::OrgStats(items)
    }

    /// The custom intelligence hit panel.
    pub fn get_intel_hit_statistics(&self) -> (r: StatisticsResult)
        ensures
            is_intel_hit_statistics(r),
    {
        let mut items: Vec<IntelHitStatisticsItem> = Vec::new();
        items.push(
            IntelHitStatisticsItem {
                title: "自定义情报命中".to_string(),
                hit_custom_intel_count: 12,
                total_custom_intel_count: 500,
            },
        );
        StatisticsResult::IntelHitStats(items)
    }

    /// The trend chart panel.
    pub fn get_trend_chart_statistics(&self) -> (r: StatisticsResult)
        ensures
            is_trend_chart_statistics(r),
    {
        StatisticsResult::TrendChart(TrendChartItem { x_axis: five_day_labels(), y_axis: five_chart_points() })
    }
}

} // verus!
