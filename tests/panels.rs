use analysis_api::clock::{days_before, DAY_MILLIS};
use analysis_api::models::domain::statistics::{
    BasicStatisticsItem, ChangeDirection, StatisticsFilter, StatisticsResult,
};
use analysis_api::models::domain::system::SystemTimeData;
use analysis_api::services::statistics_service::{StatisticsModule, StatisticsService};
use analysis_api::services::system_service::{self, SystemService};
use analysis_api::services::timeline_service::TimelineService;
use analysis_api::services::trend_service::{trend_window, TrendService};

fn stats(module: &str) -> StatisticsResult {
    StatisticsService::new(None).get_statistics(&StatisticsFilter {
        start_time: 0,
        end_time: 1,
        module: module.to_string(),
        extras: vec![],
    })
}

#[test]
fn module_names_select_panels() {
    assert_eq!(StatisticsModule::from_name("apt_org"), StatisticsModule::AptOrg);
    assert_eq!(StatisticsModule::from_name("trend_chart"), StatisticsModule::TrendChart);
    assert_eq!(StatisticsModule::from_name("Dashboard"), StatisticsModule::Default);
    assert_eq!(StatisticsModule::from_name(""), StatisticsModule::Default);
}

#[test]
fn unknown_module_gets_the_default_panel() {
    match stats("no-such-module") {
        StatisticsResult::BasicStats(v) => {
            assert_eq!(v.len(), 3);
            assert_eq!(v[0].title, "命中邮件");
            assert_eq!(v[0].current_total, 385);
            assert_eq!(v[0].change_value, 77);
            assert_eq!(v[0].change_direction, ChangeDirection::Increase);
            assert_eq!(v[2].trend_y, vec![25, 28, 32]);
        },
        other => panic!("unexpected: {:?}", other),
    }
}

#[test]
fn each_module_has_its_shape() {
    assert!(matches!(stats("dashboard"), StatisticsResult::BasicStats(v) if v.len() == 3));
    assert!(matches!(stats("intelligence"), StatisticsResult::BasicStats(v) if v.len() == 2 && v[1].change_value == 1));
    match stats("apt_org") {
        StatisticsResult::OrgStats(v) => assert_eq!((v[0].total_count, v[0].black_count, v[0].apt_count), (25, 18, 7)),
        other => panic!("unexpected: {:?}", other),
    }
    match stats("intel_hit") {
        StatisticsResult::IntelHitStats(v) => assert_eq!((v[0].hit_custom_intel_count, v[0].total_custom_intel_count), (12, 500)),
        other => panic!("unexpected: {:?}", other),
    }
    match stats("trend_chart") {
        StatisticsResult::TrendChart(t) => {
            assert_eq!(t.x_axis.len(), 5);
            assert_eq!(t.y_axis.len(), 5);
            assert_eq!(t.y_axis[4].hit_emails, 385);
            assert_eq!(t.x_axis[4], "2024-03-05");
        },
        other => panic!("unexpected: {:?}", other),
    }
}

#[test]
fn change_follows_the_totals() {
    let up = BasicStatisticsItem::from_totals("a".to_string(), 10, 4, vec![], vec![]);
    assert_eq!((up.change_direction, up.change_value), (ChangeDirection::Increase, 6));
    let down = BasicStatisticsItem::from_totals("b".to_string(), 4, 10, vec![], vec![]);
    assert_eq!((down.change_direction, down.change_value), (ChangeDirection::Decrease, 6));
    let same = BasicStatisticsItem::from_totals("c".to_string(), 0, 0, vec![], vec![]);
    assert_eq!((same.change_direction, same.change_value), (ChangeDirection::Unchanged, 0));
    let big = BasicStatisticsItem::from_totals("d".to_string(), 0, u64::MAX, vec![], vec![]);
    assert_eq!(big.change_value, u64::MAX);
}

#[test]
fn trend_window_defaults_to_the_last_week() {
    let now = 1_709_424_000_000;
    assert_eq!(trend_window(None, None, now), (now - 7 * DAY_MILLIS, now));
    assert_eq!(trend_window(Some(5), None, now), (5, now));
    assert_eq!(trend_window(None, Some(9), now), (now - 7 * DAY_MILLIS, 9));
    assert_eq!(trend_window(Some(1), Some(2), now), (1, 2));
    assert_eq!(days_before(i64::MIN + 1, 7), i64::MIN);
}

#[test]
fn hit_trend_keeps_given_bounds() {
    let t = TrendService::new(None).get_hit_trend(Some(100), Some(200), None);
    assert_eq!((t.start_time, t.end_time), (100, 200));
    assert_eq!(t.x_axis.len(), t.y_axis.len());
    assert_eq!(t.y_axis[3].hit_emails, 30);
    let t = TrendService::new(None).get_hit_trend(None, None, Some("day".to_string()));
    assert_eq!(t.end_time - t.start_time, 7 * DAY_MILLIS);
}

#[test]
fn timeline_lists_the_item_emails() {
    let t = TimelineService::new(None).get_timeline(42);
    assert_eq!(t.intelligence_id, 42);
    assert_eq!(t.emails.len(), 2);
    assert_eq!(t.emails[0].status, "Accept");
    assert_eq!(t.emails[1].status, "Quarantine");
    assert_eq!(t.source, "Local-金融行业");
}

#[test]
fn system_time_is_rendered_in_utc() {
    let d = SystemTimeData::from_service(system_service::SystemTimeData { timestamp: 0 });
    assert_eq!(d.current_time, "1970-01-01T00:00:00+00:00");
    assert_eq!(d.timezone, "UTC");
    let d = SystemTimeData::from_service(system_service::SystemTimeData { timestamp: 947_638_923_004 });
    assert_eq!(d.current_time, "2000-01-12T01:02:03.004+00:00");
    assert_eq!(d.timestamp, 947_638_923_004);
    let d = SystemTimeData::from_service(system_service::SystemTimeData { timestamp: i64::MAX });
    assert_eq!(d.current_time, "");
}

#[test]
fn system_clock_reads_the_present() {
    let t = SystemService::new().get_system_time();
    assert!(t.timestamp > 1_700_000_000_000);
}
