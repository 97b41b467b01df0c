use analysis_api::models::api::intelligence::{
    default_page_size, default_sort_field, default_sort_order, default_status, FilterError,
    IntelligenceQueryParams,
};
use analysis_api::models::domain::intelligence::{
    IntelligenceFilter, IntelligenceStatus, IntelligenceType, SortField, SortOrder, SourceType,
    StatusKey, TypeFacet,
};
use analysis_api::query::{paginate, record_matches, sort_records};
use analysis_api::services::intelligence_service::{fallback_intelligence, IntelligenceService};

const START: i64 = 1_709_251_200_000; // 2024-03-01T00:00:00Z
const END: i64 = 1_709_424_000_000; // 2024-03-03T00:00:00Z

fn params() -> IntelligenceQueryParams {
    IntelligenceQueryParams {
        start_time: Some(START),
        end_time: Some(END),
        sources: None,
        intelligence_type: None,
        status: None,
        filter: None,
        sort_by: None,
        sort_order: None,
        page_size: None,
        page: None,
    }
}

fn filter(page: usize, page_size: usize) -> IntelligenceFilter {
    let mut p = params();
    p.page = Some(page);
    p.page_size = Some(page_size);
    p.into_filter().unwrap()
}

fn ids(v: &[analysis_api::models::domain::intelligence::Intelligence]) -> Vec<u128> {
    v.iter().map(|r| r.id).collect()
}

#[test]
fn defaults_have_documented_values() {
    assert_eq!(default_page_size(), 10);
    assert_eq!(default_sort_field(), SortField::LatestHitsTime);
    assert_eq!(default_sort_order(), SortOrder::Desc);
    let s = default_status();
    assert!(!s.get(StatusKey::IgnoreWhite) && !s.get(StatusKey::IgnoreBlack) && !s.get(StatusKey::IgnoreReported));
}

#[test]
fn omitted_page_size_defaults_to_ten() {
    let f = params().into_filter().unwrap();
    assert_eq!(f.page_size, 10);
    assert_eq!(f.page, 1);
    assert_eq!(f.sort_by, SortField::LatestHitsTime);
    assert_eq!(f.sort_order, SortOrder::Desc);
}

#[test]
fn zero_page_size_and_page_are_normalized() {
    let mut p = params();
    p.page_size = Some(0);
    p.page = Some(0);
    let f = p.into_filter().unwrap();
    assert_eq!(f.page_size, 10);
    assert_eq!(f.page, 1);
    let mut p = params();
    p.page_size = Some(3);
    assert_eq!(p.into_filter().unwrap().page_size, 3);
}

#[test]
fn empty_text_filter_is_no_constraint() {
    let mut p = params();
    p.filter = Some(String::new());
    let f = p.into_filter().unwrap();
    assert!(f.filter.is_none());
    let (total, _) = IntelligenceService::new(None).list_intelligence(&f);
    assert_eq!(total, 5);
}

#[test]
fn missing_time_window_is_rejected() {
    let mut p = params();
    p.end_time = None;
    assert_eq!(p.into_filter().unwrap_err(), FilterError::MissingTimeWindow);
    let mut p = params();
    p.start_time = None;
    assert!(p.into_filter().is_err());
}

#[test]
fn first_page_of_two_holds_the_two_most_recent() {
    let svc = IntelligenceService::new(None);
    let (total, page) = svc.list_intelligence(&filter(1, 2));
    assert_eq!(total, 5);
    assert_eq!(ids(&page), vec![1, 2]);
    assert!(page[0].latest_hits_time >= page[1].latest_hits_time);
}

#[test]
fn total_does_not_depend_on_the_page() {
    let svc = IntelligenceService::new(None);
    let (t1, page1) = svc.list_intelligence(&filter(1, 2));
    let (t2, page2) = svc.list_intelligence(&filter(2, 2));
    let (t3, page3) = svc.list_intelligence(&filter(3, 2));
    let (t4, page4) = svc.list_intelligence(&filter(4, 2));
    let (t5, page5) = svc.list_intelligence(&filter(1, 10));
    assert_eq!((t1, t2, t3, t4, t5), (5, 5, 5, 5, 5));
    assert_eq!(ids(&page2), vec![3, 4]);
    assert_eq!(ids(&page3), vec![5]);
    assert!(page4.is_empty());
    assert_eq!(ids(&page5), vec![1, 2, 3, 4, 5]);
    for p in [&page1, &page2, &page3, &page4, &page5] {
        assert!(p.len() as u64 <= t1);
    }
}

#[test]
fn window_outside_the_data_lists_nothing() {
    let mut p = params();
    p.start_time = Some(END + 1);
    p.end_time = Some(END + 1000);
    let (total, page) = IntelligenceService::new(None).list_intelligence(&p.into_filter().unwrap());
    assert_eq!(total, 0);
    assert!(page.is_empty());
}

#[test]
fn window_bounds_are_inclusive() {
    // The most recent fallback item was last hit at 2024-03-02T20:00Z.
    let mut p = params();
    p.start_time = Some(START + 44 * 3_600_000);
    p.end_time = Some(START + 44 * 3_600_000);
    let (total, page) = IntelligenceService::new(None).list_intelligence(&p.into_filter().unwrap());
    assert_eq!(total, 1);
    assert_eq!(ids(&page), vec![1]);
}

#[test]
fn source_facet_keeps_listed_sources() {
    let mut p = params();
    p.sources = Some(vec![SourceType::Cloud]);
    let (total, page) = IntelligenceService::new(None).list_intelligence(&p.into_filter().unwrap());
    assert_eq!(total, 2);
    assert_eq!(ids(&page), vec![2, 3]);
    let mut p = params();
    p.sources = Some(vec![SourceType::Cloud, SourceType::Local]);
    assert_eq!(IntelligenceService::new(None).list_intelligence(&p.into_filter().unwrap()).0, 5);
    let mut p = params();
    p.sources = Some(vec![]);
    assert_eq!(IntelligenceService::new(None).list_intelligence(&p.into_filter().unwrap()).0, 0);
}

#[test]
fn type_facet_matches_kind_and_sub_kind() {
    let mut p = params();
    p.intelligence_type = Some(vec![TypeFacet { intelligence_type: IntelligenceType::Domain, sub_types: vec![] }]);
    let (total, page) = IntelligenceService::new(None).list_intelligence(&p.into_filter().unwrap());
    assert_eq!(total, 2);
    assert_eq!(ids(&page), vec![1, 3]);
    let mut p = params();
    p.intelligence_type = Some(vec![
        TypeFacet { intelligence_type: IntelligenceType::Domain, sub_types: vec!["品牌仿冒域名".to_string()] },
        TypeFacet { intelligence_type: IntelligenceType::File, sub_types: vec![] },
    ]);
    let (total, page) = IntelligenceService::new(None).list_intelligence(&p.into_filter().unwrap());
    assert_eq!(total, 2);
    assert_eq!(ids(&page), vec![1, 4]);
}

#[test]
fn status_flags_hide_flagged_items() {
    let mut p = params();
    p.status = Some(IntelligenceStatus { ignore_white: false, ignore_black: true, ignore_reported: false });
    let (total, page) = IntelligenceService::new(None).list_intelligence(&p.into_filter().unwrap());
    assert_eq!(total, 4);
    assert!(!ids(&page).contains(&1));
    let mut p = params();
    p.status = Some(IntelligenceStatus { ignore_white: true, ignore_black: true, ignore_reported: true });
    assert_eq!(IntelligenceService::new(None).list_intelligence(&p.into_filter().unwrap()).0, 2);
}

#[test]
fn text_filter_matches_substrings_of_the_value() {
    let mut p = params();
    p.filter = Some("example.com".to_string());
    let (total, page) = IntelligenceService::new(None).list_intelligence(&p.into_filter().unwrap());
    assert_eq!(total, 1);
    assert_eq!(ids(&page), vec![1]);
    let mut p = params();
    p.filter = Some("example".to_string());
    assert_eq!(IntelligenceService::new(None).list_intelligence(&p.into_filter().unwrap()).0, 4);
    let mut p = params();
    p.filter = Some("no such text".to_string());
    assert_eq!(IntelligenceService::new(None).list_intelligence(&p.into_filter().unwrap()).0, 0);
}

#[test]
fn ascending_sort_by_hit_emails() {
    let mut p = params();
    p.sort_by = Some(SortField::HitEmails);
    p.sort_order = Some(SortOrder::Asc);
    let (_, page) = IntelligenceService::new(None).list_intelligence(&p.into_filter().unwrap());
    assert_eq!(ids(&page), vec![5, 4, 3, 1, 2]);
    let mut p = params();
    p.sort_by = Some(SortField::ImpactUsers);
    let (_, page) = IntelligenceService::new(None).list_intelligence(&p.into_filter().unwrap());
    assert_eq!(ids(&page), vec![2, 1, 3, 4, 5]);
}

#[test]
fn sort_keeps_arrival_order_of_equal_keys() {
    let mut v = fallback_intelligence();
    for r in v.iter_mut() {
        r.hit_emails = 1;
    }
    let sorted = sort_records(v, SortField::HitEmails, SortOrder::Desc);
    assert_eq!(ids(&sorted), vec![3, 1, 5, 2, 4]);
}

#[test]
fn paginate_cuts_the_window() {
    let v: Vec<u32> = (0..7).collect();
    assert_eq!(paginate(v.clone(), 1, 3), vec![0, 1, 2]);
    assert_eq!(paginate(v.clone(), 3, 3), vec![6]);
    assert_eq!(paginate(v.clone(), 4, 3), Vec::<u32>::new());
    assert_eq!(paginate(v.clone(), usize::MAX, usize::MAX), Vec::<u32>::new());
    assert_eq!(paginate(v, 1, usize::MAX), (0..7).collect::<Vec<u32>>());
}

#[test]
fn record_matches_checks_every_facet() {
    let f = filter(1, 10);
    let v = fallback_intelligence();
    assert!(v.iter().all(|r| record_matches(&f, r)));
}
