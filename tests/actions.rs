use std::sync::Arc;
use analysis_api::db::clickhouse::ClickHouseClient;
use analysis_api::models::domain::intelligence_action::{ListKind, StoreAction};
use analysis_api::services::intelligence_action_service::IntelligenceActionService;

fn connected() -> IntelligenceActionService {
    IntelligenceActionService::new(Some(Arc::new(ClickHouseClient::new(
        clickhouse::Client::default(),
        "m01".to_string(),
    ))))
}

fn describe(p: &[StoreAction]) -> Vec<String> {
    p.iter().map(|a| format!("{:?}", a)).collect()
}

#[test]
fn offline_actions_change_nothing() {
    let s = IntelligenceActionService::new(None);
    assert!(s.add_to_whitelist(1, "v".to_string(), true).is_empty());
    assert!(s.add_to_blacklist(1, "v".to_string()).is_empty());
    assert!(s.report_false_positive(2, 1, "why".to_string(), true).is_empty());
}

#[test]
fn blacklist_lists_and_quarantines() {
    let p = connected().add_to_blacklist(7, "evil.example".to_string());
    assert_eq!(p.len(), 2);
    match &p[0] {
        StoreAction::UpsertDisposition { intelligence_id, list, value } => {
            assert_eq!((*intelligence_id, *list, value.as_str()), (7, ListKind::Deny, "evil.example"));
        },
        other => panic!("unexpected: {:?}", other),
    }
    assert!(matches!(p[1], StoreAction::QuarantineRelated { intelligence_id: 7 }));
}

#[test]
fn blacklist_twice_plans_the_same_writes() {
    let s = connected();
    let a = s.add_to_blacklist(7, "evil.example".to_string());
    let b = s.add_to_blacklist(7, "evil.example".to_string());
    assert_eq!(describe(&a), describe(&b));
}

#[test]
fn whitelist_releases_only_when_asked() {
    let s = connected();
    let p = s.add_to_whitelist(3, "ok.example".to_string(), false);
    assert_eq!(p.len(), 1);
    assert!(matches!(p[0], StoreAction::UpsertDisposition { intelligence_id: 3, list: ListKind::Allow, .. }));
    let p = s.add_to_whitelist(3, "ok.example".to_string(), true);
    assert_eq!(p.len(), 2);
    assert!(matches!(p[1], StoreAction::ReleaseQuarantined { intelligence_id: 3 }));
}

#[test]
fn report_records_the_sample_offer() {
    let s = connected();
    let p = s.report_false_positive(10, 3, "benign".to_string(), false);
    assert_eq!(p.len(), 1);
    let p = s.report_false_positive(10, 3, "benign".to_string(), true);
    assert_eq!(p.len(), 2);
    assert!(matches!(p[1], StoreAction::RecordSampleOffer { log_id: 10, intelligence_id: 3 }));
    match &p[0] {
        StoreAction::RecordFalsePositive { log_id, intelligence_id, reason, provide_sample_email } => {
            assert_eq!((*log_id, *intelligence_id, reason.as_str(), *provide_sample_email), (10, 3, "benign", true));
        },
        other => panic!("unexpected: {:?}", other),
    }
}
