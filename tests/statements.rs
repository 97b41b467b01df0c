use std::sync::Arc;
use analysis_api::db::clickhouse::ClickHouseClient;
use analysis_api::db::listing::{count_statement, list_statement, page_offset};
use analysis_api::db::models::IntelligenceRow;
use analysis_api::db::models::{CountResult, UserEvent};
use analysis_api::db::row::{Cell, Row};
use analysis_api::db::statements::insert_statement;
use analysis_api::models::api::intelligence::IntelligenceQueryParams;
use analysis_api::models::domain::intelligence::{
    IntelligenceFilter, IntelligenceStatus, IntelligenceType, SortField, SortOrder, SourceType,
    TypeFacet, Urgency,
};
use analysis_api::models::domain::intelligence_action::{ListKind, StoreAction};
use analysis_api::services::intelligence_service::{
    intelligence_from_row, listing_from_rows, IntelligenceService, ListPlan,
};

const COLUMNS: &str = "id, intelligence_id, value, description, intelligence_type, sub_type, source, urgency, hit_emails, impact_users, first_found_time, latest_hits_time, is_white, is_black, is_reported, attacked_industry, contribution_industry";

fn base_filter() -> IntelligenceFilter {
    IntelligenceQueryParams {
        start_time: Some(100),
        end_time: Some(200),
        sources: None,
        intelligence_type: None,
        status: None,
        filter: None,
        sort_by: None,
        sort_order: None,
        page_size: Some(2),
        page: Some(3),
    }
    .into_filter()
    .unwrap()
}

fn row() -> IntelligenceRow {
    IntelligenceRow {
        id: 7,
        intelligence_id: 8,
        value: "evil.example".to_string(),
        description: "d".to_string(),
        intelligence_type: IntelligenceType::Url,
        sub_type: "钓鱼欺诈".to_string(),
        source: SourceType::Cloud,
        urgency: Urgency::Low,
        hit_emails: 4,
        impact_users: 2,
        first_found_time: 10,
        latest_hits_time: 20,
        is_white: 0,
        is_black: 1,
        is_reported: 0,
        attacked_industry: 3,
        contribution_industry: "x".to_string(),
    }
}

#[test]
fn plain_listing_statement() {
    let s = list_statement(&base_filter());
    assert_eq!(
        s.sql,
        format!(
            "SELECT {} FROM intelligence_list WHERE latest_hits_time >= fromUnixTimestamp64Milli(?) AND latest_hits_time <= fromUnixTimestamp64Milli(?) ORDER BY latest_hits_time DESC LIMIT ? OFFSET ?",
            COLUMNS
        )
    );
    assert_eq!(s.params, vec![Cell::DateTime(100), Cell::DateTime(200), Cell::UInt64(2), Cell::UInt64(4)]);
}

#[test]
fn every_facet_becomes_a_predicate() {
    let mut f = base_filter();
    f.sources = Some(vec![SourceType::Local, SourceType::Cloud]);
    f.intelligence_type = Some(vec![
        TypeFacet { intelligence_type: IntelligenceType::Domain, sub_types: vec!["a".to_string(), "b".to_string()] },
        TypeFacet { intelligence_type: IntelligenceType::File, sub_types: vec![] },
    ]);
    f.status = IntelligenceStatus { ignore_white: true, ignore_black: false, ignore_reported: true };
    f.filter = Some("exam".to_string());
    f.sort_by = SortField::HitEmails;
    f.sort_order = SortOrder::Asc;
    let c = count_statement(&f);
    assert_eq!(
        c.sql,
        "SELECT count() FROM intelligence_list WHERE latest_hits_time >= fromUnixTimestamp64Milli(?) AND latest_hits_time <= fromUnixTimestamp64Milli(?) AND source IN (?, ?) AND ((intelligence_type = ? AND sub_type IN (?, ?)) OR (intelligence_type = ?)) AND is_white = 0 AND is_reported = 0 AND positionUTF8(value, ?) > 0"
    );
    assert_eq!(
        c.params,
        vec![
            Cell::DateTime(100),
            Cell::DateTime(200),
            Cell::UInt8(1),
            Cell::UInt8(2),
            Cell::UInt8(2),
            Cell::Text("a".to_string()),
            Cell::Text("b".to_string()),
            Cell::UInt8(4),
            Cell::Text("exam".to_string()),
        ]
    );
    let s = list_statement(&f);
    assert!(s.sql.ends_with(" ORDER BY hit_emails ASC LIMIT ? OFFSET ?"));
    assert_eq!(s.params.len(), c.params.len() + 2);
}

#[test]
fn empty_facets_match_nothing() {
    let mut f = base_filter();
    f.sources = Some(vec![]);
    f.intelligence_type = Some(vec![]);
    let c = count_statement(&f);
    assert!(c.sql.ends_with("fromUnixTimestamp64Milli(?) AND 0 = 1 AND 0 = 1"));
    assert_eq!(c.params, vec![Cell::DateTime(100), Cell::DateTime(200)]);
}

#[test]
fn offsets_saturate() {
    assert_eq!(page_offset(1, 10), 0);
    assert_eq!(page_offset(4, 10), 30);
    assert_eq!(page_offset(usize::MAX, usize::MAX), u64::MAX);
}

#[test]
fn selected_columns_follow_the_descriptor() {
    assert_eq!(IntelligenceRow::column_names().join(", "), COLUMNS);
    assert_eq!(IntelligenceRow::decode(&row().encode()), Ok(row()));
}

#[test]
fn connected_listing_is_planned_as_statements() {
    let c = Arc::new(ClickHouseClient::new(clickhouse::Client::default(), "m01".to_string()));
    let f = base_filter();
    match IntelligenceService::new(Some(c)).plan_list(&f) {
        ListPlan::Query { page, count } => {
            assert_eq!(page.sql, list_statement(&f).sql);
            assert_eq!(count.sql, count_statement(&f).sql);
        },
        other => panic!("unexpected: {:?}", other),
    }
    let mut g = base_filter();
    g.start_time = 1_709_251_200_000;
    g.end_time = 1_709_424_000_000;
    match IntelligenceService::new(None).plan_list(&g) {
        ListPlan::Fallback { total, items } => {
            assert_eq!(total, 5);
            assert_eq!(items.len(), 1);
        },
        other => panic!("unexpected: {:?}", other),
    }
}

#[test]
fn rows_become_items() {
    let i = intelligence_from_row(row());
    assert_eq!((i.id, i.intelligence_id, i.hit_emails), (7, 8, 4));
    assert!(i.status.ignore_black && !i.status.ignore_white);
    assert_eq!(i.source, SourceType::Cloud);
    let (total, items) = listing_from_rows(9, vec![row(), row()]);
    assert_eq!(total, 9);
    assert_eq!(items.len(), 2);
}

#[test]
fn action_statements() {
    let s = StoreAction::UpsertDisposition { intelligence_id: 5, list: ListKind::Deny, value: "v".to_string() }.statement();
    assert_eq!(s.sql, "INSERT INTO intelligence_disposition (intelligence_id, list, value) VALUES (toUUID(?), ?, ?)");
    assert_eq!(s.params, vec![Cell::Uuid(5), Cell::Text("deny".to_string()), Cell::Text("v".to_string())]);
    let s = StoreAction::RecordFalsePositive { log_id: 1, intelligence_id: 2, reason: "r".to_string(), provide_sample_email: true }.statement();
    assert_eq!(s.params[3], Cell::UInt8(1));
    let s = StoreAction::QuarantineRelated { intelligence_id: 9 }.statement();
    assert!(s.sql.starts_with("ALTER TABLE data_mail_info UPDATE action = 4"));
    assert_eq!(s.params, vec![Cell::Uuid(9)]);
}

#[test]
fn insert_binds_every_record_in_column_order() {
    let records = vec![CountResult { count: 1 }, CountResult { count: 2 }, CountResult { count: 3 }];
    let s = insert_statement("counts", &records).unwrap();
    assert_eq!(s.sql, "INSERT INTO counts (count) VALUES (?), (?), (?)");
    assert_eq!(s.params, vec![Cell::UInt64(1), Cell::UInt64(2), Cell::UInt64(3)]);
    let e = UserEvent {
        event_id: 1,
        user_id: 2,
        event_type: "t".to_string(),
        payload: "{}".to_string(),
        timestamp: 3,
        ip_address: None,
        user_agent: Some("ua".to_string()),
    };
    let s = insert_statement("user_events", &vec![e.clone()]).unwrap();
    assert_eq!(
        s.sql,
        "INSERT INTO user_events (event_id, user_id, event_type, payload, timestamp, ip_address, user_agent) VALUES (?, ?, ?, ?, ?, ?, ?)"
    );
    assert_eq!(s.params, e.encode());
    assert!(insert_statement::<CountResult>("counts", &vec![]).is_none());
}
