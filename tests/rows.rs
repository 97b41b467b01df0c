use analysis_api::db::models::{
    ActionType, AlertIntelligence, AnalysisResult, AttributeType, CountResult, DataMailInfo,
    ParentSourceType, SourceType, UrgencyLevel, UserEvent,
};
use analysis_api::db::row::{decode_rows, Cell, CellKind, DecodeError, Row};

fn alert() -> AlertIntelligence {
    AlertIntelligence {
        id: 11,
        mail_id: 1001,
        timestamp: 1_709_251_200_000,
        intelligence_id: 0x0123_4567_89ab_cdef_0123_4567_89ab_cdef,
        description: "恶意域名".to_string(),
        source_industry: "[\"金融\"]".to_string(),
        first_discovered_time: 1_706_745_600_000,
        last_active_time: 1_709_409_600_000,
        intelligence_update_time: 1_709_300_000_000,
        intelligence_expiration_time: 1_740_000_000_000,
        attribute: AttributeType::UrlDomain,
        intelligence_type: "钓鱼欺诈".to_string(),
        urgency: UrgencyLevel::Medium,
        value: "phish-login.example.com".to_string(),
        pattern: "string".to_string(),
        info: "{}".to_string(),
        threat_actor: "{}".to_string(),
        joint_prevention_and_control: "{}".to_string(),
        display_to_name: "Bob".to_string(),
        display_to_address: "bob@example.com".to_string(),
        display_to_account: "bob".to_string(),
        display_to_domain: "example.com".to_string(),
        is_deleted: 0,
        updated_at: 1_709_409_600_001,
        source: SourceType::Cloud,
        source_id: 77,
        source_mime_type: "message/rfc822".to_string(),
        parent_source: ParentSourceType::QrCode,
        scan_time_us: 1234,
    }
}

fn mail() -> DataMailInfo {
    let s = |x: &str| x.to_string();
    DataMailInfo {
        id: 5,
        action: ActionType::Quarantine,
        timestamp: 1,
        send_time: -2,
        subject: s("subject"),
        bcc_name: s("bn"),
        bcc_email: s("be"),
        bcc_email_account: s("bea"),
        bcc_email_domain: s("bed"),
        display_from: s("df"),
        display_to_name: s("dtn"),
        display_to_address: s("dta"),
        display_to_account: s("dtac"),
        display_to_domain: s("dtd"),
        config: s("cfg"),
        sasl_login: s("sl"),
        sasl_method: s("sm"),
        client_ip: s("10.0.0.1"),
        client_ptr: s("ptr"),
        client_port: 25,
        client_helo: s("helo"),
        client_active_connections: -3,
        client_envelope_from_name: s("fn"),
        client_envelope_from_address: s("fa"),
        client_envelope_from_account: s("fac"),
        client_envelope_from_domain: s("fd"),
        client_envelope_to_name: s("tn"),
        client_envelope_to_address: s("ta"),
        client_envelope_to_account: s("tac"),
        client_envelope_to_domain: s("td"),
        tls: s("TLSv1.3"),
        server: s("mx"),
        protocol_version: s("ESMTP"),
        text_body: s("body"),
        html_body: s("<p>body</p>"),
        deconstruction_modules: s("dm"),
        detection_modules: s("det"),
        hash_sha1: s("sha1"),
        hash_sha256: s("sha256"),
        hash_md5: s("md5"),
        direction: s("in"),
        protocol_check: s("ok"),
        extract_password: s(""),
    }
}

#[test]
fn alert_round_trips() {
    let a = alert();
    let cells = a.encode();
    assert_eq!(cells.len(), AlertIntelligence::column_names().len());
    assert_eq!(cells.len(), 29);
    assert_eq!(cells[10], Cell::UInt8(6));
    assert_eq!(cells[3], Cell::Uuid(a.intelligence_id));
    assert_eq!(AlertIntelligence::decode(&cells), Ok(a));
}

#[test]
fn mail_round_trips() {
    let m = mail();
    let cells = m.encode();
    assert_eq!(cells.len(), 43);
    assert_eq!(DataMailInfo::column_names()[19], "client_port");
    assert_eq!(cells[19], Cell::Int32(25));
    assert_eq!(DataMailInfo::decode(&cells), Ok(m));
}

#[test]
fn small_records_round_trip() {
    let c = CountResult { count: 42 };
    assert_eq!(c.encode(), vec![Cell::UInt64(42)]);
    assert_eq!(CountResult::decode(&c.encode()), Ok(c));
    let e = UserEvent {
        event_id: 9,
        user_id: 3,
        event_type: "login".to_string(),
        payload: "{}".to_string(),
        timestamp: 1_000,
        ip_address: Some("10.1.1.1".to_string()),
        user_agent: None,
    };
    assert_eq!(UserEvent::decode(&e.encode()), Ok(e));
    let r = AnalysisResult {
        result_id: 1,
        analysis_name: "daily".to_string(),
        result_data: "[]".to_string(),
        created_at: 0,
        updated_at: 5,
        parameters: None,
    };
    assert_eq!(AnalysisResult::decode(&r.encode()), Ok(r));
}

#[test]
fn column_names_follow_the_table() {
    let names = AlertIntelligence::column_names();
    assert_eq!(names[0], "id");
    assert_eq!(names[28], "scan_time_us");
    assert_eq!(CountResult::column_names(), vec!["count"]);
    assert_eq!(
        UserEvent::column_names(),
        vec!["event_id", "user_id", "event_type", "payload", "timestamp", "ip_address", "user_agent"]
    );
    assert_eq!(UserEvent::column_kind_list()[5], CellKind::NullableText);
}

#[test]
fn wrong_cell_count_is_rejected() {
    let mut cells = alert().encode();
    cells.pop();
    assert_eq!(AlertIntelligence::decode(&cells), Err(DecodeError::ColumnCount { expected: 29, found: 28 }));
    assert_eq!(CountResult::decode(&vec![]), Err(DecodeError::ColumnCount { expected: 1, found: 0 }));
}

#[test]
fn wrong_cell_kind_is_rejected_at_the_first_column() {
    let mut cells = alert().encode();
    cells[4] = Cell::UInt64(1);
    cells[7] = Cell::Text("x".to_string());
    assert_eq!(
        AlertIntelligence::decode(&cells),
        Err(DecodeError::ColumnType { column: 4, expected: CellKind::Text })
    );
}

#[test]
fn unknown_enum_code_is_rejected() {
    let mut cells = alert().encode();
    cells[12] = Cell::UInt8(9);
    assert_eq!(AlertIntelligence::decode(&cells), Err(DecodeError::BadValue { column: 12 }));
    let mut cells = mail().encode();
    cells[1] = Cell::UInt8(0);
    assert_eq!(DataMailInfo::decode(&cells), Err(DecodeError::BadValue { column: 1 }));
}

#[test]
fn enum_codes() {
    assert_eq!(AttributeType::Domain.code(), 1);
    assert_eq!(AttributeType::Sha256.code(), 8);
    assert_eq!(AttributeType::from_code(5), Some(AttributeType::Md5));
    assert_eq!(AttributeType::from_code(9), None);
    assert_eq!(ActionType::from_code(4), Some(ActionType::Quarantine));
    assert_eq!(ActionType::Reject.name(), "Reject");
    assert_eq!(ParentSourceType::Smtp.code(), 8);
    assert_eq!(UrgencyLevel::from_code(0), None);
}

#[test]
fn rows_decode_in_order_and_stop_at_the_first_bad_row() {
    let rows = vec![CountResult { count: 1 }.encode(), CountResult { count: 2 }.encode()];
    let out: Vec<CountResult> = decode_rows(&rows).unwrap();
    assert_eq!(out, vec![CountResult { count: 1 }, CountResult { count: 2 }]);
    let bad = vec![CountResult { count: 1 }.encode(), vec![Cell::Text("2".to_string())]];
    let r: Result<Vec<CountResult>, DecodeError> = decode_rows(&bad);
    assert_eq!(r, Err(DecodeError::ColumnType { column: 0, expected: CellKind::UInt64 }));
}
