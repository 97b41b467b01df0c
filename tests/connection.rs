use std::sync::Arc;
use analysis_api::db::clickhouse::{ClickHouseClient, ClientHolder};
use analysis_api::db::{ConnectError, DbConfig, ProbeFailure, PROBE_FAILED, PROBE_HINTS};
use analysis_api::services::AppServices;

fn config(user: Option<&str>, password: Option<&str>) -> DbConfig {
    DbConfig {
        url: "http://localhost:8123".to_string(),
        database: "m01".to_string(),
        username: user.map(|s| s.to_string()),
        password: password.map(|s| s.to_string()),
    }
}

#[test]
fn partial_credentials_mean_no_authentication() {
    assert_eq!(config(Some("user"), None).credentials(), None);
    assert_eq!(config(None, Some("pw")).credentials(), None);
    assert_eq!(config(None, None).credentials(), None);
    assert_eq!(
        config(Some("user"), Some("pw")).credentials(),
        Some(("user".to_string(), "pw".to_string()))
    );
}

#[test]
fn default_config_is_local_without_credentials() {
    let c = DbConfig::default();
    assert_eq!(c.url, "http://localhost:8123");
    assert_eq!(c.database, "default");
    assert!(c.credentials().is_none());
}

#[test]
fn rejected_probe_is_an_auth_or_schema_error() {
    let e = ConnectError::from_probe(ProbeFailure::Rejected, "Code: 516. Authentication failed");
    assert!(matches!(e, ConnectError::AuthOrSchema(_)));
    assert_eq!(e.message(), &format!("{}{}{}", PROBE_FAILED, "Code: 516. Authentication failed", PROBE_HINTS));
    for k in [ProbeFailure::Network, ProbeFailure::TimedOut, ProbeFailure::Other] {
        let e = ConnectError::from_probe(k, "connection refused");
        assert!(matches!(e, ConnectError::Unreachable(_)));
        assert!(e.message().contains("connection refused"));
        assert!(e.message().contains("URL"));
    }
}

#[test]
fn offline_holder_runs_nothing() {
    let h = ClientHolder::from_slot(None);
    assert!(!h.is_connected());
    assert_eq!(h.with_client(|c| c.database().to_string()), None);
}

#[test]
fn connected_holder_runs_on_the_client() {
    let c = ClickHouseClient::new(clickhouse::Client::default(), "m01".to_string());
    assert_eq!(c.database(), "m01");
    let h = ClientHolder::from_slot(Some(Arc::new(c)));
    assert!(h.is_connected());
    assert_eq!(h.with_client(|c| c.database().to_string()), Some("m01".to_string()));
}

#[test]
fn services_share_the_connection_state() {
    let s = AppServices::new(None);
    assert!(!s.intelligence.db_client.is_connected());
    assert!(!s.email.db_client.is_connected());
    let c = Arc::new(ClickHouseClient::new(clickhouse::Client::default(), "m01".to_string()));
    let s = AppServices::new(Some(c));
    assert!(s.intelligence.db_client.is_connected());
    assert!(s.trend.db_client.is_connected());
    assert!(s.intelligence_action.db_client.is_connected());
}

#[test]
fn failed_connection_degrades_to_offline() {
    let failed: Result<ClickHouseClient, ConnectError> =
        Err(ConnectError::from_probe(ProbeFailure::Network, "refused"));
    let h = ClientHolder::from_connect_result(failed);
    assert!(!h.is_connected());
    assert!(h.slot().is_none());
    let ok: Result<ClickHouseClient, ConnectError> =
        Ok(ClickHouseClient::new(clickhouse::Client::default(), "m01".to_string()));
    let h = ClientHolder::from_connect_result(ok);
    assert!(h.is_connected());
    assert_eq!(h.slot().map(|c| c.database().to_string()), Some("m01".to_string()));
}
