//! Record services, one per record family, and their bundle.

pub mod email_service;
pub mod intelligence_action_service;
pub mod intelligence_service;
pub mod statistics_service;
pub mod system_service;
pub mod timeline_service;
pub mod trend_service;

use std::sync::Arc;
use vstd::prelude::*;
use crate::db::clickhouse::ClickHouseClient;
use crate::services::email_service::EmailService;
use crate::services::intelligence_action_service::IntelligenceActionService;
use crate::services::intelligence_service::IntelligenceService;
use crate::services::statistics_service::StatisticsService;
use crate::services::system_service::SystemService;
use crate::services::timeline_service::TimelineService;
use crate::services::trend_service::TrendService;

verus! {

/// Every service, each built over the same connection, if any: all requests
/// see the same connected or offline state.
#[derive(Clone)]
pub struct AppServices {
    pub system: SystemService,
    pub statistics: StatisticsService,
    pub email: EmailService,
    pub intelligence: IntelligenceService,
    pub intelligence_action: IntelligenceActionService,
    pub timeline: TimelineService,
    pub trend: TrendService,
}

impl AppServices {
    /// Builds every service over the connection, if any.
    pub fn new(db_client: Option<Arc<ClickHouseClient>>) -> (r: Self)
        ensures
            r.statistics.db_client is Connected <==> db_client is Some,
            r.email.db_client is Connected <==> db_client is Some,
            r.intelligence.db_client is Connected <==> db_client is Some,
            r.intelligence_action.db_client is Connected <==> db_client is Some,
            r.timeline.db_client is Connected <==> db_client is Some,
            r.trend.db_client is Connected <==> db_client is Some,
    {
        AppServices {
            system: SystemService::new(),
            statistics: StatisticsService::new(db_client.clone()),
            email: EmailService::new(db_client.clone()),
            intelligence: IntelligenceService::new(db_client.clone()),
            intelligence_action: IntelligenceActionService::new(db_client.clone()),
            timeline: TimelineService::new(db_client.clone()),
            trend: TrendService::new(db_client),
        }
    }
}

} // verus!
