//! Listing of intelligence items.

use std::sync::Arc;
use vstd::prelude::*;
use crate::db::clickhouse::{ClickHouseClient, ClientHolder};
use crate::models::domain::intelligence::{
    BasicInfo, IndustryDistribution, Intelligence, IntelligenceFilter, IntelligenceStatus,
    IntelligenceType, SourceType, Urgency,
};
use crate::db::listing::{count_sql, count_statement, list_sql, list_statement, offset_of, where_params};
use crate::db::models::IntelligenceRow;
use crate::db::row::Cell;
use crate::db::statements::Statement;
use crate::query::{list_records, listed_page, listed_total};

verus! {

/// 2024-02-01T00:00:00Z.
pub const FEB_01_2024: i64 = 1_706_745_600_000;

/// 2024-03-01T00:00:00Z.
pub const MAR_01_2024: i64 = 1_709_251_200_000;

/// One hour in milliseconds.
pub const HOUR_MILLIS: i64 = 3_600_000;

/// The fields of a fallback item that listings read.
pub open spec fn item_is(
    r: Intelligence,
    id: u128,
    value: Seq<char>,
    kind: IntelligenceType,
    sub_type: Seq<char>,
    source: SourceType,
    hit_emails: i32,
    impact_users: i32,
    latest_hits_time: int,
    status: IntelligenceStatus,
) -> bool {
    &&& r.id == id
    &&& r.intelligence_id == id
    &&& r.value@ == value
    &&& r.intelligence_type == kind
    &&& r.sub_type@ == sub_type
    &&& r.source == source
    &&& r.hit_emails == hit_emails
    &&& r.impact_users == impact_users
    &&& r.first_found_time == FEB_01_2024
    &&& r.latest_hits_time == latest_hits_time
    &&& r.status == status
}

/// Status flags with the given values.
pub open spec fn flags(white: bool, black: bool, reported: bool) -> IntelligenceStatus {
    IntelligenceStatus { ignore_white: white, ignore_black: black, ignore_reported: reported }
}

/// The fallback set: five items whose latest hits fall between
/// 2024-03-01T01:00Z and 2024-03-02T20:00Z, in this (unsorted) order.
pub open spec fn is_fallback_set(s: Seq<Intelligence>) -> bool {
    &&& s.len() == 5
    &&& item_is(s[0], 3, "mail-invoice.example.net"@, IntelligenceType::Domain, "攻击者注册的域名"@,
        SourceType::Cloud, 7, 4, MAR_01_2024 + 18 * HOUR_MILLIS, flags(false, false, false))
    &&& item_is(s[1], 1, "phish-login.example.com"@, IntelligenceType::Domain, "品牌仿冒域名"@,
        SourceType::Local, 12, 5, MAR_01_2024 + 44 * HOUR_MILLIS, flags(false, true, false))
    &&& item_is(s[2], 5, "https://example.org/update.exe"@, IntelligenceType::Url, "诱导下载"@,
        SourceType::Local, 2, 1, MAR_01_2024 + HOUR_MILLIS, flags(true, false, false))
    &&& item_is(s[3], 2, "support@example-help.com"@, IntelligenceType::Account, "伪造账号"@,
        SourceType::Cloud, 20, 11, MAR_01_2024 + 30 * HOUR_MILLIS, flags(false, false, true))
    &&& item_is(s[4], 4, "d41d8cd98f00b204e9800998ecf8427e"@, IntelligenceType::File, "恶意文件HASH"@,
        SourceType::Local, 3, 3, MAR_01_2024 + 9 * HOUR_MILLIS, flags(false, false, false))
}

fn fallback_item(
    id: u128,
    value: &str,
    kind: IntelligenceType,
    sub_type: &str,
    source: SourceType,
    urgency: Urgency,
    hit_emails: i32,
    impact_users: i32,
    latest_hits_time: i64,
    status: IntelligenceStatus,
) -> (r: Intelligence)
    ensures
        item_is(r, id, value@, kind, sub_type@, source, hit_emails, impact_users, latest_hits_time as int, status),
{
    let mut industries: Vec<IndustryDistribution> = Vec::new();
    industries.push(IndustryDistribution { industry_name: "金融".to_string(), hit_percentage: 60 });
    industries.push(IndustryDistribution { industry_name: "教育".to_string(), hit_percentage: 30 });
    industries.push(IndustryDistribution { industry_name: "政府".to_string(), hit_percentage: 10 });
    Intelligence {
        id,
        intelligence_id: id,
        value: value.to_string(),
        description: "示例情报（离线数据）".to_string(),
        intelligence_type: kind,
        sub_type: sub_type.to_string(),
        source,
        urgency,
        hit_emails,
        impact_users,
        first_found_time: FEB_01_2024,
        latest_hits_time,
        status,
        basic_info: BasicInfo { file_name: None, file_path: None, file_size: None, file_type: None },
        attacked_industry: 3,
        contribution_industry: "安全厂商".to_string(),
        industry_distribution: industries,
    }
}

/// The fixed set of items served when no store query answers.
pub fn fallback_intelligence() -> (r: Vec<Intelligence>)
    ensures
        is_fallback_set(r@),
{
    let mut v: Vec<Intelligence> = Vec::new();
    v.push(fallback_item(3, "mail-invoice.example.net", IntelligenceType::Domain, "攻击者注册的域名",
        SourceType::Cloud, Urgency::Medium, 7, 4, MAR_01_2024 + 18 * HOUR_MILLIS,
        IntelligenceStatus { ignore_white: false, ignore_black: false, ignore_reported: false }));
    v.push(fallback_item(1, "phish-login.example.com", IntelligenceType::Domain, "品牌仿冒域名",
        SourceType::Local, Urgency::High, 12, 5, MAR_01_2024 + 44 * HOUR_MILLIS,
        IntelligenceStatus { ignore_white: false, ignore_black: true, ignore_reported: false }));
    v.push(fallback_item(5, "https://example.org/update.exe", IntelligenceType::Url, "诱导下载",
        SourceType::Local, Urgency::Low, 2, 1, MAR_01_2024 + HOUR_MILLIS,
        IntelligenceStatus { ignore_white: true, ignore_black: false, ignore_reported: false }));
    v.push(fallback_item(2, "support@example-help.com", IntelligenceType::Account, "伪造账号",
        SourceType::Cloud, Urgency::High, 20, 11, MAR_01_2024 + 30 * HOUR_MILLIS,
        IntelligenceStatus { ignore_white: false, ignore_black: false, ignore_reported: true }));
    v.push(fallback_item(4, "d41d8cd98f00b204e9800998ecf8427e", IntelligenceType::File, "恶意文件HASH",
        SourceType::Local, Urgency::Medium, 3, 3, MAR_01_2024 + 9 * HOUR_MILLIS,
        IntelligenceStatus { ignore_white: false, ignore_black: false, ignore_reported: false }));
    v
}

/// The item holds what the listing row says of it.
pub open spec fn describes(r: Intelligence, row: IntelligenceRow) -> bool {
    &&& r.id == row.id
    &&& r.intelligence_id == row.intelligence_id
    &&& r.value == row.value
    &&& r.description == row.description
    &&& r.intelligence_type == row.intelligence_type
    &&& r.sub_type == row.sub_type
    &&& r.source == row.source
    &&& r.urgency == row.urgency
    &&& r.hit_emails == row.hit_emails
    &&& r.impact_users == row.impact_users
    &&& r.first_found_time == row.first_found_time
    &&& r.latest_hits_time == row.latest_hits_time
    &&& r.status.ignore_white == (row.is_white != 0)
    &&& r.status.ignore_black == (row.is_black != 0)
    &&& r.status.ignore_reported == (row.is_reported != 0)
    &&& r.basic_info.file_name is None && r.basic_info.file_path is None
    &&& r.attacked_industry == row.attacked_industry
    &&& r.contribution_industry == row.contribution_industry
    &&& r.industry_distribution@.len() == 0
}

/// The item that a listing row describes. File details and the industry
/// distribution are not part of the listing.
pub fn intelligence_from_row(row: IntelligenceRow) -> (r: Intelligence)
    ensures
        describes(r, row),
{
    Intelligence {
        id: row.id,
        intelligence_id: row.intelligence_id,
        value: row.value,
        description: row.description,
        intelligence_type: row.intelligence_type,
        sub_type: row.sub_type,
        source: row.source,
        urgency: row.urgency,
        hit_emails: row.hit_emails,
        impact_users: row.impact_users,
        first_found_time: row.first_found_time,
        latest_hits_time: row.latest_hits_time,
        status: IntelligenceStatus {
            ignore_white: row.is_white != 0,
            ignore_black: row.is_black != 0,
            ignore_reported: row.is_reported != 0,
        },
        basic_info: BasicInfo { file_name: None, file_path: None, file_size: None, file_type: None },
        attacked_industry: row.attacked_industry,
        contribution_industry: row.contribution_industry,
        industry_distribution: Vec::new(),
    }
}

/// The answer of a store listing: the counted total and the items of the
/// fetched rows, in the order the store returned them.
pub fn listing_from_rows(total: u64, rows: Vec<IntelligenceRow>) -> (r: (u64, Vec<Intelligence>))
    ensures
        r.0 == total,
        r.1@.len() == rows@.len(),
        forall|i: int| 0 <= i < rows@.len() ==> describes(#[trigger] r.1@[i], rows@[i]),
{
    let ghost orig = rows@;
    let n0 = rows.len();
    let mut rest = rows;
    let mut out: Vec<Intelligence> = Vec::new();
    let mut k: usize = 0;
    while rest.len() > 0
        invariant
            orig.len() == n0,
            k <= n0,
            rest@ == orig.subrange(k as int, n0 as int),
            out@.len() == k,
            forall|i: int| 0 <= i < k ==> describes(#[trigger] out@[i], orig[i]),
        decreases rest@.len(),
    {
        assert(k < n0);
        let row = rest.remove(0);
        assert(row == orig[k as int]);
        assert(rest@ =~= orig.subrange(k + 1, n0 as int));
        out.push(intelligence_from_row(row));
        k += 1;
    }
    (total, out)
}

/// How a listing is answered: by statements for the store to run (the
/// total from `count`, the rows of the page from `page`, read with the
/// listing row descriptor), or directly from the fallback data.
#[derive(Debug)]
pub enum ListPlan {
    Query { page: Statement, count: Statement },
    Fallback { total: u64, items: Vec<Intelligence> },
}

/// Intelligence listing service.
#[derive(Clone)]
pub struct IntelligenceService {
    pub db_client: ClientHolder,
}

impl IntelligenceService {
    /// A service over the connection, if any.
    pub fn new(db_client: Option<Arc<ClickHouseClient>>) -> (r: Self)
        ensures
            r.db_client == ClientHolder::of_slot(db_client),
    {
        IntelligenceService { db_client: ClientHolder::from_slot(db_client) }
    }

    /// Lists intelligence items from the fallback set: the number of items
    /// that the filter accepts and the requested page of them, in the
    /// requested order. This is the degraded-mode answer; it never fails.
    pub fn list_intelligence(&self, filter: &IntelligenceFilter) -> (r: (u64, Vec<Intelligence>))
        requires
            filter.wf(),
        ensures
            exists|fb: Seq<Intelligence>|
                is_fallback_set(fb) && r.0 == listed_total(fb, *filter) && r.1@ == listed_page(
                    fb,
                    *filter,
                ),
            r.1@.len() <= r.0,
    {
        let records = fallback_intelligence();
        let ghost fb = records@;
        let r = list_records(records, filter);
        assert(is_fallback_set(fb) && r.0 == listed_total(fb, *filter) && r.1@ == listed_page(fb, *filter));
        r
    }

    /// Plans a listing: with a connection, the page and count statements
    /// built from the filter; offline, the fallback answer.
    pub fn plan_list(&self, filter: &IntelligenceFilter) -> (r: ListPlan)
        requires
            filter.wf(),
        ensures
            self.db_client is Connected ==> (r matches ListPlan::Query { page, count } && page.sql@
                == list_sql(*filter) && page.params@ == where_params(*filter) + seq![
                Cell::UInt64(filter.page_size as u64),
                Cell::UInt64(offset_of(filter.page as int, filter.page_size as int)),
            ] && count.sql@ == count_sql(*filter) && count.params@ == where_params(*filter)),
            self.db_client is Offline ==> (r matches ListPlan::Fallback { total, items } && items@.len()
                <= total && exists|fb: Seq<Intelligence>|
                is_fallback_set(fb) && total == listed_total(fb, *filter) && items@ == listed_page(
                    fb,
                    *filter,
                )),
    {
        if self.db_client.is_connected() {
            ListPlan::Query { page: list_statement(filter), count: count_statement(filter) }
        } else {
            let (total, items) = self.list_intelligence(filter);
            ListPlan::Fallback { total, items }
        }
    }
}

} // verus!
