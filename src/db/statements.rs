//! The parameterized statements that carry out disposition writes.
//!
//! Each statement has `?` placeholders, bound in order to its parameters;
//! UUID parameters are bound through `toUUID`.

use vstd::prelude::*;
use crate::db::listing::{join_names, joined, marks, marks_text};
use crate::db::row::{Cell, Row};
use crate::models::domain::intelligence_action::{ListKind, StoreAction};

verus! {

/// A statement text and the values of its placeholders, in order.
#[derive(Debug, Clone)]
pub struct Statement {
    pub sql: String,
    pub params: Vec<Cell>,
}

pub const UPSERT_DISPOSITION: &'static str = "INSERT INTO intelligence_disposition (intelligence_id, list, value) VALUES (toUUID(?), ?, ?)";

pub const RELEASE_QUARANTINED: &'static str = "ALTER TABLE data_mail_info UPDATE action = 1 WHERE action = 4 AND id IN (SELECT mail_id FROM alert_intelligence WHERE intelligence_id = toUUID(?))";

pub const QUARANTINE_RELATED: &'static str = "ALTER TABLE data_mail_info UPDATE action = 4 WHERE id IN (SELECT mail_id FROM alert_intelligence WHERE intelligence_id = toUUID(?))";

pub const RECORD_FALSE_POSITIVE: &'static str = "INSERT INTO false_positive_report (log_id, intelligence_id, reason, provide_sample_email) VALUES (toUUID(?), toUUID(?), ?, ?)";

pub const RECORD_SAMPLE_OFFER: &'static str = "INSERT INTO sample_offer (log_id, intelligence_id) VALUES (toUUID(?), toUUID(?))";

/// The stored name of a list.
pub open spec fn list_name(l: ListKind) -> Seq<char> {
    match l {
        ListKind::Allow => "allow"@,
        ListKind::Deny => "deny"@,
    }
}

/// The statement text of a write.
pub open spec fn action_sql(a: StoreAction) -> Seq<char> {
    match a {
        StoreAction::UpsertDisposition { .. } => UPSERT_DISPOSITION@,
        StoreAction::ReleaseQuarantined { .. } => RELEASE_QUARANTINED@,
        StoreAction::QuarantineRelated { .. } => QUARANTINE_RELATED@,
        StoreAction::RecordFalsePositive { .. } => RECORD_FALSE_POSITIVE@,
        StoreAction::RecordSampleOffer { .. } => RECORD_SAMPLE_OFFER@,
    }
}

/// The parameters of a write, as far as they hold no text.
pub open spec fn params_fit(a: StoreAction, p: Seq<Cell>) -> bool {
    match a {
        StoreAction::UpsertDisposition { intelligence_id, list, value } => {
            &&& p.len() == 3
            &&& p[0] == Cell::Uuid(intelligence_id)
            &&& p[1] is Text && p[1]->Text_0@ == list_name(list)
            &&& p[2] is Text && p[2]->Text_0@ == value@
        },
        StoreAction::ReleaseQuarantined { intelligence_id } => p.len() == 1 && p[0] == Cell::Uuid(intelligence_id),
        StoreAction::QuarantineRelated { intelligence_id } => p.len() == 1 && p[0] == Cell::Uuid(intelligence_id),
        StoreAction::RecordFalsePositive { log_id, intelligence_id, reason, provide_sample_email } => {
            &&& p.len() == 4
            &&& p[0] == Cell::Uuid(log_id)
            &&& p[1] == Cell::Uuid(intelligence_id)
            &&& p[2] is Text && p[2]->Text_0@ == reason@
            &&& p[3] == Cell::UInt8(if provide_sample_email { 1u8 } else { 0u8 })
        },
        StoreAction::RecordSampleOffer { log_id, intelligence_id } => {
            &&& p.len() == 2
            &&& p[0] == Cell::Uuid(log_id)
            &&& p[1] == Cell::Uuid(intelligence_id)
        },
    }
}

impl StoreAction {
    /// The statement that performs the write. Keyed tables make a repeated
    /// write leave the same rows.
    pub fn statement(&self) -> (r: Statement)
        ensures
            r.sql@ == action_sql(*self),
            params_fit(*self, r.params@),
    {
        let mut params: Vec<Cell> = Vec::new();
        match self {
            StoreAction::UpsertDisposition { intelligence_id, list, value } => {
                params.push(Cell::Uuid(*intelligence_id));
                let name = match list {
                    ListKind::Allow => "allow",
                    ListKind::Deny => "deny",
                };
                params.push(Cell::Text(name.to_string()));
                params.push(Cell::Text(value.clone()));
                Statement { sql: UPSERT_DISPOSITION.to_string(), params }
            },
            StoreAction::ReleaseQuarantined { intelligence_id } => {
                params.push(Cell::Uuid(*intelligence_id));
                Statement { sql: RELEASE_QUARANTINED.to_string(), params }
            },
            StoreAction::QuarantineRelated { intelligence_id } => {
                params.push(Cell::Uuid(*intelligence_id));
                Statement { sql: QUARANTINE_RELATED.to_string(), params }
            },
            StoreAction::RecordFalsePositive { log_id, intelligence_id, reason, provide_sample_email } => {
                params.push(Cell::Uuid(*log_id));
                params.push(Cell::Uuid(*intelligence_id));
                params.push(Cell::Text(reason.clone()));
                params.push(Cell::UInt8(if *provide_sample_email { 1 } else { 0 }));
                Statement { sql: RECORD_FALSE_POSITIVE.to_string(), params }
            },
            StoreAction::RecordSampleOffer { log_id, intelligence_id } => {
                params.push(Cell::Uuid(*log_id));
                params.push(Cell::Uuid(*intelligence_id));
                Statement { sql: RECORD_SAMPLE_OFFER.to_string(), params }
            },
        }
    }
}

/// The value tuples of an insert of `rows` rows of `cols` columns.
pub open spec fn value_tuples(rows: nat, cols: nat) -> Seq<char>
    decreases rows,
{
    if rows <= 1 {
        "("@ + marks(cols) + ")"@
    } else {
        value_tuples((rows - 1) as nat, cols) + ", ("@ + marks(cols) + ")"@
    }
}

/// The text of an insert of `rows` records of type `R` into `table`.
pub open spec fn insert_sql<R: Row>(table: Seq<char>, rows: nat) -> Seq<char> {
    "INSERT INTO "@ + table + " ("@ + joined(R::column_names_spec()) + ") VALUES "@ + value_tuples(
        rows,
        R::column_names_spec().len(),
    )
}

/// The cells of records, record after record, each in column order.
pub open spec fn all_cells<R: Row>(records: Seq<R>) -> Seq<Cell>
    decreases records.len(),
{
    if records.len() == 0 {
        Seq::empty()
    } else {
        all_cells(records.drop_last()) + records.last().to_cells()
    }
}

/// The statement that writes `records` into `table` in the column order of
/// their row descriptor; `None` when there is nothing to write. The store
/// may apply a failed insert in part: callers cannot know which records were
/// written.
pub fn insert_statement<R: Row>(table: &str, records: &Vec<R>) -> (r: Option<Statement>)
    requires
        R::column_names_spec().len() >= 1,
    ensures
        r is None <==> records@.len() == 0,
        r matches Some(s) ==> s.sql@ == insert_sql::<R>(table@, records@.len()) && s.params@ == all_cells(
            records@,
        ),
{
    if records.len() == 0 {
        return None;
    }
    let names = R::column_names();
    let cols = join_names(&names, Ghost(R::column_names_spec()));
    let marks_one = marks_text(names.len());
    let mut sql = "INSERT INTO ".to_string();
    sql.append(table);
    sql.append(" (");
    sql.append(cols.as_str());
    sql.append(") VALUES ");
    let ghost head = sql@;
    let mut tuples = String::new();
    let mut params: Vec<Cell> = Vec::new();
    let mut i: usize = 0;
    while i < records.len()
        invariant
            names@.len() == R::column_names_spec().len(),
            marks_one@ == marks(names@.len() as nat),
            i <= records@.len(),
            i == 0 ==> tuples@.len() == 0,
            i > 0 ==> tuples@ == value_tuples(i as nat, names@.len() as nat),
            params@ == all_cells(records@.subrange(0, i as int)),
        decreases records@.len() - i,
    {
        let ghost next = records@.subrange(0, i + 1);
        assert(next.drop_last() =~= records@.subrange(0, i as int));
        assert(next.last() == records@[i as int]);
        if i > 0 {
            tuples.append(", (");
        } else {
            tuples.append("(");
            assert(tuples@ =~= "("@);
        }
        tuples.append(marks_one.as_str());
        tuples.append(")");
        let mut cells = records[i].encode();
        params.append(&mut cells);
        i += 1;
    }
    assert(records@.subrange(0, i as int) =~= records@);
    sql.append(tuples.as_str());
    Some(Statement { sql, params })
}

} // verus!
