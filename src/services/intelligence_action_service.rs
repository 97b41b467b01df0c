//! Disposition actions: allow-list, deny-list, false-positive reports.
//!
//! With a connection, an action yields the plan of keyed writes that the
//! store must perform; the caller runs it. Without one, the action succeeds
//! with an empty plan and nothing changes.

use std::sync::Arc;
use vstd::prelude::*;
use crate::db::clickhouse::{ClickHouseClient, ClientHolder};
use crate::models::domain::intelligence_action::{
    apply_action, apply_plan, DispositionState, ListKind, StoreAction,
};

verus! {

/// The plan of an allow-list action.
pub open spec fn is_whitelist_plan(p: Seq<StoreAction>, id: u128, value: Seq<char>, release: bool) -> bool {
    &&& p.len() == (if release { 2int } else { 1int })
    &&& (p[0] matches StoreAction::UpsertDisposition { intelligence_id, list, value: v }
        && intelligence_id == id && list == ListKind::Allow && v@ == value)
    &&& release ==> p[1] == StoreAction::ReleaseQuarantined { intelligence_id: id }
}

/// The plan of a deny-list action: list the item, quarantine its emails.
pub open spec fn is_blacklist_plan(p: Seq<StoreAction>, id: u128, value: Seq<char>) -> bool {
    &&& p.len() == 2
    &&& (p[0] matches StoreAction::UpsertDisposition { intelligence_id, list, value: v }
        && intelligence_id == id && list == ListKind::Deny && v@ == value)
    &&& p[1] == StoreAction::QuarantineRelated { intelligence_id: id }
}

/// The plan of a false-positive report.
pub open spec fn is_report_plan(p: Seq<StoreAction>, log_id: u128, id: u128, reason: Seq<char>, sample: bool) -> bool {
    &&& p.len() == (if sample { 2int } else { 1int })
    &&& (p[0] matches StoreAction::RecordFalsePositive {
        log_id: l,
        intelligence_id,
        reason: r,
        provide_sample_email,
    } && l == log_id && intelligence_id == id && r@ == reason && provide_sample_email == sample)
    &&& sample ==> p[1] == StoreAction::RecordSampleOffer { log_id, intelligence_id: id }
}

/// Intelligence action service.
#[derive(Clone)]
pub struct IntelligenceActionService {
    pub db_client: ClientHolder,
}

impl IntelligenceActionService {
    /// A service over the connection, if any.
    pub fn new(db_client: Option<Arc<ClickHouseClient>>) -> (r: Self)
        ensures
            r.db_client == ClientHolder::of_slot(db_client),
    {
        IntelligenceActionService { db_client: ClientHolder::from_slot(db_client) }
    }

    /// Puts an item on the allow-list, releasing its quarantined emails when
    /// asked. Returns the writes to perform; none when offline.
    pub fn add_to_whitelist(&self, intelligence_id: u128, value: String, release_quarantine: bool) -> (r: Vec<StoreAction>)
        ensures
            self.db_client is Offline ==> r@.len() == 0,
            self.db_client is Connected ==> is_whitelist_plan(r@, intelligence_id, value@, release_quarantine),
    {
        let mut plan: Vec<StoreAction> = Vec::new();
        if self.db_client.is_connected() {
            plan.push(StoreAction::UpsertDisposition { intelligence_id, list: ListKind::Allow, value });
            if release_quarantine {
                plan.push(StoreAction::ReleaseQuarantined { intelligence_id });
            }
        }
        plan
    }

    /// Puts an item on the deny-list and quarantines the emails it caught.
    /// Returns the writes to perform; none when offline.
    pub fn add_to_blacklist(&self, intelligence_id: u128, value: String) -> (r: Vec<StoreAction>)
        ensures
            self.db_client is Offline ==> r@.len() == 0,
            self.db_client is Connected ==> is_blacklist_plan(r@, intelligence_id, value@),
    {
        let mut plan: Vec<StoreAction> = Vec::new();
        if self.db_client.is_connected() {
            plan.push(StoreAction::UpsertDisposition { intelligence_id, list: ListKind::Deny, value });
            plan.push(StoreAction::QuarantineRelated { intelligence_id });
        }
        plan
    }

    /// Reports a hit of an item as a false positive, recording the offer of
    /// a sample email when made. Returns the writes to perform; none when
    /// offline.
    pub fn report_false_positive(&self, log_id: u128, intelligence_id: u128, reason: String, provide_sample_email: bool) -> (r: Vec<StoreAction>)
        ensures
            self.db_client is Offline ==> r@.len() == 0,
            self.db_client is Connected ==> is_report_plan(r@, log_id, intelligence_id, reason@, provide_sample_email),
    {
        let mut plan: Vec<StoreAction> = Vec::new();
        if self.db_client.is_connected() {
            plan.push(StoreAction::RecordFalsePositive { log_id, intelligence_id, reason, provide_sample_email });
            if provide_sample_email {
                plan.push(StoreAction::RecordSampleOffer { log_id, intelligence_id });
            }
        }
        plan
    }
}

proof fn lemma_plan_of_two(s: DispositionState, p: Seq<StoreAction>)
    requires
        p.len() == 2,
    ensures
        apply_plan(s, p) == apply_action(apply_action(s, p[0]), p[1]),
{
    reveal_with_fuel(apply_plan, 3);
    assert(p.drop_last().drop_last() =~= Seq::<StoreAction>::empty());
    assert(p.drop_last().last() == p[0]);
}

proof fn lemma_plan_of_one(s: DispositionState, p: Seq<StoreAction>)
    requires
        p.len() == 1,
    ensures
        apply_plan(s, p) == apply_action(s, p[0]),
{
    reveal_with_fuel(apply_plan, 2);
    assert(p.drop_last() =~= Seq::<StoreAction>::empty());
}

/// Deny-listing an item twice with the same value leaves the store as
/// deny-listing it once: the same list entry and the same quarantine.
pub proof fn lemma_blacklist_idempotent(s: DispositionState, p: Seq<StoreAction>, id: u128, value: Seq<char>)
    requires
        is_blacklist_plan(p, id, value),
    ensures
        apply_plan(apply_plan(s, p), p) == apply_plan(s, p),
{
    let once = apply_plan(s, p);
    lemma_plan_of_two(s, p);
    lemma_plan_of_two(once, p);
    let twice = apply_plan(once, p);
    assert(twice.lists =~= once.lists);
    assert(twice.quarantined =~= once.quarantined);
    assert(twice.reports =~= once.reports);
    assert(twice.sample_offers =~= once.sample_offers);
}

/// Allow-listing an item twice with the same arguments leaves the store as
/// allow-listing it once.
pub proof fn lemma_whitelist_idempotent(s: DispositionState, p: Seq<StoreAction>, id: u128, value: Seq<char>, release: bool)
    requires
        is_whitelist_plan(p, id, value, release),
    ensures
        apply_plan(apply_plan(s, p), p) == apply_plan(s, p),
{
    let once = apply_plan(s, p);
    if release {
        lemma_plan_of_two(s, p);
        lemma_plan_of_two(once, p);
    } else {
        lemma_plan_of_one(s, p);
        lemma_plan_of_one(once, p);
    }
    let twice = apply_plan(once, p);
    assert(twice.lists =~= once.lists);
    assert(twice.quarantined =~= once.quarantined);
    assert(twice.reports =~= once.reports);
    assert(twice.sample_offers =~= once.sample_offers);
}

/// Reporting the same hit twice with the same arguments leaves the store as
/// reporting it once.
pub proof fn lemma_report_idempotent(s: DispositionState, p: Seq<StoreAction>, log_id: u128, id: u128, reason: Seq<char>, sample: bool)
    requires
        is_report_plan(p, log_id, id, reason, sample),
    ensures
        apply_plan(apply_plan(s, p), p) == apply_plan(s, p),
{
    let once = apply_plan(s, p);
    if sample {
        lemma_plan_of_two(s, p);
        lemma_plan_of_two(once, p);
    } else {
        lemma_plan_of_one(s, p);
        lemma_plan_of_one(once, p);
    }
    let twice = apply_plan(once, p);
    assert(twice.lists =~= once.lists);
    assert(twice.quarantined =~= once.quarantined);
    assert(twice.reports =~= once.reports);
    assert(twice.sample_offers =~= once.sample_offers);
}

} // verus!
