//! Disposition actions on intelligence items, and the store state they act
//! on.

use vstd::prelude::*;

verus! {

/// Adds an item to the allow-list.
#[derive(Debug, Clone)]
pub struct WhitelistAction {
    pub intelligence_id: u128,
    pub value: String,
    /// Also release the quarantined emails that the item caught.
    pub release_quarantine: bool,
}

/// Adds an item to the deny-list.
#[derive(Debug, Clone)]
pub struct BlacklistAction {
    pub intelligence_id: u128,
    pub value: String,
}

/// Reports a hit of an item as a false positive.
#[derive(Debug, Clone)]
pub struct ReportAction {
    /// The log entry of the hit.
    pub id: u128,
    pub intelligence_id: u128,
    pub reason: String,
    /// The reporter offers the email as a sample.
    pub provide_sample_email: bool,
}

/// The list an item is put on.
#[derive(Debug, Clone, Copy, PartialEq, Eq, Structural)]
pub enum ListKind {
    Allow,
    Deny,
}

/// One write that a disposition asks of the store. Each is keyed, so that
/// doing it again leaves the store as it was after the first time.
#[derive(Debug, Clone)]
pub enum StoreAction {
    /// Puts the item on a list with its value, replacing any earlier entry.
    UpsertDisposition { intelligence_id: u128, list: ListKind, value: String },
    /// Releases the quarantined emails that the item caught.
    ReleaseQuarantined { intelligence_id: u128 },
    /// Quarantines the emails that the item caught.
    QuarantineRelated { intelligence_id: u128 },
    /// Records a false-positive report of a hit, replacing an earlier report
    /// of the same hit.
    RecordFalsePositive { log_id: u128, intelligence_id: u128, reason: String, provide_sample_email: bool },
    /// Records that the reporter of a hit offers the email as a sample.
    RecordSampleOffer { log_id: u128, intelligence_id: u128 },
}

/// A list entry of the store model.
pub struct Disposition {
    pub list: ListKind,
    pub value: Seq<char>,
}

/// A false-positive report of the store model.
pub struct FalsePositive {
    pub reason: Seq<char>,
    pub provide_sample_email: bool,
}

/// What the disposition tables of the store hold.
pub struct DispositionState {
    pub lists: Map<u128, Disposition>,
    pub quarantined: Set<u128>,
    pub reports: Map<(u128, u128), FalsePositive>,
    pub sample_offers: Set<(u128, u128)>,
}

/// The store after one write.
pub open spec fn apply_action(s: DispositionState, a: StoreAction) -> DispositionState {
    match a {
        StoreAction::UpsertDisposition { intelligence_id, list, value } => DispositionState {
            lists: s.lists.insert(intelligence_id, Disposition { list, value: value@ }),
            ..s
        },
        StoreAction::ReleaseQuarantined { intelligence_id } => DispositionState {
            quarantined: s.quarantined.remove(intelligence_id),
            ..s
        },
        StoreAction::QuarantineRelated { intelligence_id } => DispositionState {
            quarantined: s.quarantined.insert(intelligence_id),
            ..s
        },
        StoreAction::RecordFalsePositive { log_id, intelligence_id, reason, provide_sample_email } =>
            DispositionState {
            reports: s.reports.insert(
                (log_id, intelligence_id),
                FalsePositive { reason: reason@, provide_sample_email },
            ),
            ..s
        },
        StoreAction::RecordSampleOffer { log_id, intelligence_id } => DispositionState {
            sample_offers: s.sample_offers.insert((log_id, intelligence_id)),
            ..s
        },
    }
}

/// The store after the writes of a plan, in order.
pub open spec fn apply_plan(s: DispositionState, p: Seq<StoreAction>) -> DispositionState
    decreases p.len(),
{
    if p.len() == 0 {
        s
    } else {
        apply_action(apply_plan(s, p.drop_last()), p.last())
    }
}

/// What a later lookup of an item sees of its disposition: whether it is on
/// the allow-list, on the deny-list, and whether any hit of it was reported.
pub open spec fn observed_list(s: DispositionState, intelligence_id: u128) -> Option<Disposition> {
    if s.lists.contains_key(intelligence_id) {
        Some(s.lists[intelligence_id])
    } else {
        None
    }
}

} // verus!
