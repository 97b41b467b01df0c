//! The listing query model: facet matching, ordering and the page window.
//!
//! A listing is computed in three steps: keep the records that the filter
//! accepts (in their input order), order them by the sort key with a
//! stable insertion, then cut out the requested page. The total count is the
//! number of accepted records, whatever the page.

use vstd::prelude::*;
use crate::models::domain::intelligence::{
    Intelligence, IntelligenceFilter, SortField, SortOrder, TypeFacet,
};

verus! {

/// Page size used when the caller gives none (or zero).
pub const DEFAULT_PAGE_SIZE: usize = 10;

// ---------------------------------------------------------------------------
// Page window
// ---------------------------------------------------------------------------

/// The smaller of two integers.
pub open spec fn min_int(a: int, b: int) -> int {
    if a <= b { a } else { b }
}

/// First index of page `page` (numbered from 1) over `total` records.
pub open spec fn page_start(total: int, page: int, size: int) -> int {
    min_int((page - 1) * size, total)
}

/// One past the last index of page `page` over `total` records.
pub open spec fn page_end(total: int, page: int, size: int) -> int {
    min_int(page * size, total)
}

/// `min(n * size, total)` without overflow.
fn scaled_bound(n: usize, size: usize, total: usize) -> (r: usize)
    requires
        size > 0,
    ensures
        r == min_int(n * size, total as int),
{
    if n > total / size {
        proof {
            assert(n * size > total) by (nonlinear_arith)
                requires
                    n > total / size,
                    size > 0,
            ;
        }
        total
    } else {
        proof {
            assert(n * size <= total) by (nonlinear_arith)
                requires
                    n <= total / size,
                    size > 0,
            ;
        }
        let m = n * size;
        if m < total {
            m
        } else {
            total
        }
    }
}

/// Keeps the records of page `page` (numbered from 1) of size `size`.
pub fn paginate<T>(items: Vec<T>, page: usize, size: usize) -> (r: Vec<T>)
    requires
        page >= 1,
        size > 0,
    ensures
        r@ == items@.subrange(
            page_start(items@.len() as int, page as int, size as int),
            page_end(items@.len() as int, page as int, size as int),
        ),
        r@.len() <= items@.len(),
{
    let total = items.len();
    let lo = scaled_bound(page - 1, size, total);
    let hi = scaled_bound(page, size, total);
    proof {
        assert((page - 1) * size <= page * size) by (nonlinear_arith)
            requires
                page >= 1,
                size > 0,
        ;
    }
    let mut items = items;
    let mut tail = items.split_off(lo);
    tail.truncate(hi - lo);
    proof {
        assert(tail@ =~= items@.subrange(0, 0) + tail@);
    }
    tail
}

// ---------------------------------------------------------------------------
// Facet matching
// ---------------------------------------------------------------------------

/// `needle` occurs in `hay` as a contiguous run.
pub open spec fn contains_seq(hay: Seq<char>, needle: Seq<char>) -> bool {
    exists|i: int|
        0 <= i && i + needle.len() <= hay.len() && #[trigger] hay.subrange(i, i + needle.len())
            == needle
}

/// The latest hit falls in the window, bounds included.
pub open spec fn time_ok(f: IntelligenceFilter, r: Intelligence) -> bool {
    f.start_time <= r.latest_hits_time <= f.end_time
}

/// The source is among the accepted ones.
pub open spec fn source_ok(f: IntelligenceFilter, r: Intelligence) -> bool {
    match f.sources {
        None => true,
        Some(v) => v@.contains(r.source),
    }
}

/// The facet accepts the kind, and the sub-kind where it names any.
pub open spec fn facet_accepts(t: TypeFacet, r: Intelligence) -> bool {
    t.intelligence_type == r.intelligence_type && (t.sub_types@.len() == 0 || exists|j: int|
        0 <= j < t.sub_types@.len() && (#[trigger] t.sub_types@[j])@ == r.sub_type@)
}

/// Some kind facet accepts the record.
pub open spec fn type_ok(f: IntelligenceFilter, r: Intelligence) -> bool {
    match f.intelligence_type {
        None => true,
        Some(v) => exists|i: int| 0 <= i < v@.len() && #[trigger] facet_accepts(v@[i], r),
    }
}

/// No flag asked for hides the record.
pub open spec fn status_ok(f: IntelligenceFilter, r: Intelligence) -> bool {
    &&& !(f.status.ignore_white && r.status.ignore_white)
    &&& !(f.status.ignore_black && r.status.ignore_black)
    &&& !(f.status.ignore_reported && r.status.ignore_reported)
}

/// The value contains the text, where one is given.
pub open spec fn text_ok(f: IntelligenceFilter, r: Intelligence) -> bool {
    match f.filter {
        None => true,
        Some(t) => t@.len() == 0 || contains_seq(r.value@, t@),
    }
}

/// The filter accepts the record: every facet holds (facets combine with
/// AND; the values accepted by one facet combine with OR).
pub open spec fn matches(f: IntelligenceFilter, r: Intelligence) -> bool {
    &&& time_ok(f, r)
    &&& source_ok(f, r)
    &&& type_ok(f, r)
    &&& status_ok(f, r)
    &&& text_ok(f, r)
}

/// Two filters ask for the same records (they may differ in order and page).
pub open spec fn same_criteria(f: IntelligenceFilter, g: IntelligenceFilter) -> bool {
    &&& f.start_time == g.start_time
    &&& f.end_time == g.end_time
    &&& f.sources == g.sources
    &&& f.intelligence_type == g.intelligence_type
    &&& f.status == g.status
    &&& f.filter == g.filter
}

/// The accepted records, in their input order.
pub open spec fn select(s: Seq<Intelligence>, f: IntelligenceFilter) -> Seq<Intelligence>
    decreases s.len(),
{
    if s.len() == 0 {
        Seq::empty()
    } else {
        let rest = select(s.drop_last(), f);
        if matches(f, s.last()) {
            rest.push(s.last())
        } else {
            rest
        }
    }
}

fn text_contains(hay: &str, needle: &str) -> (r: bool)
    ensures
        r == contains_seq(hay@, needle@),
{
    let h = hay.unicode_len();
    let n = needle.unicode_len();
    if n > h {
        assert(!contains_seq(hay@, needle@));
        return false;
    }
    if n == 0 {
        assert(hay@.subrange(0, 0 + needle@.len() as int) =~= needle@);
        return true;
    }
    let mut i: usize = 0;
    while i <= h - n
        invariant
            h == hay@.len(),
            n == needle@.len(),
            1 <= n <= h,
            i <= h - n + 1,
            forall|k: int| 0 <= k < i ==> #[trigger] hay@.subrange(k, k + n) != needle@,
        decreases h - n + 1 - i,
    {
        let mut j: usize = 0;
        let mut same = true;
        while j < n
            invariant
                h == hay@.len(),
                n == needle@.len(),
                i + n <= h,
                j <= n,
                same ==> forall|m: int| 0 <= m < j ==> hay@[i + m] == needle@[m],
                !same ==> hay@.subrange(i as int, i + n) != needle@,
            decreases n - j,
        {
            if same && hay.get_char(i + j) != needle.get_char(j) {
                same = false;
                assert(hay@.subrange(i as int, i + n)[j as int] != needle@[j as int]);
            }
            j += 1;
        }
        if same {
            assert(hay@.subrange(i as int, i + n) =~= needle@);
            return true;
        }
        i += 1;
    }
    proof {
        assert forall|k: int| 0 <= k && k + needle@.len() <= hay@.len() implies
            #[trigger] hay@.subrange(k, k + needle@.len()) != needle@ by {
            assert(k < i);
        }
    }
    false
}

fn source_accepted(f: &IntelligenceFilter, r: &Intelligence) -> (b: bool)
    ensures
        b == source_ok(*f, *r),
{
    match &f.sources {
        None => true,
        Some(v) => {
            let mut i: usize = 0;
            while i < v.len()
                invariant
                    f.sources == Some(*v),
                    i <= v@.len(),
                    forall|k: int| 0 <= k < i ==> v@[k] != r.source,
                decreases v@.len() - i,
            {
                if v[i] == r.source {
                    assert(v@[i as int] == r.source);
                    return true;
                }
                i += 1;
            }
            false
        },
    }
}

fn facet_accepted(t: &TypeFacet, r: &Intelligence) -> (b: bool)
    ensures
        b == facet_accepts(*t, *r),
{
    if t.intelligence_type != r.intelligence_type {
        return false;
    }
    if t.sub_types.len() == 0 {
        return true;
    }
    let mut j: usize = 0;
    while j < t.sub_types.len()
        invariant
            t.intelligence_type == r.intelligence_type,
            t.sub_types@.len() > 0,
            j <= t.sub_types@.len(),
            forall|k: int| 0 <= k < j ==> (#[trigger] t.sub_types@[k])@ != r.sub_type@,
        decreases t.sub_types@.len() - j,
    {
        if t.sub_types[j] == r.sub_type {
            assert(t.sub_types@[j as int]@ == r.sub_type@);
            return true;
        }
        j += 1;
    }
    false
}

fn type_accepted(f: &IntelligenceFilter, r: &Intelligence) -> (b: bool)
    ensures
        b == type_ok(*f, *r),
{
    match &f.intelligence_type {
        None => true,
        Some(v) => {
            let mut i: usize = 0;
            while i < v.len()
                invariant
                    f.intelligence_type == Some(*v),
                    i <= v@.len(),
                    forall|k: int| 0 <= k < i ==> !#[trigger] facet_accepts(v@[k], *r),
                decreases v@.len() - i,
            {
                if facet_accepted(&v[i], r) {
                    assert(f.intelligence_type->Some_0 == *v);
                    assert(facet_accepts(v@[i as int], *r));
                    return true;
                }
                i += 1;
            }
            false
        },
    }
}

/// Whether the filter accepts the record.
pub fn record_matches(f: &IntelligenceFilter, r: &Intelligence) -> (b: bool)
    ensures
        b == matches(*f, *r),
{
    if !(f.start_time <= r.latest_hits_time && r.latest_hits_time <= f.end_time) {
        return false;
    }
    if !source_accepted(f, r) {
        return false;
    }
    if !type_accepted(f, r) {
        return false;
    }
    if (f.status.ignore_white && r.status.ignore_white) || (f.status.ignore_black
        && r.status.ignore_black) || (f.status.ignore_reported && r.status.ignore_reported) {
        return false;
    }
    match &f.filter {
        None => true,
        Some(t) => {
            if t.as_str().unicode_len() == 0 {
                true
            } else {
                text_contains(r.value.as_str(), t.as_str())
            }
        },
    }
}

/// Keeps the records that the filter accepts, in their input order.
pub fn select_matching(records: Vec<Intelligence>, f: &IntelligenceFilter) -> (r: Vec<Intelligence>)
    ensures
        r@ == select(records@, *f),
{
    let ghost orig = records@;
    let n0 = records.len();
    let mut rest = records;
    let mut out: Vec<Intelligence> = Vec::new();
    let mut k: usize = 0;
    while rest.len() > 0
        invariant
            orig.len() == n0,
            k <= orig.len(),
            rest@ == orig.subrange(k as int, orig.len() as int),
            out@ == select(orig.subrange(0, k as int), *f),
        decreases rest@.len(),
    {
        assert(k < orig.len());
        let x = rest.remove(0);
        proof {
            assert(orig.subrange(0, k + 1).drop_last() =~= orig.subrange(0, k as int));
            assert(orig.subrange(0, k + 1).last() == x);
            assert(rest@ =~= orig.subrange(k + 1, orig.len() as int));
        }
        if record_matches(f, &x) {
            out.push(x);
        }
        k += 1;
    }
    proof {
        assert(orig.subrange(0, k as int) =~= orig);
    }
    out
}

// ---------------------------------------------------------------------------
// Ordering
// ---------------------------------------------------------------------------

/// The value that a sort field orders by.
pub open spec fn sort_key(r: Intelligence, field: SortField) -> int {
    match field {
        SortField::LatestHitsTime => r.latest_hits_time as int,
        SortField::HitEmails => r.hit_emails as int,
        SortField::ImpactUsers => r.impact_users as int,
    }
}

/// `a` goes strictly before `b` in the requested order.
pub open spec fn precedes(a: Intelligence, b: Intelligence, field: SortField, order: SortOrder) -> bool {
    match order {
        SortOrder::Asc => sort_key(a, field) < sort_key(b, field),
        SortOrder::Desc => sort_key(a, field) > sort_key(b, field),
    }
}

/// Where a new record goes: before the first one that it strictly precedes,
/// so that records with equal keys keep their arrival order.
pub open spec fn insert_pos(s: Seq<Intelligence>, x: Intelligence, field: SortField, order: SortOrder) -> nat
    decreases s.len(),
{
    if s.len() == 0 {
        0
    } else if precedes(x, s[0], field, order) {
        0
    } else {
        1 + insert_pos(s.drop_first(), x, field, order)
    }
}

/// Stable insertion sort by the key.
pub open spec fn sort_by_key(s: Seq<Intelligence>, field: SortField, order: SortOrder) -> Seq<Intelligence>
    decreases s.len(),
{
    if s.len() == 0 {
        s
    } else {
        let sorted = sort_by_key(s.drop_last(), field, order);
        sorted.insert(insert_pos(sorted, s.last(), field, order) as int, s.last())
    }
}

proof fn lemma_insert_pos(s: Seq<Intelligence>, x: Intelligence, field: SortField, order: SortOrder, j: int)
    requires
        0 <= j <= s.len(),
        forall|k: int| 0 <= k < j ==> !precedes(x, #[trigger] s[k], field, order),
        j == s.len() || precedes(x, s[j], field, order),
    ensures
        insert_pos(s, x, field, order) == j,
    decreases j,
{
    if j > 0 {
        assert(!precedes(x, s[0], field, order));
        assert forall|k: int| 0 <= k < j - 1 implies !precedes(x, #[trigger] s.drop_first()[k], field, order) by {
            assert(s.drop_first()[k] == s[k + 1]);
        }
        if j < s.len() {
            assert(s.drop_first()[j - 1] == s[j]);
        }
        lemma_insert_pos(s.drop_first(), x, field, order, j - 1);
    }
}

proof fn lemma_sort_len(s: Seq<Intelligence>, field: SortField, order: SortOrder)
    ensures
        sort_by_key(s, field, order).len() == s.len(),
    decreases s.len(),
{
    if s.len() > 0 {
        lemma_sort_len(s.drop_last(), field, order);
        lemma_insert_pos_bound(sort_by_key(s.drop_last(), field, order), s.last(), field, order);
    }
}

proof fn lemma_insert_pos_bound(s: Seq<Intelligence>, x: Intelligence, field: SortField, order: SortOrder)
    ensures
        insert_pos(s, x, field, order) <= s.len(),
    decreases s.len(),
{
    if s.len() > 0 {
        lemma_insert_pos_bound(s.drop_first(), x, field, order);
    }
}

/// No record goes strictly before an earlier one.
pub open spec fn sorted_by(s: Seq<Intelligence>, field: SortField, order: SortOrder) -> bool {
    forall|i: int, j: int| 0 <= i < j < s.len() ==> !precedes(#[trigger] s[j], #[trigger] s[i], field, order)
}

proof fn lemma_insert_pos_props(s: Seq<Intelligence>, x: Intelligence, field: SortField, order: SortOrder)
    ensures
        insert_pos(s, x, field, order) <= s.len(),
        forall|k: int| 0 <= k < insert_pos(s, x, field, order) ==> !precedes(x, #[trigger] s[k], field, order),
        insert_pos(s, x, field, order) < s.len() ==> precedes(x, s[insert_pos(s, x, field, order) as int], field, order),
    decreases s.len(),
{
    if s.len() > 0 && !precedes(x, s[0], field, order) {
        let t = s.drop_first();
        lemma_insert_pos_props(t, x, field, order);
        let p = insert_pos(s, x, field, order);
        assert forall|k: int| 0 <= k < p implies !precedes(x, #[trigger] s[k], field, order) by {
            if k > 0 {
                assert(s[k] == t[k - 1]);
            }
        }
        if p < s.len() {
            assert(s[p as int] == t[p - 1]);
        }
    }
}

proof fn lemma_insert_keeps_sorted(s: Seq<Intelligence>, x: Intelligence, field: SortField, order: SortOrder)
    requires
        sorted_by(s, field, order),
    ensures
        sorted_by(s.insert(insert_pos(s, x, field, order) as int, x), field, order),
{
    lemma_insert_pos_props(s, x, field, order);
    let p = insert_pos(s, x, field, order) as int;
    let t = s.insert(p, x);
    assert forall|i: int, j: int| 0 <= i < j < t.len() implies !precedes(#[trigger] t[j], #[trigger] t[i], field, order) by {
        if j < p {
            assert(t[i] == s[i] && t[j] == s[j]);
        } else if j == p {
            assert(t[i] == s[i] && t[j] == x);
        } else if i < p {
            assert(t[i] == s[i] && t[j] == s[j - 1]);
        } else if i == p {
            assert(t[i] == x && t[j] == s[j - 1]);
            if j - 1 > p {
                assert(!precedes(s[j - 1], s[p], field, order));
            }
        } else {
            assert(t[i] == s[i - 1] && t[j] == s[j - 1]);
        }
    }
}

/// The ordering step yields the accepted records in the requested order,
/// each as often as it was accepted.
pub proof fn lemma_sort_orders_and_permutes(s: Seq<Intelligence>, field: SortField, order: SortOrder)
    ensures
        sorted_by(sort_by_key(s, field, order), field, order),
        sort_by_key(s, field, order).to_multiset() == s.to_multiset(),
    decreases s.len(),
{
    if s.len() > 0 {
        let rest = s.drop_last();
        lemma_sort_orders_and_permutes(rest, field, order);
        let sorted = sort_by_key(rest, field, order);
        lemma_insert_pos_props(sorted, s.last(), field, order);
        lemma_insert_keeps_sorted(sorted, s.last(), field, order);
        vstd::seq_lib::to_multiset_insert(sorted, insert_pos(sorted, s.last(), field, order) as int, s.last());
        vstd::seq_lib::to_multiset_build(rest, s.last());
        assert(rest.push(s.last()) =~= s);
    }
}

fn record_precedes(a: &Intelligence, b: &Intelligence, field: SortField, order: SortOrder) -> (r: bool)
    ensures
        r == precedes(*a, *b, field, order),
{
    match (field, order) {
        (SortField::LatestHitsTime, SortOrder::Asc) => a.latest_hits_time < b.latest_hits_time,
        (SortField::LatestHitsTime, SortOrder::Desc) => a.latest_hits_time > b.latest_hits_time,
        (SortField::HitEmails, SortOrder::Asc) => a.hit_emails < b.hit_emails,
        (SortField::HitEmails, SortOrder::Desc) => a.hit_emails > b.hit_emails,
        (SortField::ImpactUsers, SortOrder::Asc) => a.impact_users < b.impact_users,
        (SortField::ImpactUsers, SortOrder::Desc) => a.impact_users > b.impact_users,
    }
}

/// Orders the records by the key, keeping the arrival order of equal keys.
pub fn sort_records(records: Vec<Intelligence>, field: SortField, order: SortOrder) -> (r: Vec<Intelligence>)
    ensures
        r@ == sort_by_key(records@, field, order),
{
    let ghost orig = records@;
    let n0 = records.len();
    let mut rest = records;
    let mut out: Vec<Intelligence> = Vec::new();
    let mut k: usize = 0;
    while rest.len() > 0
        invariant
            orig.len() == n0,
            k <= orig.len(),
            rest@ == orig.subrange(k as int, orig.len() as int),
            out@ == sort_by_key(orig.subrange(0, k as int), field, order),
        decreases rest@.len(),
    {
        assert(k < orig.len());
        let x = rest.remove(0);
        proof {
            assert(orig.subrange(0, k + 1).drop_last() =~= orig.subrange(0, k as int));
            assert(orig.subrange(0, k + 1).last() == x);
            assert(rest@ =~= orig.subrange(k + 1, orig.len() as int));
        }
        let mut j: usize = 0;
        while j < out.len() && !record_precedes(&x, &out[j], field, order)
            invariant
                j <= out@.len(),
                forall|m: int| 0 <= m < j ==> !precedes(x, #[trigger] out@[m], field, order),
            decreases out@.len() - j,
        {
            j += 1;
        }
        proof {
            lemma_insert_pos(out@, x, field, order, j as int);
        }
        out.insert(j, x);
        k += 1;
    }
    proof {
        assert(orig.subrange(0, k as int) =~= orig);
    }
    out
}

// ---------------------------------------------------------------------------
// Listing
// ---------------------------------------------------------------------------

/// The page of accepted, ordered records that the filter asks for.
pub open spec fn listed_page(records: Seq<Intelligence>, f: IntelligenceFilter) -> Seq<Intelligence> {
    let sorted = sort_by_key(select(records, f), f.sort_by, f.sort_order);
    sorted.subrange(
        page_start(sorted.len() as int, f.page as int, f.page_size as int),
        page_end(sorted.len() as int, f.page as int, f.page_size as int),
    )
}

/// The number of records that the filter accepts, over all pages.
pub open spec fn listed_total(records: Seq<Intelligence>, f: IntelligenceFilter) -> nat {
    select(records, f).len()
}

/// Lists `records` under the filter: the total of accepted records and the
/// requested page of them in the requested order.
pub fn list_records(records: Vec<Intelligence>, f: &IntelligenceFilter) -> (r: (u64, Vec<Intelligence>))
    requires
        f.wf(),
    ensures
        r.0 == listed_total(records@, *f),
        r.1@ == listed_page(records@, *f),
        r.1@.len() <= r.0,
{
    let selected = select_matching(records, f);
    let total = selected.len() as u64;
    let sorted = sort_records(selected, f.sort_by, f.sort_order);
    proof {
        lemma_sort_len(select(records@, *f), f.sort_by, f.sort_order);
    }
    let page = paginate(sorted, f.page, f.page_size);
    (total, page)
}

// ---------------------------------------------------------------------------
// Laws
// ---------------------------------------------------------------------------

proof fn lemma_select_same_criteria(s: Seq<Intelligence>, f: IntelligenceFilter, g: IntelligenceFilter)
    requires
        same_criteria(f, g),
    ensures
        select(s, f) == select(s, g),
    decreases s.len(),
{
    if s.len() > 0 {
        lemma_select_same_criteria(s.drop_last(), f, g);
    }
}

/// The total of a listing does not depend on the page asked for, nor on the
/// page size or the order, and no page holds more records than the total.
pub proof fn lemma_total_independent_of_page(records: Seq<Intelligence>, f: IntelligenceFilter, g: IntelligenceFilter)
    requires
        f.wf(),
        g.wf(),
        same_criteria(f, g),
    ensures
        listed_total(records, f) == listed_total(records, g),
        listed_page(records, f).len() <= listed_total(records, f),
{
    assert((f.page - 1) * f.page_size <= f.page * f.page_size) by (nonlinear_arith)
        requires
            f.page >= 1,
            f.page_size > 0,
    ;
    lemma_select_same_criteria(records, f, g);
    lemma_sort_len(select(records, f), f.sort_by, f.sort_order);
}

} // verus!
