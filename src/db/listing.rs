//! The parameterized statements of the intelligence listing.
//!
//! The time window becomes bounds on the latest hit time, each facet an
//! `IN` predicate (facets joined with `AND`, the sub-kinds of one kind with
//! `OR`), the text a substring predicate, the sort an `ORDER BY`, and the
//! page a `LIMIT`/`OFFSET`. The count statement has the same predicate and
//! no page. The selected columns are those of the listing row descriptor,
//! in its order.

use vstd::prelude::*;
use crate::db::models::IntelligenceRow;
use crate::db::row::{Cell, Row};
use crate::db::statements::Statement;
use crate::models::domain::intelligence::{
    IntelligenceFilter, IntelligenceStatus, SortField, SortOrder, SourceType, TypeFacet,
};
use vstd::string::StringExecFns;

verus! {

/// `n` placeholders separated by commas.
pub open spec fn marks(n: nat) -> Seq<char>
    decreases n,
{
    if n <= 1 {
        "?"@
    } else {
        marks((n - 1) as nat) + ", ?"@
    }
}

/// Names joined with commas.
pub open spec fn joined(s: Seq<Seq<char>>) -> Seq<char>
    decreases s.len(),
{
    if s.len() == 0 {
        Seq::empty()
    } else if s.len() == 1 {
        s[0]
    } else {
        joined(s.drop_last()) + ", "@ + s.last()
    }
}

/// A predicate that no row satisfies: an empty set of accepted values.
pub const NOTHING: &'static str = " AND 0 = 1";

pub const TIME_WINDOW: &'static str = "latest_hits_time >= fromUnixTimestamp64Milli(?) AND latest_hits_time <= fromUnixTimestamp64Milli(?)";

pub const LISTING_SOURCE: &'static str = " FROM intelligence_list WHERE ";

/// The source facet predicate.
pub open spec fn source_sql(sources: Option<Vec<SourceType>>) -> Seq<char> {
    match sources {
        None => Seq::empty(),
        Some(v) => if v@.len() == 0 {
            NOTHING@
        } else {
            " AND source IN ("@ + marks(v@.len()) + ")"@
        },
    }
}

/// The predicate of one kind facet.
pub open spec fn facet_sql(t: TypeFacet) -> Seq<char> {
    if t.sub_types@.len() == 0 {
        "(intelligence_type = ?)"@
    } else {
        "(intelligence_type = ? AND sub_type IN ("@ + marks(t.sub_types@.len()) + "))"@
    }
}

/// The kind facets joined with `OR`.
pub open spec fn facets_sql(v: Seq<TypeFacet>) -> Seq<char>
    decreases v.len(),
{
    if v.len() <= 1 {
        if v.len() == 0 { Seq::empty() } else { facet_sql(v[0]) }
    } else {
        facets_sql(v.drop_last()) + " OR "@ + facet_sql(v.last())
    }
}

/// The kind facet predicate.
pub open spec fn type_sql(facets: Option<Vec<TypeFacet>>) -> Seq<char> {
    match facets {
        None => Seq::empty(),
        Some(v) => if v@.len() == 0 {
            NOTHING@
        } else {
            " AND ("@ + facets_sql(v@) + ")"@
        },
    }
}

/// The status flag predicates.
pub open spec fn status_sql(s: IntelligenceStatus) -> Seq<char> {
    (if s.ignore_white { " AND is_white = 0"@ } else { Seq::empty() })
        + (if s.ignore_black { " AND is_black = 0"@ } else { Seq::empty() })
        + (if s.ignore_reported { " AND is_reported = 0"@ } else { Seq::empty() })
}

/// The substring predicate.
pub open spec fn text_sql(t: Option<String>) -> Seq<char> {
    match t {
        Some(s) => if s@.len() > 0 { " AND positionUTF8(value, ?) > 0"@ } else { Seq::empty() },
        None => Seq::empty(),
    }
}

/// The predicate of a filter.
pub open spec fn where_sql(f: IntelligenceFilter) -> Seq<char> {
    TIME_WINDOW@ + source_sql(f.sources) + type_sql(f.intelligence_type) + status_sql(f.status)
        + text_sql(f.filter)
}

/// The ordering clause.
pub open spec fn order_sql(field: SortField, order: SortOrder) -> Seq<char> {
    " ORDER BY "@ + (match field {
        SortField::LatestHitsTime => "latest_hits_time"@,
        SortField::HitEmails => "hit_emails"@,
        SortField::ImpactUsers => "impact_users"@,
    }) + (match order {
        SortOrder::Asc => " ASC"@,
        SortOrder::Desc => " DESC"@,
    })
}

/// The text of the page statement.
pub open spec fn list_sql(f: IntelligenceFilter) -> Seq<char> {
    "SELECT "@ + joined(IntelligenceRow::column_names_spec()) + LISTING_SOURCE@ + where_sql(f)
        + order_sql(f.sort_by, f.sort_order) + " LIMIT ? OFFSET ?"@
}

/// The text of the count statement.
pub open spec fn count_sql(f: IntelligenceFilter) -> Seq<char> {
    "SELECT count()"@ + LISTING_SOURCE@ + where_sql(f)
}

/// The placeholder values of one kind facet.
pub open spec fn facet_params(t: TypeFacet) -> Seq<Cell> {
    seq![Cell::UInt8(t.intelligence_type.code_spec())] + t.sub_types@.map_values(|s: String| Cell::Text(s))
}

/// The placeholder values of the kind facets, in order.
pub open spec fn facets_params(v: Seq<TypeFacet>) -> Seq<Cell>
    decreases v.len(),
{
    if v.len() == 0 {
        Seq::empty()
    } else {
        facets_params(v.drop_last()) + facet_params(v.last())
    }
}

/// The values of the placeholders of the predicate, in order.
pub open spec fn where_params(f: IntelligenceFilter) -> Seq<Cell> {
    seq![Cell::DateTime(f.start_time), Cell::DateTime(f.end_time)] + (match f.sources {
        Some(v) => v@.map_values(|s: SourceType| Cell::UInt8(s.code_spec())),
        None => Seq::empty(),
    }) + (match f.intelligence_type {
        Some(v) => facets_params(v@),
        None => Seq::empty(),
    }) + (match f.filter {
        Some(t) => if t@.len() > 0 { seq![Cell::Text(t)] } else { Seq::empty() },
        None => Seq::empty(),
    })
}

/// Rows skipped before a page: `(page - 1) * size`, capped at `u64::MAX`.
pub open spec fn offset_of(page: int, size: int) -> u64 {
    if (page - 1) * size > u64::MAX { u64::MAX } else { ((page - 1) * size) as u64 }
}

/// `n` placeholders separated by commas.
pub fn marks_text(n: usize) -> (r: String)
    requires
        n >= 1,
    ensures
        r@ == marks(n as nat),
{
    let mut s = "?".to_string();
    let mut i: usize = 1;
    while i < n
        invariant
            1 <= i <= n,
            s@ == marks(i as nat),
        decreases n - i,
    {
        s.append(", ?");
        i += 1;
    }
    s
}

/// Names joined with commas.
pub fn join_names(names: &Vec<&'static str>, spec_names: Ghost<Seq<Seq<char>>>) -> (r: String)
    requires
        names@.len() == spec_names@.len(),
        forall|i: int| 0 <= i < names@.len() ==> (#[trigger] names@[i])@ == spec_names@[i],
    ensures
        r@ == joined(spec_names@),
{
    let mut s = String::new();
    let mut i: usize = 0;
    while i < names.len()
        invariant
            names@.len() == spec_names@.len(),
            forall|k: int| 0 <= k < names@.len() ==> (#[trigger] names@[k])@ == spec_names@[k],
            i <= names@.len(),
            s@ == joined(spec_names@.subrange(0, i as int)),
        decreases names@.len() - i,
    {
        let ghost prev = spec_names@.subrange(0, i as int);
        let ghost next = spec_names@.subrange(0, i + 1);
        assert(next.drop_last() =~= prev);
        if i > 0 {
            s.append(", ");
        } else {
            assert(s@ =~= Seq::<char>::empty());
        }
        s.append(names[i]);
        proof {
            if i == 0 {
                assert(s@ =~= next[0]);
            } else {
                assert(next.last() == spec_names@[i as int]);
            }
        }
        i += 1;
    }
    assert(spec_names@.subrange(0, i as int) =~= spec_names@);
    s
}

fn source_text(sources: &Option<Vec<SourceType>>) -> (r: String)
    ensures
        r@ == source_sql(*sources),
{
    match sources {
        None => String::new(),
        Some(v) => {
            if v.len() == 0 {
                NOTHING.to_string()
            } else {
                let mut s = " AND source IN (".to_string();
                let m = marks_text(v.len());
                s.append(m.as_str());
                s.append(")");
                s
            }
        },
    }
}

fn facet_text(t: &TypeFacet) -> (r: String)
    ensures
        r@ == facet_sql(*t),
{
    if t.sub_types.len() == 0 {
        "(intelligence_type = ?)".to_string()
    } else {
        let mut s = "(intelligence_type = ? AND sub_type IN (".to_string();
        let m = marks_text(t.sub_types.len());
        s.append(m.as_str());
        s.append("))");
        s
    }
}

fn type_text(facets: &Option<Vec<TypeFacet>>) -> (r: String)
    ensures
        r@ == type_sql(*facets),
{
    match facets {
        None => String::new(),
        Some(v) => {
            if v.len() == 0 {
                return NOTHING.to_string();
            }
            let mut body = facet_text(&v[0]);
            assert(v@.subrange(0, 1).len() == 1);
            assert(v@.subrange(0, 1)[0] == v@[0]);
            let mut i: usize = 1;
            while i < v.len()
                invariant
                    facets == Some(*v),
                    1 <= i <= v@.len(),
                    body@ == facets_sql(v@.subrange(0, i as int)),
                decreases v@.len() - i,
            {
                let ghost next = v@.subrange(0, i + 1);
                assert(next.drop_last() =~= v@.subrange(0, i as int));
                assert(next.last() == v@[i as int]);
                body.append(" OR ");
                let f = facet_text(&v[i]);
                body.append(f.as_str());
                i += 1;
            }
            assert(v@.subrange(0, i as int) =~= v@);
            let mut s = " AND (".to_string();
            s.append(body.as_str());
            s.append(")");
            s
        },
    }
}

fn status_text(st: &IntelligenceStatus) -> (r: String)
    ensures
        r@ == status_sql(*st),
{
    let mut s = String::new();
    if st.ignore_white {
        s.append(" AND is_white = 0");
    }
    let ghost a = s@;
    if st.ignore_black {
        s.append(" AND is_black = 0");
    }
    let ghost b = s@;
    if st.ignore_reported {
        s.append(" AND is_reported = 0");
    }
    assert(s@ =~= status_sql(*st));
    s
}

fn text_text(t: &Option<String>) -> (r: String)
    ensures
        r@ == text_sql(*t),
{
    match t {
        Some(s) => {
            if s.as_str().unicode_len() > 0 {
                " AND positionUTF8(value, ?) > 0".to_string()
            } else {
                String::new()
            }
        },
        None => String::new(),
    }
}

fn where_text(f: &IntelligenceFilter) -> (r: String)
    ensures
        r@ == where_sql(*f),
{
    let mut s = TIME_WINDOW.to_string();
    let a = source_text(&f.sources);
    s.append(a.as_str());
    let b = type_text(&f.intelligence_type);
    s.append(b.as_str());
    let c = status_text(&f.status);
    s.append(c.as_str());
    let d = text_text(&f.filter);
    s.append(d.as_str());
    s
}

fn order_text(field: SortField, order: SortOrder) -> (r: String)
    ensures
        r@ == order_sql(field, order),
{
    let mut s = " ORDER BY ".to_string();
    match field {
        SortField::LatestHitsTime => s.append("latest_hits_time"),
        SortField::HitEmails => s.append("hit_emails"),
        SortField::ImpactUsers => s.append("impact_users"),
    }
    match order {
        SortOrder::Asc => s.append(" ASC"),
        SortOrder::Desc => s.append(" DESC"),
    }
    s
}

fn facet_param_cells(t: &TypeFacet) -> (r: Vec<Cell>)
    ensures
        r@ == facet_params(*t),
{
    let mut out: Vec<Cell> = Vec::new();
    out.push(Cell::UInt8(t.intelligence_type.code()));
    let mut i: usize = 0;
    while i < t.sub_types.len()
        invariant
            i <= t.sub_types@.len(),
            out@.len() == i + 1,
            out@[0] == Cell::UInt8(t.intelligence_type.code_spec()),
            forall|k: int| 0 <= k < i ==> out@[k + 1] == Cell::Text(#[trigger] t.sub_types@[k]),
        decreases t.sub_types@.len() - i,
    {
        out.push(Cell::Text(t.sub_types[i].clone()));
        i += 1;
    }
    assert(out@ =~= facet_params(*t));
    out
}

fn where_param_cells(f: &IntelligenceFilter) -> (r: Vec<Cell>)
    ensures
        r@ == where_params(*f),
{
    let mut out: Vec<Cell> = Vec::new();
    out.push(Cell::DateTime(f.start_time));
    out.push(Cell::DateTime(f.end_time));
    let ghost base = out@;
    let mut src: Vec<Cell> = Vec::new();
    match &f.sources {
        Some(v) => {
            let mut i: usize = 0;
            while i < v.len()
                invariant
                    i <= v@.len(),
                    src@.len() == i,
                    forall|k: int| 0 <= k < i ==> src@[k] == Cell::UInt8((#[trigger] v@[k]).code_spec()),
                decreases v@.len() - i,
            {
                src.push(Cell::UInt8(v[i].code()));
                i += 1;
            }
            assert(src@ =~= v@.map_values(|s: SourceType| Cell::UInt8(s.code_spec())));
        },
        None => {},
    }
    let mut typ: Vec<Cell> = Vec::new();
    match &f.intelligence_type {
        Some(v) => {
            let mut i: usize = 0;
            while i < v.len()
                invariant
                    i <= v@.len(),
                    typ@ == facets_params(v@.subrange(0, i as int)),
                decreases v@.len() - i,
            {
                let ghost next = v@.subrange(0, i + 1);
                assert(next.drop_last() =~= v@.subrange(0, i as int));
                assert(next.last() == v@[i as int]);
                let mut cells = facet_param_cells(&v[i]);
                typ.append(&mut cells);
                i += 1;
            }
            assert(v@.subrange(0, i as int) =~= v@);
        },
        None => {},
    }
    let mut txt: Vec<Cell> = Vec::new();
    match &f.filter {
        Some(t) => {
            if t.as_str().unicode_len() > 0 {
                txt.push(Cell::Text(t.clone()));
            }
        },
        None => {},
    }
    out.append(&mut src);
    out.append(&mut typ);
    out.append(&mut txt);
    assert(out@ =~= where_params(*f));
    out
}

/// Rows skipped before page `page` of size `size`.
pub fn page_offset(page: usize, size: usize) -> (r: u64)
    requires
        page >= 1,
    ensures
        r == offset_of(page as int, size as int),
{
    let p = (page - 1) as u64;
    let s = size as u64;
    if s == 0 {
        proof {
            assert((page - 1) * size == 0) by (nonlinear_arith)
                requires
                    size == 0,
            ;
        }
        return 0;
    }
    if p > u64::MAX / s {
        proof {
            assert(p * s > u64::MAX) by (nonlinear_arith)
                requires
                    p > u64::MAX / s,
                    s > 0,
            ;
        }
        u64::MAX
    } else {
        proof {
            assert(p * s <= u64::MAX) by (nonlinear_arith)
                requires
                    p <= u64::MAX / s,
                    s > 0,
            ;
        }
        p * s
    }
}

/// The statement that fetches the requested page of the listing.
pub fn list_statement(f: &IntelligenceFilter) -> (r: Statement)
    requires
        f.wf(),
    ensures
        r.sql@ == list_sql(*f),
        r.params@ == where_params(*f) + seq![
            Cell::UInt64(f.page_size as u64),
            Cell::UInt64(offset_of(f.page as int, f.page_size as int)),
        ],
{
    let names = IntelligenceRow::column_names();
    let cols = join_names(&names, Ghost(IntelligenceRow::column_names_spec()));
    let mut sql = "SELECT ".to_string();
    sql.append(cols.as_str());
    sql.append(LISTING_SOURCE);
    let w = where_text(f);
    sql.append(w.as_str());
    let o = order_text(f.sort_by, f.sort_order);
    sql.append(o.as_str());
    sql.append(" LIMIT ? OFFSET ?");
    let mut params = where_param_cells(f);
    let ghost wp = params@;
    params.push(Cell::UInt64(f.page_size as u64));
    params.push(Cell::UInt64(page_offset(f.page, f.page_size)));
    assert(params@ =~= wp + seq![
        Cell::UInt64(f.page_size as u64),
        Cell::UInt64(offset_of(f.page as int, f.page_size as int)),
    ]);
    Statement { sql, params }
}

/// The statement that counts every row that the filter accepts.
pub fn count_statement(f: &IntelligenceFilter) -> (r: Statement)
    ensures
        r.sql@ == count_sql(*f),
        r.params@ == where_params(*f),
{
    let mut sql = "SELECT count()".to_string();
    sql.append(LISTING_SOURCE);
    let w = where_text(f);
    sql.append(w.as_str());
    Statement { sql, params: where_param_cells(f) }
}

} // verus!
