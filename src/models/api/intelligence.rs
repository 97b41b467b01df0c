//! Raw listing parameters of the intelligence listing and their
//! normalization into a filter.

use vstd::prelude::*;
use crate::models::domain::intelligence::{
    IntelligenceFilter, IntelligenceStatus, SortField, SortOrder, SourceType, StatusKey, TypeFacet,
};
use crate::query::DEFAULT_PAGE_SIZE;

verus! {

/// Listing parameters as a caller sends them; every part may be missing.
#[derive(Debug, Clone)]
pub struct IntelligenceQueryParams {
    pub start_time: Option<i64>,
    pub end_time: Option<i64>,
    pub sources: Option<Vec<SourceType>>,
    pub intelligence_type: Option<Vec<TypeFacet>>,
    pub status: Option<IntelligenceStatus>,
    pub filter: Option<String>,
    pub sort_by: Option<SortField>,
    pub sort_order: Option<SortOrder>,
    pub page_size: Option<usize>,
    pub page: Option<usize>,
}

/// Why listing parameters cannot become a filter.
#[derive(Debug, Clone, Copy, PartialEq, Eq, Structural)]
pub enum FilterError {
    /// The start or the end of the time window is missing.
    MissingTimeWindow,
}

/// Page size when none is given.
pub fn default_page_size() -> (r: usize)
    ensures
        r == 10,
{
    DEFAULT_PAGE_SIZE
}

/// Status flags when none are given: all false.
pub fn default_status() -> (r: IntelligenceStatus)
    ensures
        forall|k: StatusKey| !r.flag(k),
        !r.ignore_white && !r.ignore_black && !r.ignore_reported,
{
    IntelligenceStatus::cleared()
}

/// Sort key when none is given: most recent hit first.
pub fn default_sort_field() -> (r: SortField)
    ensures
        r == SortField::LatestHitsTime,
{
    SortField::LatestHitsTime
}

/// Sort direction when none is given.
pub fn default_sort_order() -> (r: SortOrder)
    ensures
        r == SortOrder::Desc,
{
    SortOrder::Desc
}

/// The page size after normalization: the given one, or 10 where it is
/// missing or zero.
pub open spec fn normalized_page_size(p: Option<usize>) -> usize {
    match p {
        Some(n) => if n > 0 { n } else { 10 },
        None => 10,
    }
}

/// The page number after normalization: pages count from 1, and a missing
/// or zero page is the first.
pub open spec fn normalized_page(p: Option<usize>) -> usize {
    match p {
        Some(n) => if n > 0 { n } else { 1 },
        None => 1,
    }
}

/// The text constraint after normalization: an empty text is no constraint.
pub open spec fn normalized_text(t: Option<String>) -> Option<String> {
    match t {
        Some(s) => if s@.len() > 0 { Some(s) } else { None },
        None => None,
    }
}

impl IntelligenceQueryParams {
    /// Validates and normalizes the parameters. Both ends of the time window
    /// are required; every other part takes its default when missing.
    pub fn into_filter(self) -> (r: Result<IntelligenceFilter, FilterError>)
        ensures
            r is Err <==> (self.start_time is None || self.end_time is None),
            r matches Err(e) ==> e == FilterError::MissingTimeWindow,
            r matches Ok(f) ==> {
                &&& f.wf()
                &&& f.page_size > 0
                &&& f.start_time == self.start_time->Some_0
                &&& f.end_time == self.end_time->Some_0
                &&& f.sources == self.sources
                &&& f.intelligence_type == self.intelligence_type
                &&& f.status == (match self.status {
                    Some(s) => s,
                    None => IntelligenceStatus {
                        ignore_white: false,
                        ignore_black: false,
                        ignore_reported: false,
                    },
                })
                &&& f.filter == normalized_text(self.filter)
                &&& f.sort_by == (match self.sort_by {
                    Some(s) => s,
                    None => SortField::LatestHitsTime,
                })
                &&& f.sort_order == (match self.sort_order {
                    Some(s) => s,
                    None => SortOrder::Desc,
                })
                &&& f.page_size == normalized_page_size(self.page_size)
                &&& f.page == normalized_page(self.page)
            },
    {
        let (start_time, end_time) = match (self.start_time, self.end_time) {
            (Some(s), Some(e)) => (s, e),
            _ => {
                return Err(FilterError::MissingTimeWindow);
            },
        };
        let status = match self.status {
            Some(s) => s,
            None => default_status(),
        };
        let filter = match self.filter {
            Some(t) => {
                if t.as_str().unicode_len() > 0 {
                    Some(t)
                } else {
                    None
                }
            },
            None => None,
        };
        let sort_by = match self.sort_by {
            Some(s) => s,
            None => default_sort_field(),
        };
        let sort_order = match self.sort_order {
            Some(s) => s,
            None => default_sort_order(),
        };
        let page_size = match self.page_size {
            Some(n) => if n > 0 { n } else { default_page_size() },
            None => default_page_size(),
        };
        let page = match self.page {
            Some(n) => if n > 0 { n } else { 1 },
            None => 1,
        };
        Ok(IntelligenceFilter {
            start_time,
            end_time,
            sources: self.sources,
            intelligence_type: self.intelligence_type,
            status,
            filter,
            sort_by,
            sort_order,
            page_size,
            page,
        })
    }
}

} // verus!
