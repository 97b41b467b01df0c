//! Emails related to intelligence, with their attachments and URLs.

use vstd::prelude::*;

verus! {

/// An attachment of an email.
#[derive(Debug, Clone)]
pub struct Attachment {
    pub id: String,
    pub filename: String,
    pub file_path: String,
    /// Size in bytes.
    pub size: u64,
    pub file_extension: String,
    pub md5: String,
}

/// A URL found in an email.
#[derive(Debug, Clone)]
pub struct Url {
    pub id: String,
    pub url: String,
    pub path: String,
}

/// An email; `timestamp` is in milliseconds since the Unix epoch.
#[derive(Debug, Clone)]
pub struct Email {
    pub id: String,
    pub timestamp: i64,
    pub subject: String,
    pub sender: String,
    pub recipients: Vec<String>,
    pub attachments: Vec<Attachment>,
    pub urls: Vec<Url>,
    pub content: String,
    pub status: String,
    pub source_code: String,
}

/// Filter of the related-emails listing. Pages are numbered from 1.
#[derive(Debug, Clone)]
pub struct EmailFilter {
    pub start_time: i64,
    pub end_time: i64,
    pub intelligence_id: String,
    pub status: Option<String>,
    pub page: u32,
    pub page_size: u32,
}

impl EmailFilter {
    /// A normalized filter has a page number and a page size of at least 1.
    pub open spec fn wf(&self) -> bool {
        self.page >= 1 && self.page_size >= 1
    }

    /// A normalized filter: a missing or zero page is the first, a missing
    /// or zero page size is 10.
    pub fn new(
        start_time: i64,
        end_time: i64,
        intelligence_id: String,
        status: Option<String>,
        page: Option<u32>,
        page_size: Option<u32>,
    ) -> (r: Self)
        ensures
            r.wf(),
            r.start_time == start_time,
            r.end_time == end_time,
            r.intelligence_id == intelligence_id,
            r.status == status,
            r.page == (match page {
                Some(p) => if p > 0 { p } else { 1 },
                None => 1,
            }),
            r.page_size == (match page_size {
                Some(s) => if s > 0 { s } else { 10 },
                None => 10,
            }),
    {
        let page = match page {
            Some(p) => if p > 0 { p } else { 1 },
            None => 1,
        };
        let page_size = match page_size {
            Some(s) => if s > 0 { s } else { 10 },
            None => 10,
        };
        EmailFilter { start_time, end_time, intelligence_id, status, page, page_size }
    }
}

} // verus!
