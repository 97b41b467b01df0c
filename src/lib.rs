//! Reporting backend core over a columnar analytics store: typed row binding,
//! a degradable connection holder, the filter/sort/paginate query model, and
//! the record services that answer listing, lookup, download and disposition
//! requests, with deterministic fallback data when the store is offline.

pub mod clock;
pub mod db;
pub mod models;
pub mod query;
pub mod services;
pub mod text;
