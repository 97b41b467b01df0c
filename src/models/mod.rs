//! Domain records and the wire-facing response shapes built from them.

pub mod api;
pub mod domain;
