//! Request and response shapes at the service boundary.

pub mod intelligence;
