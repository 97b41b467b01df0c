//! Domain records, one module per record family.

pub mod email;
pub mod intelligence;
pub mod intelligence_action;
pub mod statistics;
pub mod system;
pub mod timeline;
pub mod trend;
