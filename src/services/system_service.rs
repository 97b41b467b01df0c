//! The system clock service.

use vstd::prelude::*;
use crate::clock::now_millis;

verus! {

/// A reading of the system clock, in milliseconds since the epoch.
#[derive(Debug, Clone, Copy)]
pub struct SystemTimeData {
    pub timestamp: i64,
}

/// System service.
#[derive(Clone)]
pub struct SystemService {}

impl SystemService {
    /// A clock service.
    pub fn new() -> Self {
        SystemService {  }
    }

    /// Reads the system clock.
    pub fn get_system_time(&self) -> SystemTimeData {
        SystemTimeData { timestamp: now_millis() }
    }
}

} // verus!
