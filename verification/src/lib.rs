//! Periodic reachability monitoring for a configured list of HTTP endpoints.
//!
//! The library holds the data model of a monitored endpoint (a [`Website`]),
//! the classification of a single check's outcome, and the per-pass
//! scheduling algorithm that decides which endpoints are due for a check and
//! commits a full replacement list. The surrounding program performs the
//! network probes and hands their outcomes back as plain values.

use vstd::prelude::*;

pub mod schedule;
pub mod website;

pub use schedule::updater;
pub use website::CheckOutcome;
pub use website::Method;
pub use website::Status;
pub use website::Website;

verus! {

/// The full set of monitored endpoints, as read from configuration at
/// startup and thereafter replaced wholesale once per scheduling pass.
#[derive(Clone, Debug)]
pub struct Config {
    pub websites: Vec<Website>,
}

} // verus!
