//! Core lifecycle of a single background project-creation job.
//!
//! The library models the state machine that lets a host application start
//! one asynchronous project-creation job at a time, poll it to completion
//! without blocking, collect status lines in an append-only log, and tear
//! down the transient notification after a fixed grace period.
//!
//! The host loop owns the actual asynchronous work: each scheduling step it
//! hands the controller whatever the job produced (if anything) together
//! with the elapsed time, and carries out the actions the controller reports
//! back (persisting the project list, updating the presentation layer).

pub mod controller;
pub mod job;
pub mod laws;
pub mod logbuf;
pub mod model;
pub mod phase;
pub mod timer;

use vstd::prelude::*;

verus! {

/// Number of time units a finished job's notification stays visible
/// before it is automatically dismissed.
pub const GRACE_DURATION: u64 = 5;

} // verus!
