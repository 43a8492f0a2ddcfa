//! The externally observable summary state of the job lifecycle.

use vstd::prelude::*;

verus! {

/// Exactly one of these holds at any time.
///
/// `Idle`: no job is active and no notification is shown.
/// `Running`: a job has been started and its result has not been observed.
/// `AwaitingDismiss`: the job finished; the notification stays up until the
/// grace period elapses.
#[derive(Clone, Copy, Debug, PartialEq, Eq, Structural)]
pub enum Phase {
    Idle,
    Running,
    AwaitingDismiss,
}

} // verus!
