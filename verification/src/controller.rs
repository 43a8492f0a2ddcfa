//! Orchestrates the job lifecycle: starting the single background job,
//! driving the poller and the dismiss timer each tick, and exposing
//! read-only queries for the presentation layer.

use vstd::prelude::*;

use crate::job::{poll_model, JobResult, PendingJob, ProjectDescriptor, Template};
use crate::logbuf::LogBuffer;
use crate::model::{failure_line, init, inv, spec_start, spec_tick, success_line, Model, ReportModel};
use crate::phase::Phase;
use crate::timer::DismissTimer;
use crate::GRACE_DURATION;

verus! {

/// Why a `start` request was rejected.
#[derive(Clone, Copy, Debug, PartialEq, Eq, Structural)]
pub enum StartError {
    /// A job is already in flight or its notification is still up; the
    /// request was discarded without touching any state.
    AlreadyActive,
}

/// Actions one `tick` asks the host loop to carry out. The controller
/// mutates only its own state; persistence and presentation updates are
/// performed by the host from this report.
pub struct TickReport {
    /// A job result was observed during this tick.
    pub consumed: bool,
    /// On success, the descriptor of the new project: the host hands it to
    /// the project registry for persistence and to the presentation layer
    /// so the project's visual entry is inserted immediately before the
    /// trailing "add new" control.
    pub added: Option<ProjectDescriptor>,
    /// The grace period ran out during this tick: the host tears down the
    /// transient notification.
    pub dismissed: bool,
}

impl View for TickReport {
    type V = ReportModel;

    open spec fn view(&self) -> ReportModel {
        ReportModel {
            consumed: self.consumed,
            added: match self.added {
                Some(d) => Some(d@),
                None => None,
            },
            dismissed: self.dismissed,
        }
    }
}

/// Build the status line recorded when a job succeeds.
fn make_success_line(path: &str) -> (r: String)
    ensures
        r@ == success_line(path@),
{
    let mut line = String::from_str("Successfully created new project at: ");
    line.append(path);
    line
}

/// Build the status line recorded when a job fails.
fn make_failure_line(message: &str) -> (r: String)
    ensures
        r@ == failure_line(message@),
{
    let mut line = String::from_str("Failed to create new project: ");
    line.append(message);
    line
}

/// The lifecycle controller: sole owner of the job slot, the log buffer,
/// the project list and the dismiss timer. The host loop drives it through
/// `start` and `tick` and reads its state through the query methods.
pub struct LifecycleController {
    phase: Phase,
    logs: LogBuffer,
    projects: Vec<ProjectDescriptor>,
    job: Option<PendingJob>,
    timer: Option<DismissTimer>,
}

impl View for LifecycleController {
    type V = Model;

    closed spec fn view(&self) -> Model {
        Model {
            phase: self.phase,
            logs: self.logs@,
            projects: self.projects@.map_values(|d: ProjectDescriptor| d@),
            job: match self.job {
                Some(j) => Some(j@),
                None => None,
            },
            remaining: match self.timer {
                Some(t) => t.remaining() as int,
                None => 0,
            },
        }
    }
}

impl LifecycleController {
    /// The controller is well formed when its abstract state satisfies the
    /// lifecycle invariant. Every constructor establishes this and every
    /// mutating operation preserves it.
    pub open spec fn wf(&self) -> bool {
        inv(self@)
    }

    /// A fresh controller: idle, with an empty log, no job, no timer, and
    /// the project list the host loaded from the project registry.
    pub fn new(initial_projects: Vec<ProjectDescriptor>) -> (c: Self)
        ensures
            c.wf(),
            c@ == init(initial_projects@.map_values(|d: ProjectDescriptor| d@)),
    {
        let c = LifecycleController {
            phase: Phase::Idle,
            logs: LogBuffer::new(),
            projects: initial_projects,
            job: None,
            timer: None,
        };
        proof {
            assert(c@ =~~= init(c.projects@.map_values(|d: ProjectDescriptor| d@)));
        }
        c
    }

    /// The externally observable summary state.
    pub fn phase(&self) -> (p: Phase)
        ensures
            p == self@.phase,
    {
        self.phase
    }

    /// Read-only snapshot of the current job's status lines, oldest first.
    pub fn logs(&self) -> (r: &Vec<String>)
        ensures
            r@.map_values(|s: String| s@) == self@.logs,
    {
        self.logs.snapshot()
    }

    /// Read-only snapshot of all known projects, oldest first.
    pub fn projects(&self) -> (r: &Vec<ProjectDescriptor>)
        ensures
            r@.map_values(|d: ProjectDescriptor| d@) == self@.projects,
    {
        &self.projects
    }

    /// Whether a job is currently in flight; the host uses this to decide
    /// whether the loading window and the poller need to run.
    pub fn has_active_job(&self) -> (b: bool)
        ensures
            b == (self@.job is Some),
    {
        self.job.is_some()
    }

    /// Decide at run time whether the controller satisfies the lifecycle
    /// invariant. Every controller this library hands out does — `new`
    /// establishes the invariant and `start` and `tick` preserve it — but
    /// an unverified host can use this to guard its calls.
    pub fn is_well_formed(&self) -> (b: bool)
        ensures
            b == self.wf(),
    {
        let slot_ok = self.job.is_some() == (self.phase == Phase::Running);
        let timer_remaining = match &self.timer {
            Some(t) => t.remaining_time(),
            None => 0,
        };
        let timer_ok = (timer_remaining > 0) == (self.phase == Phase::AwaitingDismiss);
        let logs_ok = self.phase != Phase::Idle || self.logs.len() == 0;
        slot_ok && timer_ok && logs_ok
    }

    /// Start the single background job: from `Idle`, clear the log, occupy
    /// the job slot with this request and enter `Running`; the host then
    /// spawns the template engine's asynchronous computation for the same
    /// request. From any other phase the request is rejected unchanged.
    pub fn start(&mut self, template: Template, path: String) -> (r: Result<(), StartError>)
        requires
            old(self).wf(),
        ensures
            final(self).wf(),
            final(self)@ == spec_start(old(self)@, template, path@).0,
            r is Ok <==> spec_start(old(self)@, template, path@).1,
            r is Ok <==> old(self)@.phase is Idle,
    {
        let ghost p: Seq<char> = path@;
        match self.phase {
            Phase::Idle => {
                self.logs.clear();
                self.job = Some(PendingJob { template, path });
                self.phase = Phase::Running;
                proof {
                    assert(self@ =~~= spec_start(old(self)@, template, p).0);
                }
                Ok(())
            },
            _ => Err(StartError::AlreadyActive),
        }
    }

    /// Drive one scheduling step: the poller first, then the dismiss
    /// timer. `poll` is what the host's non-blocking check of the
    /// asynchronous job handed back this tick (`None` while the job is
    /// still working), and `elapsed` is the time units since the previous
    /// tick. All state changes of the lifecycle happen here or in `start`.
    pub fn tick(&mut self, poll: Option<JobResult>, elapsed: u64) -> (report: TickReport)
        requires
            old(self).wf(),
        ensures
            final(self).wf(),
            final(self)@ == spec_tick(old(self)@, poll_model(poll), elapsed as int).0,
            report@ == spec_tick(old(self)@, poll_model(poll), elapsed as int).1,
    {
        let ghost pre: Model = self@;
        let ghost pm = poll_model(poll);
        let mut report = TickReport { consumed: false, added: None, dismissed: false };
        match self.phase {
            Phase::AwaitingDismiss => {
                // The timer was armed by an earlier tick; the job slot is
                // empty, so there is nothing to poll.
                let fired: bool = match &mut self.timer {
                    Some(t) => t.tick(elapsed),
                    // The invariant arms a timer whenever the phase is
                    // AwaitingDismiss, so this arm cannot be reached.
                    None => unreached(),
                };
                if fired {
                    self.timer = None;
                    self.logs.clear();
                    self.phase = Phase::Idle;
                    report.dismissed = true;
                }
                proof {
                    assert(self@ =~~= spec_tick(pre, pm, elapsed as int).0);
                    assert(report@ =~~= spec_tick(pre, pm, elapsed as int).1);
                }
            },
            Phase::Running => {
                match poll {
                    Some(result) => {
                        // Consume the result exactly once: the handle is
                        // destroyed before anything else happens.
                        self.job = None;
                        match result {
                            JobResult::Success(descriptor) => {
                                let line = make_success_line(descriptor.path.as_str());
                                self.logs.append(line);
                                let added = descriptor.clone();
                                self.projects.push(descriptor);
                                report = TickReport {
                                    consumed: true,
                                    added: Some(added),
                                    dismissed: false,
                                };
                            },
                            JobResult::Failure(error) => {
                                let line = make_failure_line(error.message.as_str());
                                self.logs.append(line);
                                report = TickReport {
                                    consumed: true,
                                    added: None,
                                    dismissed: false,
                                };
                            },
                        }
                        self.timer = Some(DismissTimer::arm(GRACE_DURATION));
                        self.phase = Phase::AwaitingDismiss;
                    },
                    None => {},
                }
                proof {
                    assert(self@ =~~= spec_tick(pre, pm, elapsed as int).0);
                    assert(report@ =~~= spec_tick(pre, pm, elapsed as int).1);
                }
            },
            Phase::Idle => {
                // No job and no timer: a stray result is discarded.
                proof {
                    assert(self@ =~~= spec_tick(pre, pm, elapsed as int).0);
                    assert(report@ =~~= spec_tick(pre, pm, elapsed as int).1);
                }
            },
        }
        report
    }
}

} // verus!
