//! Mathematical model of the lifecycle: the abstract state, the invariant
//! that ties its parts together, and the transition functions that `start`
//! and `tick` are proved to follow.

use vstd::prelude::*;

use crate::phase::Phase;
use crate::job::Template;
use crate::GRACE_DURATION;

verus! {

/// Abstract view of a [`crate::job::ProjectDescriptor`].
#[verifier::ext_equal]
pub ghost struct DescModel {
    pub path: Seq<char>,
    pub template: Template,
}

/// Abstract view of the one in-flight job: the request it was started with.
#[verifier::ext_equal]
pub ghost struct JobModel {
    pub template: Template,
    pub path: Seq<char>,
}

/// Abstract view of a [`crate::job::JobResult`].
#[verifier::ext_equal]
pub ghost enum ResultModel {
    Success(DescModel),
    Failure(Seq<char>),
}

/// Abstract view of the actions one `tick` asks the host to carry out.
#[verifier::ext_equal]
pub ghost struct ReportModel {
    /// A job result was observed (consumed) during this tick.
    pub consumed: bool,
    /// On success, the descriptor to append-and-persist via the project
    /// registry and to hand to the presentation layer.
    pub added: Option<DescModel>,
    /// The grace period ran out during this tick: the transient
    /// notification is to be torn down.
    pub dismissed: bool,
}

/// Abstract state of the whole lifecycle controller.
#[verifier::ext_equal]
pub ghost struct Model {
    pub phase: Phase,
    /// Status lines of the current job, oldest first.
    pub logs: Seq<Seq<char>>,
    /// All known projects, oldest first.
    pub projects: Seq<DescModel>,
    /// The single job slot: `Some` exactly while a job is in flight.
    pub job: Option<JobModel>,
    /// Time units left on the dismiss timer; positive exactly while the
    /// notification is up.
    pub remaining: int,
}

/// State of a freshly constructed controller.
pub open spec fn init(projects: Seq<DescModel>) -> Model {
    Model { phase: Phase::Idle, logs: Seq::empty(), projects, job: None, remaining: 0 }
}

/// The invariant every reachable state satisfies: the job slot is occupied
/// exactly during `Running`, the dismiss timer is armed exactly during
/// `AwaitingDismiss`, and the log is non-empty only while a job is running
/// or its notification is up.
pub open spec fn inv(m: Model) -> bool {
    &&& (m.phase is Running) <==> (m.job is Some)
    &&& (m.phase is AwaitingDismiss) <==> (m.remaining > 0)
    &&& (m.phase is Idle) ==> m.logs.len() == 0
}

/// The status line recorded when a job succeeds.
pub open spec fn success_line(path: Seq<char>) -> Seq<char> {
    "Successfully created new project at: "@ + path
}

/// The status line recorded when a job fails.
pub open spec fn failure_line(message: Seq<char>) -> Seq<char> {
    "Failed to create new project: "@ + message
}

/// The status line recorded for a result of either kind.
pub open spec fn result_line(r: ResultModel) -> Seq<char> {
    match r {
        ResultModel::Success(d) => success_line(d.path),
        ResultModel::Failure(message) => failure_line(message),
    }
}

/// A report with nothing for the host to do.
pub open spec fn no_actions() -> ReportModel {
    ReportModel { consumed: false, added: None, dismissed: false }
}

/// Effect of `start`: from `Idle`, reset the log and occupy the job slot;
/// from any other phase the request is rejected and nothing changes.
/// The second component tells whether the request was accepted.
pub open spec fn spec_start(m: Model, template: Template, path: Seq<char>) -> (Model, bool) {
    if m.phase is Idle {
        (
            Model {
                phase: Phase::Running,
                logs: Seq::empty(),
                job: Some(JobModel { template, path }),
                ..m
            },
            true,
        )
    } else {
        (m, false)
    }
}

/// Effect of the poller during one tick: while a job is in flight, a
/// delivered result is consumed exactly once — logged, on success appended
/// to the project list, the job slot emptied, and the dismiss timer armed
/// with the grace duration. With no job in flight there is nothing to
/// poll and a stray result is discarded unobserved.
pub open spec fn spec_poll(m: Model, poll: Option<ResultModel>) -> (Model, ReportModel) {
    if m.phase is Running {
        match poll {
            Some(ResultModel::Success(d)) => (
                Model {
                    phase: Phase::AwaitingDismiss,
                    logs: m.logs.push(success_line(d.path)),
                    projects: m.projects.push(d),
                    job: None,
                    remaining: GRACE_DURATION as int,
                },
                ReportModel { consumed: true, added: Some(d), dismissed: false },
            ),
            Some(ResultModel::Failure(message)) => (
                Model {
                    phase: Phase::AwaitingDismiss,
                    logs: m.logs.push(failure_line(message)),
                    job: None,
                    remaining: GRACE_DURATION as int,
                    ..m
                },
                ReportModel { consumed: true, added: None, dismissed: false },
            ),
            None => (m, no_actions()),
        }
    } else {
        (m, no_actions())
    }
}

/// Effect of the dismiss timer during one tick in `AwaitingDismiss`: the
/// elapsed interval counts against the remaining grace time; when it is
/// used up the timer fires once, the transient log is torn down with the
/// notification, and the lifecycle returns to `Idle`.
pub open spec fn spec_timer(m: Model, elapsed: int) -> (Model, bool) {
    if elapsed >= m.remaining {
        (Model { phase: Phase::Idle, logs: Seq::empty(), remaining: 0, ..m }, true)
    } else {
        (Model { remaining: m.remaining - elapsed, ..m }, false)
    }
}

/// Effect of one `tick`: drive the poller, then the dismiss timer. The
/// timer only counts ticks that begin after it was armed, so the tick that
/// consumes the result does not also count against the grace period.
pub open spec fn spec_tick(m: Model, poll: Option<ResultModel>, elapsed: int) -> (
    Model,
    ReportModel,
) {
    if m.phase is AwaitingDismiss {
        let stepped = spec_timer(m, elapsed);
        (
            stepped.0,
            ReportModel { consumed: false, added: None, dismissed: stepped.1 },
        )
    } else {
        spec_poll(m, poll)
    }
}

} // verus!
