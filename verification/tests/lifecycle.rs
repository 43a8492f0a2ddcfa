use launcher_core::controller::{LifecycleController, StartError};
use launcher_core::job::{ErrorDetail, JobResult, ProjectDescriptor, Template};
use launcher_core::phase::Phase;
use launcher_core::GRACE_DURATION;

fn descriptor(path: &str, template: Template) -> ProjectDescriptor {
    ProjectDescriptor { path: String::from(path), template }
}

#[test]
fn fresh_controller_is_idle_and_empty() {
    let c = LifecycleController::new(Vec::new());
    assert_eq!(c.phase(), Phase::Idle);
    assert!(c.logs().is_empty());
    assert!(c.projects().is_empty());
    assert!(!c.has_active_job());
}

#[test]
fn fresh_controller_keeps_loaded_projects() {
    let initial = vec![descriptor("/home/u/old", Template::Blank)];
    let c = LifecycleController::new(initial);
    assert_eq!(c.projects().len(), 1);
    assert_eq!(c.projects()[0].path, "/home/u/old");
}

#[test]
fn immediate_success_scenario() {
    let mut c = LifecycleController::new(Vec::new());
    assert!(c.start(Template::Blank, String::from("/tmp/p1")).is_ok());
    assert_eq!(c.phase(), Phase::Running);
    assert!(c.has_active_job());

    let result = JobResult::Success(descriptor("/tmp/p1", Template::Blank));
    let report = c.tick(Some(result), 1);

    assert!(report.consumed);
    assert!(!report.dismissed);
    assert_eq!(c.phase(), Phase::AwaitingDismiss);
    assert_eq!(c.logs().len(), 1);
    assert!(c.logs()[0].contains("/tmp/p1"));
    assert_eq!(c.logs()[0], "Successfully created new project at: /tmp/p1");
    assert_eq!(c.projects().len(), 1);
    assert_eq!(c.projects()[0].path, "/tmp/p1");
    let added = report.added.expect("success must report the new project");
    assert_eq!(added.path, "/tmp/p1");
    assert!(!c.has_active_job());
}

#[test]
fn immediate_failure_scenario() {
    let mut c = LifecycleController::new(Vec::new());
    assert!(c.start(Template::Minimal, String::from("/tmp/p2")).is_ok());

    let result = JobResult::Failure(ErrorDetail { message: String::from("disk full") });
    let report = c.tick(Some(result), 1);

    assert!(report.consumed);
    assert!(report.added.is_none());
    assert_eq!(c.phase(), Phase::AwaitingDismiss);
    assert_eq!(c.logs().len(), 1);
    assert!(c.logs()[0].contains("disk full"));
    assert_eq!(c.logs()[0], "Failed to create new project: disk full");
    assert!(c.projects().is_empty());
    assert!(!c.has_active_job());
}

#[test]
fn dismissal_at_exactly_the_grace_duration() {
    let mut c = LifecycleController::new(Vec::new());
    c.start(Template::Blank, String::from("/tmp/p1")).unwrap();
    let result = JobResult::Success(descriptor("/tmp/p1", Template::Blank));
    let report = c.tick(Some(result), 7);
    // The tick that consumes the result arms the timer; its own elapsed
    // time does not count against the grace period.
    assert!(!report.dismissed);
    assert_eq!(c.phase(), Phase::AwaitingDismiss);

    let report = c.tick(None, GRACE_DURATION);
    assert!(report.dismissed);
    assert_eq!(c.phase(), Phase::Idle);
    assert!(c.logs().is_empty());
    // The created project survives the dismissal.
    assert_eq!(c.projects().len(), 1);
}

#[test]
fn dismissal_fires_exactly_once() {
    let mut c = LifecycleController::new(Vec::new());
    c.start(Template::Blank, String::from("/tmp/p1")).unwrap();
    let result = JobResult::Success(descriptor("/tmp/p1", Template::Blank));
    c.tick(Some(result), 1);

    let mut fired = 0;
    for _ in 0..20 {
        if c.tick(None, 1).dismissed {
            fired += 1;
        }
    }
    assert_eq!(fired, 1);
    assert_eq!(c.phase(), Phase::Idle);
}

#[test]
fn notification_stays_up_before_the_grace_duration() {
    let mut c = LifecycleController::new(Vec::new());
    c.start(Template::Blank, String::from("/tmp/p1")).unwrap();
    let result = JobResult::Success(descriptor("/tmp/p1", Template::Blank));
    c.tick(Some(result), 1);

    // Four unit ticks: cumulative elapsed 4 < 5, so no dismissal yet.
    for _ in 0..(GRACE_DURATION - 1) {
        let report = c.tick(None, 1);
        assert!(!report.dismissed);
        assert_eq!(c.phase(), Phase::AwaitingDismiss);
        assert_eq!(c.logs().len(), 1);
    }
    // The fifth unit reaches the grace duration.
    let report = c.tick(None, 1);
    assert!(report.dismissed);
    assert_eq!(c.phase(), Phase::Idle);
}

#[test]
fn start_while_running_is_rejected() {
    let mut c = LifecycleController::new(Vec::new());
    c.start(Template::Blank, String::from("/tmp/p1")).unwrap();
    let before_logs = c.logs().clone();

    let second = c.start(Template::Minimal, String::from("/tmp/other"));
    assert_eq!(second, Err(StartError::AlreadyActive));
    assert_eq!(c.phase(), Phase::Running);
    assert!(c.has_active_job());
    assert_eq!(c.logs(), &before_logs);

    // The job slot still holds the first request: its result is the one
    // that gets consumed.
    let result = JobResult::Success(descriptor("/tmp/p1", Template::Blank));
    let report = c.tick(Some(result), 1);
    assert!(report.consumed);
    assert_eq!(c.projects()[0].path, "/tmp/p1");
}

#[test]
fn start_while_awaiting_dismiss_is_rejected() {
    let mut c = LifecycleController::new(Vec::new());
    c.start(Template::Blank, String::from("/tmp/p1")).unwrap();
    c.tick(Some(JobResult::Success(descriptor("/tmp/p1", Template::Blank))), 1);
    assert_eq!(c.phase(), Phase::AwaitingDismiss);

    let second = c.start(Template::Blank, String::from("/tmp/p3"));
    assert_eq!(second, Err(StartError::AlreadyActive));
    assert_eq!(c.phase(), Phase::AwaitingDismiss);
    assert_eq!(c.logs().len(), 1);
}

#[test]
fn result_is_consumed_exactly_once() {
    let mut c = LifecycleController::new(Vec::new());
    c.start(Template::Blank, String::from("/tmp/p1")).unwrap();
    let report = c.tick(Some(JobResult::Success(descriptor("/tmp/p1", Template::Blank))), 1);
    assert!(report.consumed);

    // Later ticks never consume again or re-append lines for that job.
    let report = c.tick(None, 1);
    assert!(!report.consumed);
    assert_eq!(c.logs().len(), 1);
    assert_eq!(c.projects().len(), 1);
}

#[test]
fn stray_result_while_idle_is_discarded() {
    let mut c = LifecycleController::new(Vec::new());
    let report = c.tick(Some(JobResult::Success(descriptor("/tmp/x", Template::Blank))), 1);
    assert!(!report.consumed);
    assert!(report.added.is_none());
    assert!(!report.dismissed);
    assert_eq!(c.phase(), Phase::Idle);
    assert!(c.logs().is_empty());
    assert!(c.projects().is_empty());
}

#[test]
fn ticks_without_a_result_change_nothing_while_running() {
    let mut c = LifecycleController::new(Vec::new());
    c.start(Template::Blank, String::from("/tmp/p1")).unwrap();
    for _ in 0..10 {
        let report = c.tick(None, 3);
        assert!(!report.consumed);
        assert!(!report.dismissed);
    }
    assert_eq!(c.phase(), Phase::Running);
    assert!(c.has_active_job());
    assert!(c.logs().is_empty());
}

#[test]
fn start_resets_the_log_of_the_previous_job() {
    let mut c = LifecycleController::new(Vec::new());
    c.start(Template::Blank, String::from("/tmp/p1")).unwrap();
    c.tick(Some(JobResult::Failure(ErrorDetail { message: String::from("boom") })), 1);
    assert_eq!(c.logs().len(), 1);
    c.tick(None, GRACE_DURATION);
    assert_eq!(c.phase(), Phase::Idle);

    c.start(Template::Minimal, String::from("/tmp/p2")).unwrap();
    assert!(c.logs().is_empty());
    assert_eq!(c.phase(), Phase::Running);
}

#[test]
fn phases_progress_only_along_the_cycle() {
    let mut c = LifecycleController::new(Vec::new());
    let mut seen = vec![c.phase()];

    c.start(Template::Blank, String::from("/tmp/p1")).unwrap();
    seen.push(c.phase());
    c.tick(None, 1);
    seen.push(c.phase());
    c.tick(Some(JobResult::Success(descriptor("/tmp/p1", Template::Blank))), 1);
    seen.push(c.phase());
    c.tick(None, 2);
    seen.push(c.phase());
    c.tick(None, 3);
    seen.push(c.phase());

    assert_eq!(
        seen,
        vec![
            Phase::Idle,
            Phase::Running,
            Phase::Running,
            Phase::AwaitingDismiss,
            Phase::AwaitingDismiss,
            Phase::Idle,
        ]
    );
}

#[test]
fn two_jobs_in_sequence_accumulate_projects() {
    let mut c = LifecycleController::new(Vec::new());

    c.start(Template::Blank, String::from("/tmp/p1")).unwrap();
    c.tick(Some(JobResult::Success(descriptor("/tmp/p1", Template::Blank))), 1);
    c.tick(None, GRACE_DURATION);

    c.start(Template::Minimal, String::from("/tmp/p2")).unwrap();
    c.tick(Some(JobResult::Success(descriptor("/tmp/p2", Template::Minimal))), 1);
    c.tick(None, GRACE_DURATION);

    assert_eq!(c.phase(), Phase::Idle);
    assert_eq!(c.projects().len(), 2);
    assert_eq!(c.projects()[0].path, "/tmp/p1");
    assert_eq!(c.projects()[1].path, "/tmp/p2");
}

#[test]
fn huge_elapsed_time_dismisses_without_overflow() {
    let mut c = LifecycleController::new(Vec::new());
    c.start(Template::Blank, String::from("/tmp/p1")).unwrap();
    c.tick(Some(JobResult::Success(descriptor("/tmp/p1", Template::Blank))), u64::MAX);
    assert_eq!(c.phase(), Phase::AwaitingDismiss);
    let report = c.tick(None, u64::MAX);
    assert!(report.dismissed);
    assert_eq!(c.phase(), Phase::Idle);
}

#[test]
fn zero_elapsed_ticks_never_dismiss() {
    let mut c = LifecycleController::new(Vec::new());
    c.start(Template::Blank, String::from("/tmp/p1")).unwrap();
    c.tick(Some(JobResult::Success(descriptor("/tmp/p1", Template::Blank))), 0);
    for _ in 0..100 {
        let report = c.tick(None, 0);
        assert!(!report.dismissed);
    }
    assert_eq!(c.phase(), Phase::AwaitingDismiss);
}
