//! Laws of the job lifecycle, proved over the abstract model that `start`
//! and `tick` are proved to follow. Each law holds of every reachable
//! state, i.e. every state satisfying the lifecycle invariant.

use vstd::prelude::*;

use crate::job::Template;
use crate::model::{
    init, inv, result_line, spec_start, spec_tick, DescModel, Model, ResultModel,
};
use crate::phase::Phase;

verus! {

/// The phase edges the lifecycle may move along: staying put, or
/// `Idle → Running` (a job starts), `Running → AwaitingDismiss` (its
/// result is consumed), `AwaitingDismiss → Idle` (the notification is
/// dismissed).
pub open spec fn phase_edge(a: Phase, b: Phase) -> bool {
    ||| a == b
    ||| (a is Idle && b is Running)
    ||| (a is Running && b is AwaitingDismiss)
    ||| (a is AwaitingDismiss && b is Idle)
}

/// A fresh lifecycle state satisfies the invariant, whatever project list
/// it starts from.
pub proof fn lemma_init_inv(projects: Seq<DescModel>)
    ensures
        inv(init(projects)),
{
}

/// `start` preserves the lifecycle invariant.
pub proof fn lemma_start_preserves_inv(m: Model, template: Template, path: Seq<char>)
    requires
        inv(m),
    ensures
        inv(spec_start(m, template, path).0),
{
}

/// `tick` preserves the lifecycle invariant.
pub proof fn lemma_tick_preserves_inv(m: Model, poll: Option<ResultModel>, elapsed: int)
    requires
        inv(m),
    ensures
        inv(spec_tick(m, poll, elapsed).0),
{
}

/// Single-flight: while the job slot is occupied, a further `start` is
/// rejected and changes nothing — in particular it never replaces the
/// handle, so no sequence of `start` calls ever yields a second one.
pub proof fn lemma_single_flight(m: Model, template: Template, path: Seq<char>)
    requires
        inv(m),
        m.job is Some,
    ensures
        spec_start(m, template, path).0 == m,
        !spec_start(m, template, path).1,
{
}

/// A tick never creates a job handle: whenever the slot is occupied after
/// a tick, it holds exactly the handle that was there before.
pub proof fn lemma_tick_spawns_no_job(m: Model, poll: Option<ResultModel>, elapsed: int)
    requires
        inv(m),
    ensures
        spec_tick(m, poll, elapsed).0.job is Some ==> spec_tick(m, poll, elapsed).0.job == m.job,
{
}

/// Exactly-once consumption: the one tick that observes a delivered
/// result consumes it — appending exactly one status line and emptying
/// the job slot — and no later tick consumes anything again, nor appends
/// a further line for that job: until a new job starts, the log only ever
/// stays as it is or is torn down with the notification.
pub proof fn lemma_exactly_once_consumption(m: Model, r: ResultModel, elapsed: int)
    requires
        inv(m),
        m.phase is Running,
    ensures
        ({
            let consumed_state = spec_tick(m, Some(r), elapsed).0;
            let consumed_report = spec_tick(m, Some(r), elapsed).1;
            &&& consumed_report.consumed
            &&& consumed_state.logs == m.logs.push(result_line(r))
            &&& consumed_state.job is None
            &&& forall|poll2: Option<ResultModel>, e2: int|
                !(#[trigger] spec_tick(consumed_state, poll2, e2)).1.consumed
            &&& forall|poll2: Option<ResultModel>, e2: int|
                (#[trigger] spec_tick(consumed_state, poll2, e2)).0.logs == consumed_state.logs
                    || spec_tick(consumed_state, poll2, e2).0.logs =~= Seq::<Seq<char>>::empty()
        }),
{
}

/// The project list is mutated only by a successful job completion, and
/// then only by appending the new project: a tick that reports a project
/// appends exactly that one, and any other tick leaves the list as it is.
pub proof fn lemma_projects_append_only(m: Model, poll: Option<ResultModel>, elapsed: int)
    requires
        inv(m),
    ensures
        ({
            let after = spec_tick(m, poll, elapsed);
            match after.1.added {
                Some(d) => after.0.projects == m.projects.push(d),
                None => after.0.projects == m.projects,
            }
        }),
{
}

/// `start` never touches the project list, accepted or not.
pub proof fn lemma_start_keeps_projects(m: Model, template: Template, path: Seq<char>)
    requires
        inv(m),
    ensures
        spec_start(m, template, path).0.projects == m.projects,
{
}

/// Phase progression, `start` half: a `start` moves the phase along an
/// allowed edge (`Idle → Running`, or staying put when rejected).
pub proof fn lemma_phase_progression_start(m: Model, template: Template, path: Seq<char>)
    requires
        inv(m),
    ensures
        phase_edge(m.phase, spec_start(m, template, path).0.phase),
{
}

/// Phase progression, `tick` half: a `tick` moves the phase along an
/// allowed edge (`Running → AwaitingDismiss`, `AwaitingDismiss → Idle`,
/// or staying put), whatever the poll outcome and elapsed time.
pub proof fn lemma_phase_progression_tick(m: Model, poll: Option<ResultModel>, elapsed: int)
    requires
        inv(m),
    ensures
        phase_edge(m.phase, spec_tick(m, poll, elapsed).0.phase),
{
}

/// The notification is torn down by exactly the first tick whose elapsed
/// interval reaches the remaining grace time, and by no earlier one.
pub proof fn lemma_timer_fires_exactly(m: Model, poll: Option<ResultModel>, elapsed: int)
    requires
        inv(m),
        m.phase is AwaitingDismiss,
    ensures
        spec_tick(m, poll, elapsed).1.dismissed <==> elapsed >= m.remaining,
{
}

/// State after a run of further ticks during which the job delivers
/// nothing: each entry of `es` is the elapsed time handed to one tick.
pub open spec fn apply_idle_ticks(m: Model, es: Seq<int>) -> Model
    decreases es.len(),
{
    if es.len() == 0 {
        m
    } else {
        apply_idle_ticks(spec_tick(m, None, es[0]).0, es.drop_first())
    }
}

/// Cumulative elapsed time of a run of ticks.
pub open spec fn total_elapsed(es: Seq<int>) -> int
    decreases es.len(),
{
    if es.len() == 0 {
        0
    } else {
        es[0] + total_elapsed(es.drop_first())
    }
}

/// A run of nonnegative elapsed intervals has nonnegative total.
pub proof fn lemma_total_elapsed_nonneg(es: Seq<int>)
    requires
        forall|i: int| 0 <= i < es.len() ==> es[i] >= 0,
    ensures
        total_elapsed(es) >= 0,
    decreases es.len(),
{
    if es.len() > 0 {
        assert(forall|i: int|
            0 <= i < es.drop_first().len() ==> #[trigger] es.drop_first()[i] == es[i + 1]);
        lemma_total_elapsed_nonneg(es.drop_first());
    }
}

/// With nothing to poll and no job started, an idle lifecycle stays idle
/// and untouched, however many ticks pass.
pub proof fn lemma_idle_stays_idle(m: Model, es: Seq<int>)
    requires
        inv(m),
        m.phase is Idle,
    ensures
        apply_idle_ticks(m, es) == m,
    decreases es.len(),
{
    if es.len() > 0 {
        lemma_idle_stays_idle(m, es.drop_first());
    }
}

/// Timer correctness over a whole run: while the notification is up with
/// `m.remaining` grace time left, a run of further ticks leaves it up —
/// with the log intact and the grace time reduced by exactly the time
/// passed — as long as the cumulative elapsed time stays below the
/// remaining grace time, and has torn it down and returned the lifecycle
/// to `Idle` once the cumulative elapsed time reaches it.
pub proof fn lemma_timer_cumulative(m: Model, es: Seq<int>)
    requires
        inv(m),
        m.phase is AwaitingDismiss,
        forall|i: int| 0 <= i < es.len() ==> es[i] >= 0,
    ensures
        total_elapsed(es) < m.remaining ==> {
            let end = apply_idle_ticks(m, es);
            &&& end.phase is AwaitingDismiss
            &&& end.remaining == m.remaining - total_elapsed(es)
            &&& end.logs == m.logs
        },
        total_elapsed(es) >= m.remaining ==> apply_idle_ticks(m, es).phase is Idle,
    decreases es.len(),
{
    if es.len() > 0 {
        let m1 = spec_tick(m, None, es[0]).0;
        assert(forall|i: int|
            0 <= i < es.drop_first().len() ==> #[trigger] es.drop_first()[i] == es[i + 1]);
        if es[0] >= m.remaining {
            lemma_total_elapsed_nonneg(es.drop_first());
            lemma_idle_stays_idle(m1, es.drop_first());
        } else {
            lemma_timer_cumulative(m1, es.drop_first());
        }
    }
}

/// Log ordering: any tick that does not tear the notification down only
/// ever appends — every line already in the log stays, in its place and
/// in order, as a prefix of the log afterwards.
pub proof fn lemma_log_append_only(m: Model, poll: Option<ResultModel>, elapsed: int)
    requires
        inv(m),
    ensures
        ({
            let after = spec_tick(m, poll, elapsed);
            !after.1.dismissed ==> {
                &&& after.0.logs.len() >= m.logs.len()
                &&& after.0.logs.subrange(0, m.logs.len() as int) == m.logs
            }
        }),
{
    let after = spec_tick(m, poll, elapsed);
    if !after.1.dismissed {
        assert(after.0.logs.subrange(0, m.logs.len() as int) =~= m.logs);
    }
}

/// `start` from `Idle` resets the log to empty; the lines of the previous
/// job are never carried into a new one.
pub proof fn lemma_start_resets_log(m: Model, template: Template, path: Seq<char>)
    requires
        inv(m),
        m.phase is Idle,
    ensures
        spec_start(m, template, path).0.logs =~= Seq::<Seq<char>>::empty(),
{
}

} // verus!
