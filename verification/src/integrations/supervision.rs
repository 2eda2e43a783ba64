//! What holds of every run of a lifecycle manager: the ceiling on restarts,
//! the fresh count after a line, the finality of the terminal phases, the
//! single process, and the repeatable stop.

use crate::integrations::error::{display_text, ErrorView};
use crate::integrations::subprocess::{
    backoff_secs, ActionView, Delivery, LifecyclePhase, ManagerState, ProcessEvent, ProcessStatus,
    StopStep, TerminationWait,
};
use vstd::prelude::*;

verus! {

/// Whether `event` reports a crash: a process that could not be created, an
/// output stream that ended or failed, or an exit found by a health check.
pub open spec fn is_crash(event: ProcessEvent) -> bool {
    match event {
        ProcessEvent::SpawnFailed { .. } => true,
        ProcessEvent::StdoutClosed => true,
        ProcessEvent::StdoutFailed(_) => true,
        ProcessEvent::HealthTick(ProcessStatus::Exited(_)) => true,
        _ => false,
    }
}

/// One spawn attempt that ends in `crash` before any line is read: either the
/// process cannot be created, or it is created and then crashes.
pub open spec fn failed_attempt(s: ManagerState, crash: ProcessEvent) -> (
    ManagerState,
    ActionView,
) {
    if crash is SpawnFailed {
        s.next(crash, Delivery::Sent)
    } else {
        s.next(ProcessEvent::Spawned, Delivery::Sent).0.next(crash, Delivery::Sent)
    }
}

/// Where a manager stands after a run, and how often it restarted.
pub ghost struct Supervision {
    /// The state at the end of the run.
    pub state: ManagerState,
    /// The last action of the run.
    pub action: ActionView,
    /// The number of restarts: the spawns asked for after a crash and its
    /// pause.
    pub restarts: nat,
}

/// The run of a manager whose process crashes every time: `action` is what
/// the manager asked for last, each spawn that it asks for ends in the next
/// crash of `crashes`, and each pause that it asks for is waited out.
pub open spec fn crash_loop(s: ManagerState, action: ActionView, crashes: Seq<ProcessEvent>)
    -> Supervision
    decreases crashes.len(),
{
    if !(action is Spawn) || crashes.len() == 0 {
        Supervision { state: s, action, restarts: 0 }
    } else {
        let down = failed_attempt(s, crashes[0]);
        if down.1 is Backoff {
            let up = down.0.next(ProcessEvent::BackoffElapsed, Delivery::Sent);
            let rest = crash_loop(up.0, up.1, crashes.skip(1));
            Supervision { restarts: rest.restarts + 1, ..rest }
        } else {
            Supervision { state: down.0, action: down.1, restarts: 0 }
        }
    }
}

/// Every event leaves a well-formed manager well formed, and leaves its
/// command, its configuration and its arguments as they are.
pub proof fn lemma_next_keeps_wf(s: ManagerState, event: ProcessEvent, delivery: Delivery)
    requires
        s.wf(),
    ensures
        s.next(event, delivery).0.wf(),
        s.next(event, delivery).0.command == s.command,
        s.next(event, delivery).0.config == s.config,
        s.next(event, delivery).0.args == s.args,
{
}

/// At most one process at a time: a spawn is asked for only while no process
/// is held.
pub proof fn lemma_spawn_only_without_child(
    s: ManagerState,
    event: ProcessEvent,
    delivery: Delivery,
)
    requires
        s.wf(),
        s.next(event, delivery).1 is Spawn,
    ensures
        !s.has_child,
        !s.next(event, delivery).0.has_child,
        s.next(event, delivery).0.phase == LifecyclePhase::Spawning,
{
}

/// The terminal phases are final: whatever happens, and whatever is started,
/// the manager stays as it is, reports its result again and asks for no
/// spawn.
pub proof fn lemma_terminal_is_final(
    s: ManagerState,
    event: ProcessEvent,
    delivery: Delivery,
    args: Seq<Seq<char>>,
)
    requires
        s.phase == LifecyclePhase::Stopped || s.phase == LifecyclePhase::MaxRestartsExceeded,
    ensures
        s.next(event, delivery) == (s, ActionView::Finished(s.terminal_result())),
        s.started(args) == (s, ActionView::Finished(s.terminal_result())),
{
}

/// The health flag is raised only by a spawn that succeeded or by a health
/// check that found the process running.
pub proof fn lemma_health_is_confirmed(s: ManagerState, event: ProcessEvent, delivery: Delivery)
    requires
        s.wf(),
        !s.healthy,
        s.next(event, delivery).0.healthy,
    ensures
        event == ProcessEvent::Spawned && s.phase == LifecyclePhase::Spawning || event
            == ProcessEvent::HealthTick(ProcessStatus::Running) && s.phase
            == LifecyclePhase::Running,
{
}

/// The restart count moves only when a restart is counted or a line is read:
/// every other event leaves it alone.
pub proof fn lemma_count_moves_only_on_crash_or_line(
    s: ManagerState,
    event: ProcessEvent,
    delivery: Delivery,
)
    requires
        !is_crash(event),
        !(event is StdoutLine),
    ensures
        s.next(event, delivery).0.restart_count == s.restart_count,
{
}

/// Neither the error stream nor a health check that finds the process
/// running, or finds nothing, ends a running subscription or changes more
/// than the health flag.
pub proof fn lemma_side_events_keep_running(s: ManagerState, event: ProcessEvent)
    requires
        s.wf(),
        s.phase == LifecyclePhase::Running,
        event is StderrLine || event is StderrClosed || event is StderrFailed || event
            == ProcessEvent::HealthTick(ProcessStatus::Running) || event
            == ProcessEvent::HealthTick(ProcessStatus::Unknown),
    ensures
        s.next(event, Delivery::Sent).1 == ActionView::Continue,
        s.next(event, Delivery::Sent).0 == (ManagerState {
            healthy: s.healthy || event == ProcessEvent::HealthTick(ProcessStatus::Running),
            ..s
        }),
{
}

/// A shutdown signal ends a subscription that is under way without counting
/// a restart and without a pause.
pub proof fn lemma_shutdown_is_no_crash(s: ManagerState, delivery: Delivery)
    requires
        s.active(),
    ensures
        s.next(ProcessEvent::ShutdownSignal, delivery) == (
            ManagerState { phase: LifecyclePhase::Stopped, healthy: false, ..s },
            ActionView::Finished(Ok(())),
        ),
{
}

/// A crash while the restart count is below the ceiling counts one restart
/// and asks for the pause of the new count; a crash at the ceiling ends the
/// subscription for good and reports the ceiling as the number of attempts.
/// Either way the manager is unhealthy, holds no process and remembers the
/// error.
pub proof fn lemma_crash_is_counted(s: ManagerState, error: ErrorView)
    requires
        s.wf(),
        s.active(),
    ensures
        ({
            let (after, action) = s.crashed(error);
            &&& after.wf()
            &&& !after.healthy
            &&& !after.has_child
            &&& after.last_error == display_text(error)
            &&& if s.restart_count < s.config.max_restarts {
                &&& after.restart_count == s.restart_count + 1
                &&& after.phase == LifecyclePhase::BackoffWait
                &&& action == ActionView::Backoff { secs: backoff_secs(after.restart_count) }
            } else {
                &&& after.restart_count == s.config.max_restarts
                &&& after.phase == LifecyclePhase::MaxRestartsExceeded
                &&& action == ActionView::Finished(
                    Err(
                        ErrorView::MaxRestartsExceeded {
                            attempts: s.config.max_restarts,
                            last_error: display_text(error),
                        },
                    ),
                )
            }
        }),
{
}

/// The restart count starts over with every line: after a line was read
/// while running, and not lost to a consumer that is gone, the next crash is
/// followed by the first restart and its pause of one second, whatever the
/// count was before. Where no restart is allowed at all, that crash ends the
/// subscription with no attempt counted.
pub proof fn lemma_line_resets_restart_count(
    s: ManagerState,
    delivery: Delivery,
    crash: ProcessEvent,
)
    requires
        s.wf(),
        s.phase == LifecyclePhase::Running,
        delivery != Delivery::ConsumerGone,
        is_crash(crash),
        !(crash is SpawnFailed),
    ensures
        ({
            let read = s.line_read(delivery).0;
            let (after, action) = read.next(crash, Delivery::Sent);
            &&& read.restart_count == 0
            &&& read.phase == LifecyclePhase::Running
            &&& if s.config.max_restarts > 0 {
                after.restart_count == 1 && action == ActionView::Backoff { secs: 1 }
            } else {
                after.restart_count == 0 && after.phase == LifecyclePhase::MaxRestartsExceeded
                    && action == ActionView::Finished(after.terminal_result())
            }
        }),
{
}

/// The run of a crashing process from a manager that is about to spawn, with
/// `n` restarts still allowed: if the crashes are more than `n`, the manager
/// restarts exactly `n` times and then fails for good, reporting the ceiling;
/// if they are at most `n`, it has restarted once for each and waits for the
/// answer to its last spawn.
pub proof fn lemma_crash_loop(s: ManagerState, crashes: Seq<ProcessEvent>)
    requires
        s.wf(),
        s.phase == LifecyclePhase::Spawning,
        forall|i: int| 0 <= i < crashes.len() ==> is_crash(#[trigger] crashes[i]),
    ensures
        ({
            let run = crash_loop(s, ActionView::Spawn, crashes);
            let allowed = s.config.max_restarts - s.restart_count;
            &&& run.state.wf()
            &&& run.state.config == s.config
            &&& run.state.args == s.args
            &&& if crashes.len() > allowed {
                &&& run.restarts == allowed
                &&& run.state.phase == LifecyclePhase::MaxRestartsExceeded
                &&& run.state.restart_count == s.config.max_restarts
                &&& !run.state.healthy
                &&& !run.state.has_child
                &&& run.action == ActionView::Finished(
                    Err(
                        ErrorView::MaxRestartsExceeded {
                            attempts: s.config.max_restarts,
                            last_error: run.state.last_error,
                        },
                    ),
                )
            } else {
                &&& run.restarts == crashes.len()
                &&& run.state.phase == LifecyclePhase::Spawning
                &&& run.state.restart_count == s.restart_count + crashes.len()
                &&& run.action == ActionView::Spawn
            }
        }),
    decreases crashes.len(),
{
    if crashes.len() > 0 {
        let crash = crashes[0];
        assert(is_crash(crash));
        let down = failed_attempt(s, crash);
        let rest = crashes.skip(1);
        assert forall|i: int| 0 <= i < rest.len() implies is_crash(#[trigger] rest[i]) by {
            assert(rest[i] == crashes[i + 1]);
        }
        let run = crash_loop(s, ActionView::Spawn, crashes);
        if s.restart_count < s.config.max_restarts {
            assert(down.1 is Backoff);
            let up = down.0.next(ProcessEvent::BackoffElapsed, Delivery::Sent);
            let tail = crash_loop(up.0, up.1, rest);
            assert(run == Supervision { restarts: tail.restarts + 1, ..tail });
            assert(up.1 == ActionView::Spawn);
            assert(up.0.phase == LifecyclePhase::Spawning);
            assert(up.0.restart_count == s.restart_count + 1);
            lemma_crash_loop(up.0, rest);
        } else {
            assert(down.0.phase == LifecyclePhase::MaxRestartsExceeded);
            assert(run == Supervision { state: down.0, action: down.1, restarts: 0 });
        }
    }
}

/// The restart ceiling: a manager with `max_restarts = N` whose process
/// crashes every time restarts it exactly N times after the first spawn and
/// then fails for good with `MaxRestartsExceeded`, reporting N attempts and
/// the last error seen; no further spawn follows. While at most N crashes
/// have been seen, each has been followed by one restart.
pub proof fn lemma_restart_ceiling(
    idle: ManagerState,
    args: Seq<Seq<char>>,
    crashes: Seq<ProcessEvent>,
)
    requires
        idle.wf(),
        idle.phase == LifecyclePhase::Idle,
        forall|i: int| 0 <= i < crashes.len() ==> is_crash(#[trigger] crashes[i]),
    ensures
        ({
            let (first, action) = idle.started(args);
            let run = crash_loop(first, action, crashes);
            let ceiling = idle.config.max_restarts;
            &&& action == ActionView::Spawn
            &&& run.state.args == args
            &&& if crashes.len() > ceiling {
                &&& run.restarts == ceiling
                &&& run.state.phase == LifecyclePhase::MaxRestartsExceeded
                &&& !run.state.healthy
                &&& run.action == ActionView::Finished(
                    Err(
                        ErrorView::MaxRestartsExceeded {
                            attempts: ceiling,
                            last_error: run.state.last_error,
                        },
                    ),
                )
            } else {
                &&& run.restarts == crashes.len()
                &&& run.action == ActionView::Spawn
            }
        }),
{
    let (first, action) = idle.started(args);
    lemma_crash_loop(first, crashes);
}

/// Stopping twice is stopping once: after a stop, carried through to its end
/// where a process was held, a second stop finds nothing to do and changes
/// nothing, and the manager is unhealthy after either.
pub proof fn lemma_stop_is_idempotent(s: ManagerState, wait: TerminationWait)
    requires
        s.wf(),
    ensures
        ({
            let (first, step) = s.stopped();
            let settled = if step is Terminate {
                first.stop_completed(wait).0
            } else {
                first
            };
            &&& !first.healthy
            &&& !settled.healthy
            &&& !settled.has_child
            &&& settled.wf()
            &&& settled.stopped() == (settled, StopStep::Done)
        }),
{
}

/// A stop on a manager that was never started succeeds at once, touches no
/// process and leaves the manager idle.
pub proof fn lemma_stop_when_idle(s: ManagerState)
    requires
        s.wf(),
        s.phase == LifecyclePhase::Idle,
    ensures
        s.stopped() == (s, StopStep::Done),
{
}

} // verus!
