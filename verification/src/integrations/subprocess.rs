//! The lifecycle of one supervised subprocess.
//!
//! A [`SubprocessManager`] decides; it performs no input or output itself. Its
//! owner creates processes, reads their streams, keeps the timers and hands
//! each happening to [`SubprocessManager::step`] as a [`ProcessEvent`]. The
//! manager answers with the [`Action`] to take next. Lines read from the
//! process leave through a bounded channel whose sender the manager holds; a
//! line that finds the channel full is dropped, so the reader never waits.
//!
//! After a crash the process is spawned again, up to `max_restarts` times in
//! a row: each restart is counted and follows a pause that doubles from one
//! restart to the next, up to eight seconds. A crash that finds the count at
//! `max_restarts` ends the subscription for good. A line read from the
//! process resets the count.

use crate::integrations::adapter::{max_channel_capacity, AdapterConfig};
use crate::integrations::error::{display_text, ErrorView, IntegrationError, IntegrationResult};
use crate::text::{join_with_spaces, joined, lines, owned_texts, texts};
use vstd::arithmetic::power2::{lemma2_to64, lemma_pow2_strictly_increases, pow2};
use vstd::prelude::*;
use vstd::string::*;
use vstd::utf8::{decode_utf8, valid_utf8};

verus! {

#[verifier::external_type_specification]
#[verifier::external_body]
#[verifier::reject_recursive_types(T)]
pub struct ExSender<T>(tokio::sync::mpsc::Sender<T>);

#[verifier::external_type_specification]
#[verifier::external_body]
#[verifier::reject_recursive_types(T)]
pub struct ExReceiver<T>(tokio::sync::mpsc::Receiver<T>);

/// The capacity that a channel was created with, as `Sender::max_capacity`
/// reports it. It never changes while the channel lives.
pub uninterp spec fn channel_bound(tx: tokio::sync::mpsc::Sender<String>) -> nat;

/// What `String::from_utf8_lossy` makes of a byte sequence.
pub uninterp spec fn utf8_lossy(bytes: Seq<u8>) -> Seq<char>;

/// Where a line handed to the output channel ended up.
#[derive(Debug, Clone, Copy, PartialEq, Eq, Structural)]
pub enum Delivery {
    /// The line is in the channel.
    Sent,
    /// The channel was full: the line is lost.
    Dropped,
    /// The consumer has dropped its receiver: the line is lost.
    ConsumerGone,
}

/// `tokio::sync::mpsc::channel`: a bounded channel of lines. It panics on a
/// capacity of zero or above the semaphore's limit, so both are left out. The
/// sender reports the capacity it was made with.
#[verifier::external_body]
fn line_channel(capacity: usize) -> (ends: (
    tokio::sync::mpsc::Sender<String>,
    tokio::sync::mpsc::Receiver<String>,
))
    requires
        0 < capacity <= max_channel_capacity(),
    ensures
        channel_bound(ends.0) == capacity,
{
    tokio::sync::mpsc::channel(capacity)
}

/// `Sender::try_send`: hands a line to the channel without waiting. Whether
/// there is room, and whether the receiver still exists, depends on the
/// consumer, so nothing is claimed of the outcome.
#[verifier::external_body]
fn try_send_line(tx: &tokio::sync::mpsc::Sender<String>, line: String) -> (delivery: Delivery) {
    match tx.try_send(line) {
        Ok(()) => Delivery::Sent,
        Err(tokio::sync::mpsc::error::TrySendError::Full(_)) => Delivery::Dropped,
        Err(tokio::sync::mpsc::error::TrySendError::Closed(_)) => Delivery::ConsumerGone,
    }
}

/// `Sender::max_capacity`: the capacity the channel was created with.
#[verifier::external_body]
fn sender_bound(tx: &tokio::sync::mpsc::Sender<String>) -> (bound: usize)
    ensures
        bound == channel_bound(*tx),
{
    tx.max_capacity()
}

/// `String::from_utf8_lossy`: decodes bytes as UTF-8 and puts U+FFFD in the
/// place of each invalid sequence. Valid input is decoded as it stands.
#[verifier::external_body]
fn decode_lossy(bytes: &Vec<u8>) -> (text: String)
    ensures
        text@ == utf8_lossy(bytes@),
        valid_utf8(bytes@) ==> text@ == decode_utf8(bytes@),
{
    String::from_utf8_lossy(bytes).into_owned()
}

/// The stages of a manager's life.
#[derive(Debug, Clone, Copy, PartialEq, Eq, Structural)]
pub enum LifecyclePhase {
    /// Created, never started.
    Idle,
    /// A spawn has been asked for and not yet answered.
    Spawning,
    /// A process is held and its streams are being read.
    Running,
    /// The pause between a crash and the next spawn.
    BackoffWait,
    /// Ended by a stop request or because the consumer is gone. Terminal.
    Stopped,
    /// Ended because the crash count reached its ceiling. Terminal.
    MaxRestartsExceeded,
}

/// What a poll of the process status found.
#[derive(Debug, Clone, Copy)]
pub enum ProcessStatus {
    /// The process is still running.
    Running,
    /// The process has exited, with this exit code where it has one.
    Exited(Option<i32>),
    /// The status could not be read.
    Unknown,
}

/// What can happen to a supervised process.
#[derive(Debug)]
pub enum ProcessEvent {
    /// The operating system created the process.
    Spawned,
    /// The operating system could not create the process.
    SpawnFailed { not_found: bool, reason: String },
    /// A line arrived on the primary output stream.
    StdoutLine(String),
    /// The primary output stream ended.
    StdoutClosed,
    /// Reading the primary output stream failed.
    StdoutFailed(String),
    /// A line arrived on the error stream.
    StderrLine(String),
    /// The error stream ended.
    StderrClosed,
    /// Reading the error stream failed.
    StderrFailed(String),
    /// The health-check timer fired and the process status was polled.
    HealthTick(ProcessStatus),
    /// The cancellation signal fired.
    ShutdownSignal,
    /// The back-off pause is over.
    BackoffElapsed,
}

/// What the owner of a manager is to do next.
#[derive(Debug)]
pub enum Action {
    /// Create the process from the manager's command and arguments, each
    /// argument passed as it stands, and report `Spawned` or `SpawnFailed`.
    Spawn,
    /// Discard the crashed process, wait `secs` seconds and report
    /// `BackoffElapsed`.
    Backoff { secs: u64 },
    /// Nothing new: keep waiting for the next event.
    Continue,
    /// The line found the channel full and was dropped: keep waiting for the
    /// next event.
    LineDropped,
    /// The subscription is over with this result. No spawn follows.
    Finished(IntegrationResult<()>),
}

/// An [`Action`], with the error of a failed subscription as its view.
pub ghost enum ActionView {
    Spawn,
    Backoff { secs: u64 },
    Continue,
    LineDropped,
    Finished(Result<(), ErrorView>),
}

impl View for Action {
    type V = ActionView;

    open spec fn view(&self) -> ActionView {
        match self {
            Action::Spawn => ActionView::Spawn,
            Action::Backoff { secs } => ActionView::Backoff { secs: *secs },
            Action::Continue => ActionView::Continue,
            Action::LineDropped => ActionView::LineDropped,
            Action::Finished(Ok(_)) => ActionView::Finished(Ok(())),
            Action::Finished(Err(e)) => ActionView::Finished(Err(e@)),
        }
    }
}

/// The first step of a stop.
#[derive(Debug, Clone, Copy, PartialEq, Eq)]
pub enum StopStep {
    /// No process is held. The stop has succeeded and no process is touched.
    Done,
    /// Ask the process to terminate, wait up to `grace_secs` seconds for it to
    /// exit, and report what happened with `complete_stop`.
    Terminate { grace_secs: u64 },
}

/// How the wait for a process that was asked to terminate ended.
#[derive(Debug, Clone, Copy, PartialEq, Eq, Structural)]
pub enum TerminationWait {
    /// The process exited in time.
    Exited,
    /// Waiting for the process failed.
    WaitFailed,
    /// The grace period ran out.
    GraceExpired,
}

/// The last step of a stop. Either way the stop has succeeded.
#[derive(Debug, Clone, Copy, PartialEq, Eq, Structural)]
pub enum StopCompletion {
    /// The process is gone.
    Done,
    /// The process did not exit in time: kill it.
    ForceKill,
}

/// How a one-shot invocation ended, with the captured output as bytes.
#[derive(Debug)]
pub enum CallOutcome {
    /// The deadline passed before the process exited.
    TimedOut,
    /// The operating system could not create the process.
    SpawnFailed { not_found: bool, reason: String },
    /// The process exited.
    Exited { success: bool, code: Option<i32>, stdout: Vec<u8>, stderr: Vec<u8> },
}

/// How a one-shot invocation ended, with the captured output as text.
#[derive(Debug)]
pub enum CallReport {
    /// The deadline passed before the process exited.
    TimedOut,
    /// The operating system could not create the process.
    SpawnFailed { not_found: bool, reason: String },
    /// The process exited.
    Exited { success: bool, code: Option<i32>, stdout: String, stderr: String },
}

/// A [`CallReport`] with each text as its characters.
pub ghost enum CallReportView {
    TimedOut,
    SpawnFailed { not_found: bool, reason: Seq<char> },
    Exited { success: bool, code: Option<i32>, stdout: Seq<char>, stderr: Seq<char> },
}

impl View for CallReport {
    type V = CallReportView;

    open spec fn view(&self) -> CallReportView {
        match self {
            CallReport::TimedOut => CallReportView::TimedOut,
            CallReport::SpawnFailed { not_found, reason } => CallReportView::SpawnFailed {
                not_found: *not_found,
                reason: reason@,
            },
            CallReport::Exited { success, code, stdout, stderr } => CallReportView::Exited {
                success: *success,
                code: *code,
                stdout: stdout@,
                stderr: stderr@,
            },
        }
    }
}

/// The report that an outcome gives once its output is decoded.
pub open spec fn decoded(outcome: CallOutcome) -> CallReportView {
    match outcome {
        CallOutcome::TimedOut => CallReportView::TimedOut,
        CallOutcome::SpawnFailed { not_found, reason } => CallReportView::SpawnFailed {
            not_found,
            reason: reason@,
        },
        CallOutcome::Exited { success, code, stdout, stderr } => CallReportView::Exited {
            success,
            code,
            stdout: utf8_lossy(stdout@),
            stderr: utf8_lossy(stderr@),
        },
    }
}

/// The exit code that is reported for a process: its own, or -1 where it has
/// none.
pub open spec fn reported_code(code: Option<i32>) -> i32 {
    match code {
        Some(c) => c,
        None => -1i32,
    }
}

/// The error for a process that could not be created.
pub open spec fn spawn_error(command: Seq<char>, not_found: bool, reason: Seq<char>) -> ErrorView {
    if not_found {
        ErrorView::CliNotFound(command)
    } else {
        ErrorView::SpawnFailed(reason)
    }
}

/// What a one-shot call of `command` with `args` returns for a report: the
/// output of a process that succeeded, and otherwise the error that says how
/// it failed. A call that timed out returns no output at all.
pub open spec fn call_result(
    command: Seq<char>,
    timeout_secs: u64,
    args: Seq<Seq<char>>,
    report: CallReportView,
) -> Result<Seq<char>, ErrorView> {
    match report {
        CallReportView::TimedOut => Err(
            ErrorView::Timeout {
                operation: command + " "@ + joined(args, " "@),
                duration_secs: timeout_secs,
            },
        ),
        CallReportView::SpawnFailed { not_found, reason } => Err(
            spawn_error(command, not_found, reason),
        ),
        CallReportView::Exited { success, code, stdout, stderr } => if success {
            Ok(stdout)
        } else {
            Err(ErrorView::ProcessExited { code: reported_code(code), stderr })
        },
    }
}

/// The view of what a call returns.
pub open spec fn output_view(r: IntegrationResult<String>) -> Result<Seq<char>, ErrorView> {
    match r {
        Ok(s) => Ok(s@),
        Err(e) => Err(e@),
    }
}

/// The pause, in seconds, before the restart that brings the count of
/// consecutive restarts to `restart_count`: 1, 2, 4, and 8 from the fourth
/// on. (A count of zero, which no restart has, gets the pause of the first.)
pub open spec fn backoff_secs(restart_count: u8) -> u64 {
    if restart_count <= 1 {
        1
    } else if restart_count == 2 {
        2
    } else if restart_count == 3 {
        4
    } else {
        8
    }
}

/// The back-off formula: the pause before the restart that brings the count
/// to `restart_count` is two to the power of `restart_count - 1` seconds,
/// capped at eight seconds.
pub proof fn lemma_backoff_doubles_up_to_eight(restart_count: u8)
    requires
        restart_count >= 1,
    ensures
        backoff_secs(restart_count) == if pow2((restart_count - 1) as nat) <= 8 {
            pow2((restart_count - 1) as nat)
        } else {
            8
        },
        restart_count <= 4 ==> backoff_secs(restart_count) == pow2((restart_count - 1) as nat),
        restart_count >= 4 ==> backoff_secs(restart_count) == 8,
{
    lemma2_to64();
    if restart_count > 4 {
        lemma_pow2_strictly_increases(3, (restart_count - 1) as nat);
    }
}

/// What a manager knows, as plain values.
pub ghost struct ManagerState {
    /// The executable.
    pub command: Seq<char>,
    /// The tunables.
    pub config: AdapterConfig,
    /// The arguments of the subscription.
    pub args: Seq<Seq<char>>,
    /// The stage of the lifecycle.
    pub phase: LifecyclePhase,
    /// Consecutive crashes since the last line was read.
    pub restart_count: u8,
    /// Whether the process was last seen alive.
    pub healthy: bool,
    /// Whether a process is held.
    pub has_child: bool,
    /// The text of the last crash's error; empty before the first crash.
    pub last_error: Seq<char>,
}

impl ManagerState {
    /// Whether a subscription is under way.
    pub open spec fn active(self) -> bool {
        self.phase == LifecyclePhase::Spawning || self.phase == LifecyclePhase::Running
            || self.phase == LifecyclePhase::BackoffWait
    }

    /// What every manager satisfies: it is healthy only while it runs a
    /// process, it holds a process while it runs and at most until a stop is
    /// completed, the restart count never passes its ceiling, and it is zero
    /// before the start.
    pub open spec fn wf(self) -> bool {
        &&& self.config.valid()
        &&& self.healthy ==> self.has_child && self.phase == LifecyclePhase::Running
        &&& self.has_child ==> self.phase == LifecyclePhase::Running || self.phase
            == LifecyclePhase::Stopped
        &&& self.phase == LifecyclePhase::Running ==> self.has_child
        &&& self.restart_count <= self.config.max_restarts
        &&& self.phase == LifecyclePhase::Idle ==> self.restart_count == 0
    }

    /// The result that a manager in a terminal phase reports.
    pub open spec fn terminal_result(self) -> Result<(), ErrorView> {
        if self.phase == LifecyclePhase::MaxRestartsExceeded {
            Err(
                ErrorView::MaxRestartsExceeded {
                    attempts: self.restart_count,
                    last_error: self.last_error,
                },
            )
        } else {
            Ok(())
        }
    }

    /// A crash with `error`: the process is gone and the error is remembered.
    /// While the restart count is below `max_restarts`, the restart is
    /// counted and follows after the pause for the new count. Otherwise the
    /// subscription has failed for good, with the count as its attempts and
    /// `error` as the last one seen.
    pub open spec fn crashed(self, error: ErrorView) -> (ManagerState, ActionView) {
        let down = ManagerState {
            healthy: false,
            has_child: false,
            last_error: display_text(error),
            ..self
        };
        if self.restart_count < self.config.max_restarts {
            let count = (self.restart_count + 1) as u8;
            (
                ManagerState { phase: LifecyclePhase::BackoffWait, restart_count: count, ..down },
                ActionView::Backoff { secs: backoff_secs(count) },
            )
        } else {
            let end = ManagerState { phase: LifecyclePhase::MaxRestartsExceeded, ..down };
            (end, ActionView::Finished(end.terminal_result()))
        }
    }

    /// The end of a subscription that did not fail: a stop was asked for, or
    /// the consumer is gone.
    pub open spec fn shut_down(self) -> (ManagerState, ActionView) {
        (
            ManagerState { phase: LifecyclePhase::Stopped, healthy: false, ..self },
            ActionView::Finished(Ok(())),
        )
    }

    /// A line was read while running and handed to the channel with the
    /// outcome `delivery`: the crash count starts over, and the subscription
    /// goes on unless the consumer is gone.
    pub open spec fn line_read(self, delivery: Delivery) -> (ManagerState, ActionView) {
        let fresh = ManagerState { restart_count: 0, ..self };
        match delivery {
            Delivery::Sent => (fresh, ActionView::Continue),
            Delivery::Dropped => (fresh, ActionView::LineDropped),
            Delivery::ConsumerGone => fresh.shut_down(),
        }
    }

    /// The start of a subscription with `args`. An idle manager spawns its
    /// process; a terminal one reports its result again, a busy one carries
    /// on.
    pub open spec fn started(self, args: Seq<Seq<char>>) -> (ManagerState, ActionView) {
        match self.phase {
            LifecyclePhase::Idle => (
                ManagerState { args, phase: LifecyclePhase::Spawning, ..self },
                ActionView::Spawn,
            ),
            LifecyclePhase::Stopped | LifecyclePhase::MaxRestartsExceeded => (
                self,
                ActionView::Finished(self.terminal_result()),
            ),
            _ => (self, ActionView::Continue),
        }
    }

    /// The state after `event` and the action that answers it. `delivery` is
    /// what the channel made of the line; it matters only for a line read
    /// while running.
    pub open spec fn next(self, event: ProcessEvent, delivery: Delivery) -> (
        ManagerState,
        ActionView,
    ) {
        match self.phase {
            LifecyclePhase::Idle => (self, ActionView::Finished(Err(ErrorView::NotRunning))),
            LifecyclePhase::Stopped | LifecyclePhase::MaxRestartsExceeded => (
                self,
                ActionView::Finished(self.terminal_result()),
            ),
            LifecyclePhase::Spawning => match event {
                ProcessEvent::ShutdownSignal => self.shut_down(),
                ProcessEvent::Spawned => (
                    ManagerState {
                        phase: LifecyclePhase::Running,
                        healthy: true,
                        has_child: true,
                        ..self
                    },
                    ActionView::Continue,
                ),
                ProcessEvent::SpawnFailed { not_found, reason } => self.crashed(
                    spawn_error(self.command, not_found, reason@),
                ),
                _ => (self, ActionView::Continue),
            },
            LifecyclePhase::BackoffWait => match event {
                ProcessEvent::ShutdownSignal => self.shut_down(),
                ProcessEvent::BackoffElapsed => (
                    ManagerState { phase: LifecyclePhase::Spawning, ..self },
                    ActionView::Spawn,
                ),
                _ => (self, ActionView::Continue),
            },
            LifecyclePhase::Running => match event {
                ProcessEvent::ShutdownSignal => self.shut_down(),
                ProcessEvent::StdoutLine(_) => self.line_read(delivery),
                ProcessEvent::StdoutClosed => self.crashed(
                    ErrorView::ProcessExited { code: 0, stderr: "Process ended unexpectedly"@ },
                ),
                ProcessEvent::StdoutFailed(reason) => self.crashed(ErrorView::IoError(reason@)),
                ProcessEvent::HealthTick(ProcessStatus::Exited(code)) => self.crashed(
                    ErrorView::ProcessExited {
                        code: reported_code(code),
                        stderr: "Process exited during health check"@,
                    },
                ),
                ProcessEvent::HealthTick(ProcessStatus::Running) => (
                    ManagerState { healthy: true, ..self },
                    ActionView::Continue,
                ),
                _ => (self, ActionView::Continue),
            },
        }
    }

    /// The first step of a stop: the subscription is over, and a process that
    /// is held is asked to terminate within the grace period. An idle or
    /// terminal manager that holds no process is left as it is.
    pub open spec fn stopped(self) -> (ManagerState, StopStep) {
        if self.has_child {
            (
                ManagerState { phase: LifecyclePhase::Stopped, healthy: false, ..self },
                StopStep::Terminate { grace_secs: self.config.shutdown_timeout_secs },
            )
        } else if self.active() {
            (ManagerState { phase: LifecyclePhase::Stopped, healthy: false, ..self }, StopStep::Done)
        } else {
            (ManagerState { healthy: false, ..self }, StopStep::Done)
        }
    }

    /// The last step of a stop: the process is given up, and is to be killed
    /// where it did not exit within the grace period. A manager that holds no
    /// process is left as it is.
    pub open spec fn stop_completed(self, wait: TerminationWait) -> (
        ManagerState,
        StopCompletion,
    ) {
        if self.has_child {
            (
                ManagerState {
                    phase: LifecyclePhase::Stopped,
                    healthy: false,
                    has_child: false,
                    ..self
                },
                if wait == TerminationWait::GraceExpired {
                    StopCompletion::ForceKill
                } else {
                    StopCompletion::Done
                },
            )
        } else {
            (self, StopCompletion::Done)
        }
    }
}

/// Manages the lifecycle of a subprocess for CLI integrations.
pub struct SubprocessManager {
    /// CLI command to execute.
    command: String,
    /// Configuration for restart behavior, timeouts, etc.
    config: AdapterConfig,
    /// Arguments of the subscription.
    args: Vec<String>,
    /// Stage of the lifecycle.
    phase: LifecyclePhase,
    /// Consecutive crashes since the last line was read.
    restart_count: u8,
    /// Whether the process was last seen alive.
    is_healthy: bool,
    /// Whether a process is held.
    has_child: bool,
    /// Text of the last crash's error.
    last_error: String,
    /// Sender for output lines.
    output_tx: tokio::sync::mpsc::Sender<String>,
}

impl View for SubprocessManager {
    type V = ManagerState;

    closed spec fn view(&self) -> ManagerState {
        ManagerState {
            command: self.command@,
            config: self.config,
            args: lines(self.args@),
            phase: self.phase,
            restart_count: self.restart_count,
            healthy: self.is_healthy,
            has_child: self.has_child,
            last_error: self.last_error@,
        }
    }
}

impl SubprocessManager {
    /// The capacity that the output channel was created with.
    pub closed spec fn output_bound(&self) -> nat {
        channel_bound(self.output_tx)
    }

    /// What every manager satisfies: its state is well formed and its output
    /// channel is bounded by the configured capacity.
    pub open spec fn wf(&self) -> bool {
        &&& self@.wf()
        &&& self.output_bound() == self@.config.channel_capacity
    }

    /// Create a new subprocess manager for `command`, together with the
    /// receiver of its output lines. The channel between them holds at most
    /// `config.channel_capacity` lines.
    pub fn new(command: &str, config: AdapterConfig) -> (created: (
        Self,
        tokio::sync::mpsc::Receiver<String>,
    ))
        requires
            config.valid(),
        ensures
            created.0.wf(),
            created.0@ == (ManagerState {
                command: command@,
                config,
                args: Seq::<Seq<char>>::empty(),
                phase: LifecyclePhase::Idle,
                restart_count: 0,
                healthy: false,
                has_child: false,
                last_error: Seq::<char>::empty(),
            }),
    {
        let (output_tx, output_rx) = line_channel(config.channel_capacity);
        let manager = SubprocessManager {
            command: String::from_str(command),
            config,
            args: Vec::new(),
            phase: LifecyclePhase::Idle,
            restart_count: 0,
            is_healthy: false,
            has_child: false,
            last_error: String::new(),
            output_tx,
        };
        assert(lines(manager.args@) =~= Seq::<Seq<char>>::empty());
        (manager, output_rx)
    }

    /// The result of a one-shot call with `args` whose outcome, with the
    /// output already decoded, is `report`.
    pub fn interpret_call(&self, args: &[&str], report: CallReport) -> (result:
        IntegrationResult<String>)
        ensures
            output_view(result) == call_result(
                self@.command,
                self@.config.call_timeout_secs,
                texts(args@),
                report@,
            ),
    {
        match report {
            CallReport::TimedOut => {
                let mut operation = self.command.clone();
                operation.append(" ");
                let joined_args = join_with_spaces(args);
                operation.append(joined_args.as_str());
                Err(
                    IntegrationError::Timeout {
                        operation,
                        duration_secs: self.config.call_timeout_secs,
                    },
                )
            },
            CallReport::SpawnFailed { not_found, reason } => {
                if not_found {
                    Err(IntegrationError::CliNotFound(self.command.clone()))
                } else {
                    Err(IntegrationError::SpawnFailed(reason))
                }
            },
            CallReport::Exited { success, code, stdout, stderr } => {
                if success {
                    Ok(stdout)
                } else {
                    let code: i32 = match code {
                        Some(c) => c,
                        None => -1,
                    };
                    Err(IntegrationError::ProcessExited { code, stderr })
                }
            },
        }
    }

    /// The result of a one-shot call with `args` that ended with `outcome`:
    /// the captured output is decoded leniently as UTF-8, then the call is
    /// judged as [`SubprocessManager::interpret_call`] does.
    pub fn call(&self, args: &[&str], outcome: CallOutcome) -> (result: IntegrationResult<String>)
        ensures
            output_view(result) == call_result(
                self@.command,
                self@.config.call_timeout_secs,
                texts(args@),
                decoded(outcome),
            ),
    {
        let report = match outcome {
            CallOutcome::TimedOut => CallReport::TimedOut,
            CallOutcome::SpawnFailed { not_found, reason } => CallReport::SpawnFailed {
                not_found,
                reason,
            },
            CallOutcome::Exited { success, code, stdout, stderr } => CallReport::Exited {
                success,
                code,
                stdout: decode_lossy(&stdout),
                stderr: decode_lossy(&stderr),
            },
        };
        self.interpret_call(args, report)
    }

    /// The result that a manager in a terminal phase reports.
    fn terminal_result(&self) -> (result: IntegrationResult<()>)
        ensures
            crate::integrations::error::result_view(result) == self@.terminal_result(),
    {
        match self.phase {
            LifecyclePhase::MaxRestartsExceeded => {
                Err(
                    IntegrationError::MaxRestartsExceeded {
                        attempts: self.restart_count,
                        last_error: self.last_error.clone(),
                    },
                )
            },
            _ => Ok(()),
        }
    }

    /// A crash with `error`.
    fn crashed(&mut self, error: IntegrationError) -> (action: Action)
        requires
            old(self).wf(),
            old(self)@.active(),
        ensures
            (final(self)@, action@) == old(self)@.crashed(error@),
            final(self).wf(),
    {
        self.last_error = error.to_string();
        self.is_healthy = false;
        self.has_child = false;
        if self.restart_count < self.config.max_restarts {
            self.restart_count = self.restart_count + 1;
            self.phase = LifecyclePhase::BackoffWait;
            Action::Backoff { secs: self.calculate_backoff(self.restart_count) }
        } else {
            self.phase = LifecyclePhase::MaxRestartsExceeded;
            Action::Finished(self.terminal_result())
        }
    }

    /// The end of a subscription that did not fail.
    fn shut_down(&mut self) -> (action: Action)
        requires
            old(self).wf(),
            old(self)@.active(),
        ensures
            (final(self)@, action@) == old(self)@.shut_down(),
            final(self).wf(),
    {
        self.phase = LifecyclePhase::Stopped;
        self.is_healthy = false;
        Action::Finished(Ok(()))
    }

    /// Start a subscription with `args`. An idle manager spawns its process.
    /// A manager that has ended reports its result again, and one whose
    /// subscription is under way carries on. The arguments are kept as they
    /// are given, one text each.
    pub fn start(&mut self, args: &[&str]) -> (action: Action)
        requires
            old(self).wf(),
        ensures
            final(self).wf(),
            (final(self)@, action@) == old(self)@.started(texts(args@)),
    {
        match self.phase {
            LifecyclePhase::Idle => {
                self.args = owned_texts(args);
                self.phase = LifecyclePhase::Spawning;
                Action::Spawn
            },
            LifecyclePhase::Stopped | LifecyclePhase::MaxRestartsExceeded => Action::Finished(
                self.terminal_result(),
            ),
            _ => Action::Continue,
        }
    }

    /// Account for a line that was read while running and handed to the
    /// output channel with the outcome `delivery`. In any other phase nothing
    /// changes.
    pub fn line_forwarded(&mut self, delivery: Delivery) -> (action: Action)
        requires
            old(self).wf(),
        ensures
            final(self).wf(),
            old(self)@.phase == LifecyclePhase::Running ==> (final(self)@, action@) == old(
                self,
            )@.line_read(delivery),
            old(self)@.phase != LifecyclePhase::Running ==> final(self)@ == old(self)@ && action@
                == ActionView::Continue,
    {
        if self.phase != LifecyclePhase::Running {
            return Action::Continue;
        }
        self.restart_count = 0;
        match delivery {
            Delivery::Sent => Action::Continue,
            Delivery::Dropped => Action::LineDropped,
            Delivery::ConsumerGone => self.shut_down(),
        }
    }

    /// Handle one event and say what to do next.
    ///
    /// A line read while running is handed to the output channel without
    /// waiting; what became of it is the channel's to say, so for such an
    /// event the new state is the one that [`ManagerState::next`] gives for
    /// one of the three deliveries. For every other event the delivery plays
    /// no part.
    pub fn step(&mut self, event: ProcessEvent) -> (action: Action)
        requires
            old(self).wf(),
        ensures
            final(self).wf(),
            exists|delivery: Delivery|
                (final(self)@, action@) == #[trigger] old(self)@.next(event, delivery),
            !(old(self)@.phase == LifecyclePhase::Running && event is StdoutLine) ==> (
                final(self)@,
                action@,
            ) == old(self)@.next(event, Delivery::Sent),
    {
        let ghost before = self@;
        let action = match self.phase {
            LifecyclePhase::Idle => Action::Finished(Err(IntegrationError::NotRunning)),
            LifecyclePhase::Stopped | LifecyclePhase::MaxRestartsExceeded => Action::Finished(
                self.terminal_result(),
            ),
            LifecyclePhase::Spawning => match event {
                ProcessEvent::ShutdownSignal => self.shut_down(),
                ProcessEvent::Spawned => {
                    self.phase = LifecyclePhase::Running;
                    self.is_healthy = true;
                    self.has_child = true;
                    Action::Continue
                },
                ProcessEvent::SpawnFailed { not_found, reason } => {
                    let error = if not_found {
                        IntegrationError::CliNotFound(self.command.clone())
                    } else {
                        IntegrationError::SpawnFailed(reason)
                    };
                    self.crashed(error)
                },
                _ => Action::Continue,
            },
            LifecyclePhase::BackoffWait => match event {
                ProcessEvent::ShutdownSignal => self.shut_down(),
                ProcessEvent::BackoffElapsed => {
                    self.phase = LifecyclePhase::Spawning;
                    Action::Spawn
                },
                _ => Action::Continue,
            },
            LifecyclePhase::Running => match event {
                ProcessEvent::ShutdownSignal => self.shut_down(),
                ProcessEvent::StdoutLine(line) => {
                    let delivery = try_send_line(&self.output_tx, line);
                    let action = self.line_forwarded(delivery);
                    assert((self@, action@) == before.next(event, delivery));
                    return action;
                },
                ProcessEvent::StdoutClosed => self.crashed(
                    IntegrationError::ProcessExited {
                        code: 0,
                        stderr: String::from_str("Process ended unexpectedly"),
                    },
                ),
                ProcessEvent::StdoutFailed(reason) => self.crashed(
                    IntegrationError::IoError(reason),
                ),
                ProcessEvent::HealthTick(ProcessStatus::Exited(code)) => {
                    let code: i32 = match code {
                        Some(c) => c,
                        None => -1,
                    };
                    self.crashed(
                        IntegrationError::ProcessExited {
                            code,
                            stderr: String::from_str("Process exited during health check"),
                        },
                    )
                },
                ProcessEvent::HealthTick(ProcessStatus::Running) => {
                    self.is_healthy = true;
                    Action::Continue
                },
                _ => Action::Continue,
            },
        };
        assert((self@, action@) == before.next(event, Delivery::Sent));
        action
    }

    /// Begin to stop the subprocess. The subscription is over from here on.
    /// Where a process is held, it is to be asked to terminate and given
    /// `shutdown_timeout_secs` seconds to exit; where none is held, the stop
    /// is done and no process is touched.
    pub fn stop(&mut self) -> (step: StopStep)
        requires
            old(self).wf(),
        ensures
            final(self).wf(),
            (final(self)@, step) == old(self)@.stopped(),
            !final(self)@.healthy,
    {
        if self.has_child {
            self.phase = LifecyclePhase::Stopped;
            self.is_healthy = false;
            StopStep::Terminate { grace_secs: self.config.shutdown_timeout_secs }
        } else {
            match self.phase {
                LifecyclePhase::Spawning | LifecyclePhase::Running
                | LifecyclePhase::BackoffWait => {
                    self.phase = LifecyclePhase::Stopped;
                },
                _ => {},
            }
            self.is_healthy = false;
            StopStep::Done
        }
    }

    /// Finish a stop after the wait for the process ended with `wait`. The
    /// process is given up; it is to be killed where the grace period ran out.
    pub fn complete_stop(&mut self, wait: TerminationWait) -> (completion: StopCompletion)
        requires
            old(self).wf(),
        ensures
            final(self).wf(),
            (final(self)@, completion) == old(self)@.stop_completed(wait),
            !final(self)@.healthy,
            !final(self)@.has_child,
    {
        if !self.has_child {
            return StopCompletion::Done;
        }
        self.phase = LifecyclePhase::Stopped;
        self.is_healthy = false;
        self.has_child = false;
        if wait == TerminationWait::GraceExpired {
            StopCompletion::ForceKill
        } else {
            StopCompletion::Done
        }
    }

    /// Calculate the back-off pause, in seconds, before the restart that
    /// brings the count to `restart_count`: 1, 2, 4, then 8.
    pub fn calculate_backoff(&self, restart_count: u8) -> (secs: u64)
        ensures
            secs == backoff_secs(restart_count),
    {
        match restart_count {
            0 | 1 => 1,
            2 => 2,
            3 => 4,
            _ => 8,
        }
    }

    /// Check if the subprocess is currently healthy.
    pub fn is_healthy(&self) -> (healthy: bool)
        ensures
            healthy == self@.healthy,
    {
        self.is_healthy
    }

    /// Get the current restart count.
    pub fn restart_count(&self) -> (count: u8)
        ensures
            count == self@.restart_count,
    {
        self.restart_count
    }

    /// Reset the restart count (call after successful operation).
    pub fn reset_restart_count(&mut self)
        requires
            old(self).wf(),
        ensures
            final(self).wf(),
            final(self)@ == (ManagerState { restart_count: 0, ..old(self)@ }),
    {
        self.restart_count = 0;
    }

    /// The stage of the lifecycle.
    pub fn phase(&self) -> (phase: LifecyclePhase)
        ensures
            phase == self@.phase,
    {
        self.phase
    }

    /// Whether a process is held.
    pub fn has_child(&self) -> (held: bool)
        ensures
            held == self@.has_child,
    {
        self.has_child
    }

    /// The executable.
    pub fn command(&self) -> (command: &str)
        ensures
            command@ == self@.command,
    {
        self.command.as_str()
    }

    /// The arguments of the subscription, as they were given to `start`.
    pub fn args(&self) -> (args: &Vec<String>)
        ensures
            lines(args@) == self@.args,
    {
        &self.args
    }

    /// The configuration.
    pub fn config(&self) -> (config: AdapterConfig)
        ensures
            config == self@.config,
    {
        self.config
    }

    /// The capacity of the output channel: the most lines that it holds at
    /// any time.
    pub fn channel_capacity(&self) -> (capacity: usize)
        requires
            self.wf(),
        ensures
            capacity == self@.config.channel_capacity,
            capacity == self.output_bound(),
    {
        sender_bound(&self.output_tx)
    }
}

} // verus!
