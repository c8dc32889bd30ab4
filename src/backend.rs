//! Supervision of the backend server process.
//!
//! A [`BackendManager`] owns at most one backend process and decides, step
//! by step, what must happen to start it, to stop it and to restart it after
//! a crash. It performs no operating-system work itself: each step names an
//! [`Action`] for the caller to perform, and the caller reports what came of
//! it as an [`Event`]. An operation ends with a [`Step::Finished`] result.
//!
//! Starting clears a stale address artifact, spawns the command, then probes
//! the address at a fixed interval until it accepts a connection, the
//! process exits, or the startup deadline passes. Stopping asks the process
//! politely to terminate, waits a grace period, kills it if it still runs,
//! reaps it, and removes the address artifact.

use crate::config::BackendConfig;
use vstd::prelude::*;

verus! {

/// Pause between two readiness probes, in milliseconds.
pub const POLL_INTERVAL_MS: u64 = 100;

/// Time given to the process to stop after the polite signal, in milliseconds.
pub const GRACE_PERIOD_MS: u64 = 2000;

/// Errors of the supervisor.
#[derive(Debug, Clone, PartialEq, Eq)]
pub enum BackendError {
    /// The command could not be spawned.
    StartFailed(String),
    /// The process exited before its address became reachable.
    Crashed(String),
    /// The address was not reachable after this many seconds.
    StartupTimeout(u64),
    /// An operating-system error, as text.
    Io(String),
}

/// Answer to a non-blocking query of whether the process has exited.
#[derive(Debug, Clone, PartialEq, Eq)]
pub enum ExitCheck {
    /// The process still runs.
    Running,
    /// The process exited with this status.
    Exited(String),
    /// The query itself failed with this error.
    Unknown(String),
}

/// Work that the supervisor asks its caller to perform.
#[derive(Debug, Clone, Copy, PartialEq, Eq)]
pub enum Action {
    /// Remove the address artifact if it exists; report
    /// [`Event::StaleArtifactCleared`] or [`Event::StaleArtifactRemovalFailed`].
    RemoveStaleArtifact,
    /// Spawn the configured command with its arguments, working directory and
    /// environment, capturing its output; report [`Event::Spawned`] or
    /// [`Event::SpawnFailed`].
    Spawn,
    /// Measure the time since the spawn, try to connect to the address, and
    /// query whether the process exited; report [`Event::Probed`].
    Probe,
    /// Sleep this many milliseconds; report [`Event::Slept`].
    Sleep(u64),
    /// Send the polite termination signal to this process id; report
    /// [`Event::Signalled`] whatever the outcome.
    SendTerminate(i32),
    /// Query, without blocking, whether the process exited; report
    /// [`Event::ExitChecked`].
    QueryExit,
    /// Kill the process; report [`Event::Killed`].
    ForceKill,
    /// Wait for the process to exit and release it; report [`Event::Reaped`].
    Reap,
    /// Remove the address artifact if it exists, ignoring any failure;
    /// report [`Event::ArtifactRemoved`].
    RemoveArtifact,
}

/// What came of an [`Action`].
#[derive(Debug, Clone, PartialEq, Eq)]
pub enum Event {
    /// The stale address artifact is gone (or was never there).
    StaleArtifactCleared,
    /// The stale address artifact could not be removed.
    StaleArtifactRemovalFailed(String),
    /// The command was spawned as this process id.
    Spawned(u32),
    /// The command could not be spawned.
    SpawnFailed(String),
    /// A readiness probe: the milliseconds since the spawn, whether the
    /// address accepted a connection, and the exit status if the process has
    /// exited.
    Probed { elapsed_ms: u64, connectable: bool, exit: Option<String> },
    /// The requested sleep is over.
    Slept,
    /// The polite termination signal was sent (or could not be).
    Signalled,
    /// The answer of an exit query.
    ExitChecked(ExitCheck),
    /// The kill is done; the error, if it failed.
    Killed(Option<String>),
    /// The process was waited for; the error, if the wait failed.
    Reaped(Option<String>),
    /// The address artifact cleanup was attempted.
    ArtifactRemoved,
}

/// How an operation of the supervisor ended well.
#[derive(Debug, Clone, Copy, PartialEq, Eq)]
pub enum Outcome {
    /// `start`: the backend runs and its address is reachable.
    Started,
    /// `check_and_restart`: the backend had stopped and was started again.
    Restarted,
    /// `check_and_restart`: the backend still runs; nothing was done.
    Alive,
    /// `check_and_restart`: no backend runs and none was started.
    NotRunning,
    /// `stop`: no backend process is owned any more.
    Stopped,
}

/// The answer of the supervisor to a request or an event.
#[derive(Debug, PartialEq, Eq)]
pub enum Step {
    /// Perform this action and report what came of it.
    Do(Action),
    /// The operation in progress ended with this result.
    Finished(Result<Outcome, BackendError>),
    /// The request or event does not fit the current phase; nothing changed.
    Ignored,
}

/// Where the supervisor stands.
#[derive(Debug, Clone, PartialEq, Eq)]
pub enum Phase {
    /// No process is owned and no operation is in progress.
    Idle,
    /// Start: waiting for the stale artifact to be removed.
    ClearingArtifact { restart: bool },
    /// Start: waiting for the spawn.
    Spawning { restart: bool },
    /// Start: waiting for a readiness probe of process `pid`.
    Probing { pid: u32, restart: bool },
    /// Start: pausing between two probes of process `pid`.
    Pausing { pid: u32, restart: bool },
    /// Process `pid` is owned and no operation is in progress.
    Owning { pid: u32 },
    /// Health check: waiting for the exit query of process `pid`.
    Checking { pid: u32 },
    /// Stop: waiting for the polite signal to be sent.
    Signalling { pid: u32 },
    /// Stop: waiting out the grace period.
    Grace { pid: u32 },
    /// Stop: waiting for the exit query after the grace period.
    QueryingExit { pid: u32 },
    /// Stop: waiting for the kill; `error` is the first failure met so far.
    Killing { pid: u32, error: Option<String> },
    /// Stop: waiting for the reap; `error` is the first failure met so far.
    Reaping { pid: u32, error: Option<String> },
    /// Stop: the process is released; waiting for the artifact cleanup.
    Cleaning { error: Option<String> },
}

/// Whether no operation is in progress.
pub open spec fn settled(p: Phase) -> bool {
    p is Idle || p is Owning
}

/// Whether `p` is a phase of the start protocol.
pub open spec fn starting(p: Phase) -> bool {
    p is ClearingArtifact || p is Spawning || p is Probing || p is Pausing
}

/// Whether `p` is a phase of the stop protocol.
pub open spec fn stopping(p: Phase) -> bool {
    p is Signalling || p is Grace || p is QueryingExit || p is Killing || p is Reaping
        || p is Cleaning
}

/// The process owned in phase `p`, if any.
pub open spec fn owned(p: Phase) -> Option<u32> {
    match p {
        Phase::Probing { pid, .. } => Some(pid),
        Phase::Pausing { pid, .. } => Some(pid),
        Phase::Owning { pid } => Some(pid),
        Phase::Checking { pid } => Some(pid),
        Phase::Signalling { pid } => Some(pid),
        Phase::Grace { pid } => Some(pid),
        Phase::QueryingExit { pid } => Some(pid),
        Phase::Killing { pid, .. } => Some(pid),
        Phase::Reaping { pid, .. } => Some(pid),
        _ => None,
    }
}

/// Whether `elapsed_ms` milliseconds reach a deadline of `timeout_s` seconds.
pub open spec fn timed_out(elapsed_ms: u64, timeout_s: u64) -> bool {
    elapsed_ms >= timeout_s * 1000
}

/// The verdict of one readiness probe.
#[derive(Debug, Clone, Copy, PartialEq, Eq)]
pub enum Readiness {
    /// The address accepts connections.
    Ready,
    /// The process exited first.
    Crashed,
    /// The deadline passed.
    TimedOut,
    /// None of these yet: pause and probe again.
    Pending,
}

/// The verdict of a probe at `elapsed_ms` against a deadline of `timeout_s`
/// seconds. The deadline is checked first, then the connection, then the
/// exit of the process.
pub open spec fn readiness(timeout_s: u64, elapsed_ms: u64, connectable: bool, exited: bool) -> Readiness {
    if timed_out(elapsed_ms, timeout_s) {
        Readiness::TimedOut
    } else if connectable {
        Readiness::Ready
    } else if exited {
        Readiness::Crashed
    } else {
        Readiness::Pending
    }
}

/// Message of a spawn failure.
pub open spec fn spawn_failure_message(command: Seq<char>, error: Seq<char>) -> Seq<char> {
    "Failed to spawn "@ + command + ": "@ + error
}

/// Message of an exit before readiness.
pub open spec fn crash_message(status: Seq<char>) -> Seq<char> {
    "Backend exited with status: "@ + status
}

/// The first of two failures.
pub open spec fn first_error(earlier: Option<String>, later: Option<String>) -> Option<String> {
    if earlier is Some {
        earlier
    } else {
        later
    }
}

/// Leaves everything as it was.
pub open spec fn unchanged(before: Phase, after: Phase, step: Step) -> bool {
    after == before && step == Step::Ignored
}

/// What `start` does: from `Idle`, begin by clearing the stale artifact.
pub open spec fn start_rel(before: Phase, after: Phase, step: Step) -> bool {
    if before is Idle {
        after == (Phase::ClearingArtifact { restart: false }) && step == Step::Do(
            Action::RemoveStaleArtifact,
        )
    } else {
        unchanged(before, after, step)
    }
}

/// What `stop` does: with no process, go straight to the artifact cleanup;
/// with one, send the polite signal when its id fits a signal target, else
/// go straight to the exit query.
pub open spec fn stop_rel(before: Phase, after: Phase, step: Step) -> bool {
    match before {
        Phase::Idle => after == (Phase::Cleaning { error: None }) && step == Step::Do(
            Action::RemoveArtifact,
        ),
        Phase::Owning { pid } => if pid <= i32::MAX {
            after == (Phase::Signalling { pid }) && step == Step::Do(
                Action::SendTerminate(pid as i32),
            )
        } else {
            after == (Phase::QueryingExit { pid }) && step == Step::Do(Action::QueryExit)
        },
        _ => unchanged(before, after, step),
    }
}

/// What `check_and_restart` does: with a process, ask whether it exited;
/// with none, start one if restarts are enabled.
pub open spec fn check_rel(restart_on_crash: bool, before: Phase, after: Phase, step: Step) -> bool {
    match before {
        Phase::Idle => if restart_on_crash {
            after == (Phase::ClearingArtifact { restart: true }) && step == Step::Do(
                Action::RemoveStaleArtifact,
            )
        } else {
            after == Phase::Idle && step == Step::Finished(Ok(Outcome::NotRunning))
        },
        Phase::Owning { pid } => after == (Phase::Checking { pid }) && step == Step::Do(
            Action::QueryExit,
        ),
        _ => unchanged(before, after, step),
    }
}

/// What a probe leads to, in phase `Probing { pid, restart }`.
pub open spec fn probe_rel(
    cfg: BackendConfig,
    pid: u32,
    restart: bool,
    elapsed_ms: u64,
    connectable: bool,
    exit: Option<String>,
    after: Phase,
    step: Step,
) -> bool {
    match readiness(cfg.startup_timeout, elapsed_ms, connectable, exit is Some) {
        Readiness::TimedOut => after == (Phase::Owning { pid }) && step == Step::Finished(
            Err(BackendError::StartupTimeout(cfg.startup_timeout)),
        ),
        Readiness::Ready => after == (Phase::Owning { pid }) && step == Step::Finished(
            Ok(
                if restart {
                    Outcome::Restarted
                } else {
                    Outcome::Started
                },
            ),
        ),
        Readiness::Crashed => after == Phase::Idle && (step matches Step::Finished(
            Err(BackendError::Crashed(m)),
        ) && m@ == crash_message(exit->0@)),
        Readiness::Pending => after == (Phase::Pausing { pid, restart }) && step == Step::Do(
            Action::Sleep(POLL_INTERVAL_MS),
        ),
    }
}

/// What an exit query leads to during the stop protocol: a running process
/// is killed, an exited one is reaped, and a failed query counts as running.
pub open spec fn stop_query_rel(pid: u32, check: ExitCheck, after: Phase, step: Step) -> bool {
    match check {
        ExitCheck::Running => after == (Phase::Killing { pid, error: None }) && step == Step::Do(
            Action::ForceKill,
        ),
        ExitCheck::Exited(_) => after == (Phase::Reaping { pid, error: None }) && step == Step::Do(
            Action::Reap,
        ),
        ExitCheck::Unknown(e) => after == (Phase::Killing { pid, error: Some(e) }) && step
            == Step::Do(Action::ForceKill),
    }
}

/// What an exit query leads to during the health check. A live process is
/// kept. A process that has exited is released, and started again when
/// restarts are enabled. When the query itself fails, nothing shows that the
/// process stopped: it stays owned and the error is reported.
pub open spec fn check_query_rel(
    restart_on_crash: bool,
    pid: u32,
    check: ExitCheck,
    after: Phase,
    step: Step,
) -> bool {
    if check is Running {
        after == (Phase::Owning { pid }) && step == Step::Finished(Ok(Outcome::Alive))
    } else if check is Unknown {
        after == (Phase::Owning { pid }) && step == Step::Finished(
            Err(BackendError::Io(check->Unknown_0)),
        )
    } else if restart_on_crash {
        after == (Phase::ClearingArtifact { restart: true }) && step == Step::Do(
            Action::RemoveStaleArtifact,
        )
    } else {
        after == Phase::Idle && step == Step::Finished(Ok(Outcome::NotRunning))
    }
}

/// The transition relation of the supervisor: in phase `before`, `event`
/// leads to phase `after` and the answer `step`.
pub open spec fn advance_rel(
    cfg: BackendConfig,
    before: Phase,
    event: Event,
    after: Phase,
    step: Step,
) -> bool {
    match before {
        Phase::ClearingArtifact { restart } => match event {
            Event::StaleArtifactCleared => after == (Phase::Spawning { restart }) && step
                == Step::Do(Action::Spawn),
            Event::StaleArtifactRemovalFailed(e) => after == Phase::Idle && step == Step::Finished(
                Err(BackendError::Io(e)),
            ),
            _ => unchanged(before, after, step),
        },
        Phase::Spawning { restart } => match event {
            Event::Spawned(pid) => after == (Phase::Probing { pid, restart }) && step == Step::Do(
                Action::Probe,
            ),
            Event::SpawnFailed(e) => after == Phase::Idle && (step matches Step::Finished(
                Err(BackendError::StartFailed(m)),
            ) && m@ == spawn_failure_message(cfg.command@, e@)),
            _ => unchanged(before, after, step),
        },
        Phase::Probing { pid, restart } => match event {
            Event::Probed { elapsed_ms, connectable, exit } => probe_rel(
                cfg,
                pid,
                restart,
                elapsed_ms,
                connectable,
                exit,
                after,
                step,
            ),
            _ => unchanged(before, after, step),
        },
        Phase::Pausing { pid, restart } => match event {
            Event::Slept => after == (Phase::Probing { pid, restart }) && step == Step::Do(
                Action::Probe,
            ),
            _ => unchanged(before, after, step),
        },
        Phase::Checking { pid } => match event {
            Event::ExitChecked(check) => check_query_rel(
                cfg.restart_on_crash,
                pid,
                check,
                after,
                step,
            ),
            _ => unchanged(before, after, step),
        },
        Phase::Signalling { pid } => match event {
            Event::Signalled => after == (Phase::Grace { pid }) && step == Step::Do(
                Action::Sleep(GRACE_PERIOD_MS),
            ),
            _ => unchanged(before, after, step),
        },
        Phase::Grace { pid } => match event {
            Event::Slept => after == (Phase::QueryingExit { pid }) && step == Step::Do(
                Action::QueryExit,
            ),
            _ => unchanged(before, after, step),
        },
        Phase::QueryingExit { pid } => match event {
            Event::ExitChecked(check) => stop_query_rel(pid, check, after, step),
            _ => unchanged(before, after, step),
        },
        Phase::Killing { pid, error } => match event {
            Event::Killed(r) => after == (Phase::Reaping { pid, error: first_error(error, r) })
                && step == Step::Do(Action::Reap),
            _ => unchanged(before, after, step),
        },
        Phase::Reaping { pid, error } => match event {
            Event::Reaped(r) => after == (Phase::Cleaning { error: first_error(error, r) }) && step
                == Step::Do(Action::RemoveArtifact),
            _ => unchanged(before, after, step),
        },
        Phase::Cleaning { error } => match event {
            Event::ArtifactRemoved => after == Phase::Idle && step == Step::Finished(
                match error {
                    Some(e) => Err(BackendError::Io(e)),
                    None => Ok(Outcome::Stopped),
                },
            ),
            _ => unchanged(before, after, step),
        },
        _ => unchanged(before, after, step),
    }
}

/// Supervises one backend process, configured by a [`BackendConfig`].
pub struct BackendManager {
    config: BackendConfig,
    phase: Phase,
}

impl BackendManager {
    /// The configuration.
    pub closed spec fn config_spec(&self) -> BackendConfig {
        self.config
    }

    /// The current phase.
    pub closed spec fn phase_spec(&self) -> Phase {
        self.phase
    }

    /// A supervisor that owns no process yet.
    pub fn new(config: BackendConfig) -> (r: Self)
        ensures
            r.config_spec() == config,
            r.phase_spec() == Phase::Idle,
    {
        BackendManager { config, phase: Phase::Idle }
    }

    /// The configuration.
    pub fn config(&self) -> (r: &BackendConfig)
        ensures
            *r == self.config_spec(),
    {
        &self.config
    }

    /// The current phase.
    pub fn phase(&self) -> (r: &Phase)
        ensures
            *r == self.phase_spec(),
    {
        &self.phase
    }

    /// The address that the backend serves at.
    pub fn socket_path(&self) -> (r: &str)
        ensures
            r@ == self.config_spec().socket@,
    {
        self.config.socket.as_str()
    }

    /// The id of the owned process, if any.
    pub fn owned_process(&self) -> (r: Option<u32>)
        ensures
            r == owned(self.phase_spec()),
    {
        match &self.phase {
            Phase::Probing { pid, .. } => Some(*pid),
            Phase::Pausing { pid, .. } => Some(*pid),
            Phase::Owning { pid } => Some(*pid),
            Phase::Checking { pid } => Some(*pid),
            Phase::Signalling { pid } => Some(*pid),
            Phase::Grace { pid } => Some(*pid),
            Phase::QueryingExit { pid } => Some(*pid),
            Phase::Killing { pid, .. } => Some(*pid),
            Phase::Reaping { pid, .. } => Some(*pid),
            _ => None,
        }
    }

    /// Whether an operation is waiting for an event.
    pub fn is_busy(&self) -> (r: bool)
        ensures
            r == !settled(self.phase_spec()),
    {
        match &self.phase {
            Phase::Idle => false,
            Phase::Owning { .. } => false,
            _ => true,
        }
    }

    /// Begins starting the backend. Only a supervisor that owns no process
    /// and is not busy starts one; otherwise the request is ignored.
    pub fn start(&mut self) -> (r: Step)
        ensures
            final(self).config_spec() == old(self).config_spec(),
            start_rel(old(self).phase_spec(), final(self).phase_spec(), r),
    {
        match &self.phase {
            Phase::Idle => {
                self.phase = Phase::ClearingArtifact { restart: false };
                Step::Do(Action::RemoveStaleArtifact)
            },
            _ => Step::Ignored,
        }
    }

    /// Begins stopping the backend. A busy supervisor ignores the request.
    pub fn stop(&mut self) -> (r: Step)
        ensures
            final(self).config_spec() == old(self).config_spec(),
            stop_rel(old(self).phase_spec(), final(self).phase_spec(), r),
    {
        match &self.phase {
            Phase::Idle => {
                self.phase = Phase::Cleaning { error: None };
                Step::Do(Action::RemoveArtifact)
            },
            Phase::Owning { pid } => {
                let pid = *pid;
                if pid <= i32::MAX as u32 {
                    self.phase = Phase::Signalling { pid };
                    Step::Do(Action::SendTerminate(pid as i32))
                } else {
                    self.phase = Phase::QueryingExit { pid };
                    Step::Do(Action::QueryExit)
                }
            },
            _ => Step::Ignored,
        }
    }

    /// Begins a health check: a backend that has exited is started again
    /// when the configuration asks for restarts. A busy supervisor ignores
    /// the request.
    pub fn check_and_restart(&mut self) -> (r: Step)
        ensures
            final(self).config_spec() == old(self).config_spec(),
            check_rel(
                old(self).config_spec().restart_on_crash,
                old(self).phase_spec(),
                final(self).phase_spec(),
                r,
            ),
    {
        match &self.phase {
            Phase::Idle => {
                if self.config.restart_on_crash {
                    self.phase = Phase::ClearingArtifact { restart: true };
                    Step::Do(Action::RemoveStaleArtifact)
                } else {
                    Step::Finished(Ok(Outcome::NotRunning))
                }
            },
            Phase::Owning { pid } => {
                self.phase = Phase::Checking { pid: *pid };
                Step::Do(Action::QueryExit)
            },
            _ => Step::Ignored,
        }
    }

    /// Takes in what came of the last action and answers with the next step.
    /// An event that does not answer the pending action is ignored.
    pub fn advance(&mut self, event: Event) -> (r: Step)
        ensures
            final(self).config_spec() == old(self).config_spec(),
            advance_rel(
                old(self).config_spec(),
                old(self).phase_spec(),
                event,
                final(self).phase_spec(),
                r,
            ),
    {
        let mut phase = Phase::Idle;
        std::mem::swap(&mut self.phase, &mut phase);
        let (next, step) = self.transition(phase, event);
        self.phase = next;
        step
    }

    fn transition(&self, before: Phase, event: Event) -> (r: (Phase, Step))
        ensures
            advance_rel(self.config_spec(), before, event, r.0, r.1),
    {
        match before {
            Phase::ClearingArtifact { restart } => match event {
                Event::StaleArtifactCleared => (
                    Phase::Spawning { restart },
                    Step::Do(Action::Spawn),
                ),
                Event::StaleArtifactRemovalFailed(e) => (
                    Phase::Idle,
                    Step::Finished(Err(BackendError::Io(e))),
                ),
                _ => (Phase::ClearingArtifact { restart }, Step::Ignored),
            },
            Phase::Spawning { restart } => match event {
                Event::Spawned(pid) => (Phase::Probing { pid, restart }, Step::Do(Action::Probe)),
                Event::SpawnFailed(e) => {
                    let m = spawn_failure(self.config.command.as_str(), e.as_str());
                    (Phase::Idle, Step::Finished(Err(BackendError::StartFailed(m))))
                },
                _ => (Phase::Spawning { restart }, Step::Ignored),
            },
            Phase::Probing { pid, restart } => match event {
                Event::Probed { elapsed_ms, connectable, exit } => self.probe(
                    pid,
                    restart,
                    elapsed_ms,
                    connectable,
                    exit,
                ),
                _ => (Phase::Probing { pid, restart }, Step::Ignored),
            },
            Phase::Pausing { pid, restart } => match event {
                Event::Slept => (Phase::Probing { pid, restart }, Step::Do(Action::Probe)),
                _ => (Phase::Pausing { pid, restart }, Step::Ignored),
            },
            Phase::Checking { pid } => match event {
                Event::ExitChecked(check) => {
                    if let ExitCheck::Running = check {
                        (Phase::Owning { pid }, Step::Finished(Ok(Outcome::Alive)))
                    } else if let ExitCheck::Unknown(e) = check {
                        (Phase::Owning { pid }, Step::Finished(Err(BackendError::Io(e))))
                    } else if self.config.restart_on_crash {
                        (
                            Phase::ClearingArtifact { restart: true },
                            Step::Do(Action::RemoveStaleArtifact),
                        )
                    } else {
                        (Phase::Idle, Step::Finished(Ok(Outcome::NotRunning)))
                    }
                },
                _ => (Phase::Checking { pid }, Step::Ignored),
            },
            Phase::Signalling { pid } => match event {
                Event::Signalled => (
                    Phase::Grace { pid },
                    Step::Do(Action::Sleep(GRACE_PERIOD_MS)),
                ),
                _ => (Phase::Signalling { pid }, Step::Ignored),
            },
            Phase::Grace { pid } => match event {
                Event::Slept => (Phase::QueryingExit { pid }, Step::Do(Action::QueryExit)),
                _ => (Phase::Grace { pid }, Step::Ignored),
            },
            Phase::QueryingExit { pid } => match event {
                Event::ExitChecked(check) => match check {
                    ExitCheck::Running => (
                        Phase::Killing { pid, error: None },
                        Step::Do(Action::ForceKill),
                    ),
                    ExitCheck::Exited(_) => (
                        Phase::Reaping { pid, error: None },
                        Step::Do(Action::Reap),
                    ),
                    ExitCheck::Unknown(e) => (
                        Phase::Killing { pid, error: Some(e) },
                        Step::Do(Action::ForceKill),
                    ),
                },
                _ => (Phase::QueryingExit { pid }, Step::Ignored),
            },
            Phase::Killing { pid, error } => match event {
                Event::Killed(r) => {
                    let error = match error {
                        Some(e) => Some(e),
                        None => r,
                    };
                    (Phase::Reaping { pid, error }, Step::Do(Action::Reap))
                },
                _ => (Phase::Killing { pid, error }, Step::Ignored),
            },
            Phase::Reaping { pid, error } => match event {
                Event::Reaped(r) => {
                    let error = match error {
                        Some(e) => Some(e),
                        None => r,
                    };
                    (Phase::Cleaning { error }, Step::Do(Action::RemoveArtifact))
                },
                _ => (Phase::Reaping { pid, error }, Step::Ignored),
            },
            Phase::Cleaning { error } => match event {
                Event::ArtifactRemoved => {
                    let result = match error {
                        Some(e) => Err(BackendError::Io(e)),
                        None => Ok(Outcome::Stopped),
                    };
                    (Phase::Idle, Step::Finished(result))
                },
                _ => (Phase::Cleaning { error }, Step::Ignored),
            },
            Phase::Idle => (Phase::Idle, Step::Ignored),
            Phase::Owning { pid } => (Phase::Owning { pid }, Step::Ignored),
        }
    }

    /// Decides on a readiness probe of process `pid`.
    fn probe(
        &self,
        pid: u32,
        restart: bool,
        elapsed_ms: u64,
        connectable: bool,
        exit: Option<String>,
    ) -> (r: (Phase, Step))
        ensures
            probe_rel(self.config_spec(), pid, restart, elapsed_ms, connectable, exit, r.0, r.1),
    {
        let timeout = self.config.startup_timeout;
        if deadline_passed(elapsed_ms, timeout) {
            (Phase::Owning { pid }, Step::Finished(Err(BackendError::StartupTimeout(timeout))))
        } else if connectable {
            let outcome = if restart {
                Outcome::Restarted
            } else {
                Outcome::Started
            };
            (Phase::Owning { pid }, Step::Finished(Ok(outcome)))
        } else {
            match exit {
                Some(status) => {
                    let m = crash_report(status.as_str());
                    (Phase::Idle, Step::Finished(Err(BackendError::Crashed(m))))
                },
                None => (Phase::Pausing { pid, restart }, Step::Do(Action::Sleep(POLL_INTERVAL_MS))),
            }
        }
    }
}

/// Whether `elapsed_ms` milliseconds reach a deadline of `timeout_s` seconds.
pub fn deadline_passed(elapsed_ms: u64, timeout_s: u64) -> (r: bool)
    ensures
        r == timed_out(elapsed_ms, timeout_s),
{
    let whole_seconds = elapsed_ms / 1000;
    assert((whole_seconds >= timeout_s) == (elapsed_ms >= timeout_s * 1000)) by (nonlinear_arith)
        requires
            whole_seconds == elapsed_ms / 1000,
    ;
    whole_seconds >= timeout_s
}

fn spawn_failure(command: &str, error: &str) -> (r: String)
    ensures
        r@ == spawn_failure_message(command@, error@),
{
    let mut m = String::from_str("Failed to spawn ");
    m.append(command);
    m.append(": ");
    m.append(error);
    m
}

fn crash_report(status: &str) -> (r: String)
    ensures
        r@ == crash_message(status@),
{
    let mut m = String::from_str("Backend exited with status: ");
    m.append(status);
    m
}

/// Whether a start in phase `p` came from a health check.
pub open spec fn restarting(p: Phase) -> bool {
    match p {
        Phase::ClearingArtifact { restart } => restart,
        Phase::Spawning { restart } => restart,
        Phase::Probing { restart, .. } => restart,
        Phase::Pausing { restart, .. } => restart,
        _ => false,
    }
}

/// How many steps at most remain of a stop in phase `p`.
pub open spec fn stop_rank(p: Phase) -> nat {
    match p {
        Phase::Signalling { .. } => 6,
        Phase::Grace { .. } => 5,
        Phase::QueryingExit { .. } => 4,
        Phase::Killing { .. } => 3,
        Phase::Reaping { .. } => 2,
        Phase::Cleaning { .. } => 1,
        _ => 0,
    }
}

/// Whether `e` is the kind of report that phase `p` waits for.
pub open spec fn answers(p: Phase, e: Event) -> bool {
    match p {
        Phase::ClearingArtifact { .. } => e is StaleArtifactCleared || e is StaleArtifactRemovalFailed,
        Phase::Spawning { .. } => e is Spawned || e is SpawnFailed,
        Phase::Probing { .. } => e is Probed,
        Phase::Pausing { .. } => e is Slept,
        Phase::Checking { .. } => e is ExitChecked,
        Phase::Signalling { .. } => e is Signalled,
        Phase::Grace { .. } => e is Slept,
        Phase::QueryingExit { .. } => e is ExitChecked,
        Phase::Killing { .. } => e is Killed,
        Phase::Reaping { .. } => e is Reaped,
        Phase::Cleaning { .. } => e is ArtifactRemoved,
        _ => false,
    }
}

/// A report of the kind that the current phase waits for is never ignored,
/// and any other report is: the supervisor follows its caller's reports
/// exactly, one action at a time.
pub proof fn lemma_reports_drive_the_protocol(cfg: BackendConfig)
    ensures
        forall|before: Phase, event: Event, after: Phase, step: Step|
            #[trigger] advance_rel(cfg, before, event, after, step) ==> (answers(before, event)
                <==> !(step is Ignored)),
{
}

/// A backend that never opens its address and never exits. Every probe made
/// before the startup deadline ends nothing and asks for one poll interval of
/// waiting before the next probe; the first probe at or after the deadline
/// ends the start with a timeout error naming the deadline, so the timeout is
/// never reported early. Between two probes the caller pauses one poll
/// interval and then probes; when a probe takes at most `probe_ms`
/// milliseconds, so that consecutive probes are at most one poll interval
/// plus `probe_ms` apart, the timeout is reported less than one poll interval
/// plus `probe_ms` after the deadline.
pub proof fn lemma_silent_backend_times_out(
    cfg: BackendConfig,
    pid: u32,
    restart: bool,
    times: Seq<u64>,
    k: int,
    probe_ms: u64,
)
    requires
        0 <= k < times.len(),
        forall|j: int| 0 <= j < k ==> !timed_out(#[trigger] times[j], cfg.startup_timeout),
        timed_out(times[k], cfg.startup_timeout),
    ensures
        forall|j: int, after: Phase, step: Step|
            0 <= j < k && #[trigger] advance_rel(
                cfg,
                Phase::Probing { pid, restart },
                Event::Probed { elapsed_ms: times[j], connectable: false, exit: None },
                after,
                step,
            ) ==> after == (Phase::Pausing { pid, restart }) && step == Step::Do(
                Action::Sleep(POLL_INTERVAL_MS),
            ),
        forall|after: Phase, step: Step|
            #[trigger] advance_rel(cfg, Phase::Pausing { pid, restart }, Event::Slept, after, step)
                ==> after == (Phase::Probing { pid, restart }) && step == Step::Do(Action::Probe),
        forall|after: Phase, step: Step|
            #[trigger] advance_rel(
                cfg,
                Phase::Probing { pid, restart },
                Event::Probed { elapsed_ms: times[k], connectable: false, exit: None },
                after,
                step,
            ) ==> after == (Phase::Owning { pid }) && step == Step::Finished(
                Err(BackendError::StartupTimeout(cfg.startup_timeout)),
            ),
        times[k] >= cfg.startup_timeout * 1000,
        k > 0 && times[k] <= times[k - 1] + POLL_INTERVAL_MS + probe_ms ==> times[k]
            < cfg.startup_timeout * 1000 + POLL_INTERVAL_MS + probe_ms,
{
    if k > 0 {
        assert(!timed_out(times[k - 1], cfg.startup_timeout));
    }
}

/// A backend that has exited, probed before the startup deadline while its
/// address refuses connections: the start ends at that probe with a crash
/// error carrying the exit status, strictly before the deadline, which is
/// never waited out. The exited process is no longer owned, so no later
/// stop signals its id.
pub proof fn lemma_exited_backend_crashes_early(
    cfg: BackendConfig,
    pid: u32,
    restart: bool,
    elapsed_ms: u64,
    status: String,
)
    requires
        !timed_out(elapsed_ms, cfg.startup_timeout),
    ensures
        elapsed_ms < cfg.startup_timeout * 1000,
        forall|after: Phase, step: Step|
            #[trigger] advance_rel(
                cfg,
                Phase::Probing { pid, restart },
                Event::Probed { elapsed_ms, connectable: false, exit: Some(status) },
                after,
                step,
            ) ==> after == Phase::Idle && (step matches Step::Finished(
                Err(BackendError::Crashed(m)),
            ) && m@ == crash_message(status@)),
{
}

/// Stopping is idempotent. A stop without a process removes the address
/// artifact and succeeds; a stop with a process enters the stop protocol,
/// which moves strictly forward on every report and, whatever the operating
/// system reports, finishes owning no process. So a second stop in a row, like
/// a stop of a supervisor that never started, always succeeds.
pub proof fn lemma_stop_is_idempotent(cfg: BackendConfig)
    ensures
        forall|after: Phase, step: Step|
            #[trigger] stop_rel(Phase::Idle, after, step) ==> after == (Phase::Cleaning {
                error: None,
            }) && step == Step::Do(Action::RemoveArtifact),
        forall|after: Phase, step: Step|
            #[trigger] advance_rel(
                cfg,
                Phase::Cleaning { error: None },
                Event::ArtifactRemoved,
                after,
                step,
            ) ==> after == Phase::Idle && step == Step::Finished(Ok(Outcome::Stopped)),
        forall|pid: u32, after: Phase, step: Step|
            #[trigger] stop_rel(Phase::Owning { pid }, after, step) ==> stopping(after)
                && step is Do,
        forall|before: Phase, event: Event, after: Phase, step: Step|
            stopping(before) && #[trigger] advance_rel(cfg, before, event, after, step) && !(
            step is Ignored) ==> {
                &&& stopping(after) || after == Phase::Idle
                &&& stop_rank(after) < stop_rank(before)
                &&& step is Finished <==> after == Phase::Idle
                &&& owned(after) is None || owned(after) == owned(before)
            },
{
}

/// A stop finishes only on the report that the address artifact cleanup was
/// performed: whether the process stopped gracefully, was killed, or the
/// operating system failed along the way, the cleanup is the last action of
/// every stop, asked for right after the process is released.
pub proof fn lemma_stop_ends_with_artifact_cleanup(cfg: BackendConfig)
    ensures
        forall|before: Phase, event: Event, after: Phase, step: Step|
            stopping(before) && #[trigger] advance_rel(cfg, before, event, after, step)
                && step is Finished ==> before is Cleaning && event == Event::ArtifactRemoved,
        forall|before: Phase, event: Event, after: Phase, step: Step|
            stopping(before) && #[trigger] advance_rel(cfg, before, event, after, step)
                && after is Cleaning && !(before is Cleaning) ==> step == Step::Do(
                Action::RemoveArtifact,
            ) && owned(after) is None,
{
}

/// The health check. On a live process it changes nothing and reports
/// `Alive`. On a process that has exited it releases the process; then with
/// restarts enabled it makes one start attempt, which never starts over and
/// ends with its first result (`Restarted` on success), and with restarts
/// disabled it reports `NotRunning`. When the exit query fails, the process
/// stays owned and no second process is started: the error is reported.
pub proof fn lemma_check_and_restart(cfg: BackendConfig, pid: u32)
    ensures
        forall|after: Phase, step: Step|
            #[trigger] check_rel(cfg.restart_on_crash, Phase::Owning { pid }, after, step) ==> after
                == (Phase::Checking { pid }) && step == Step::Do(Action::QueryExit),
        forall|after: Phase, step: Step|
            #[trigger] advance_rel(
                cfg,
                Phase::Checking { pid },
                Event::ExitChecked(ExitCheck::Running),
                after,
                step,
            ) ==> after == (Phase::Owning { pid }) && step == Step::Finished(Ok(Outcome::Alive)),
        forall|c: ExitCheck, after: Phase, step: Step|
            c is Exited && cfg.restart_on_crash && #[trigger] advance_rel(
                cfg,
                Phase::Checking { pid },
                Event::ExitChecked(c),
                after,
                step,
            ) ==> after == (Phase::ClearingArtifact { restart: true }) && step == Step::Do(
                Action::RemoveStaleArtifact,
            ),
        forall|c: ExitCheck, after: Phase, step: Step|
            c is Exited && !cfg.restart_on_crash && #[trigger] advance_rel(
                cfg,
                Phase::Checking { pid },
                Event::ExitChecked(c),
                after,
                step,
            ) ==> after == Phase::Idle && step == Step::Finished(Ok(Outcome::NotRunning)),
        forall|e: String, after: Phase, step: Step|
            #[trigger] advance_rel(
                cfg,
                Phase::Checking { pid },
                Event::ExitChecked(ExitCheck::Unknown(e)),
                after,
                step,
            ) ==> after == (Phase::Owning { pid }) && step == Step::Finished(
                Err(BackendError::Io(e)),
            ),
        forall|before: Phase, event: Event, after: Phase, step: Step|
            starting(before) && #[trigger] advance_rel(cfg, before, event, after, step) && !(
            step is Ignored) ==> {
                &&& !(after is ClearingArtifact)
                &&& starting(after) || settled(after)
                &&& step is Finished <==> settled(after)
                &&& starting(after) ==> restarting(after) == restarting(before)
                &&& step matches Step::Finished(Ok(o)) ==> o == (if restarting(before) {
                    Outcome::Restarted
                } else {
                    Outcome::Started
                })
            },
{
}

/// A start succeeds only on a probe that found the address accepting
/// connections: the presence of the artifact alone, or a spawn, never makes
/// it report success.
pub proof fn lemma_start_succeeds_only_when_reachable(cfg: BackendConfig)
    ensures
        forall|before: Phase, event: Event, after: Phase, step: Step|
            #[trigger] advance_rel(cfg, before, event, after, step) && (step matches Step::Finished(
                Ok(o),
            ) && (o is Started || o is Restarted)) ==> before is Probing && (event matches Event::Probed {
                connectable,
                ..
            } && connectable),
{
}

} // verus!
