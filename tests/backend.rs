use harbor::backend::{
    deadline_passed, Action, BackendError, BackendManager, Event, ExitCheck, Outcome, Phase, Step,
    GRACE_PERIOD_MS, POLL_INTERVAL_MS,
};
use harbor::config::BackendConfig;

fn config(timeout: u64, restart: bool) -> BackendConfig {
    BackendConfig {
        command: "gunicorn".to_string(),
        args: vec!["--bind".to_string(), "unix:/tmp/test.sock".to_string()],
        socket: "/tmp/test.sock".to_string(),
        workdir: None,
        env: Vec::new(),
        startup_timeout: timeout,
        restart_on_crash: restart,
    }
}

fn probe(elapsed_ms: u64, connectable: bool) -> Event {
    Event::Probed { elapsed_ms, connectable, exit: None }
}

/// Brings a fresh supervisor through a successful start of process `pid`.
fn started(timeout: u64, restart: bool, pid: u32) -> BackendManager {
    let mut m = BackendManager::new(config(timeout, restart));
    assert_eq!(m.start(), Step::Do(Action::RemoveStaleArtifact));
    assert_eq!(m.advance(Event::StaleArtifactCleared), Step::Do(Action::Spawn));
    assert_eq!(m.advance(Event::Spawned(pid)), Step::Do(Action::Probe));
    assert_eq!(m.advance(probe(0, true)), Step::Finished(Ok(Outcome::Started)));
    assert_eq!(m.owned_process(), Some(pid));
    m
}

#[test]
fn silent_backend_times_out_at_the_deadline() {
    let mut m = BackendManager::new(config(1, false));
    m.start();
    m.advance(Event::StaleArtifactCleared);
    m.advance(Event::Spawned(7));
    let mut elapsed = 0;
    while elapsed < 1000 {
        assert_eq!(m.advance(probe(elapsed, false)), Step::Do(Action::Sleep(POLL_INTERVAL_MS)));
        assert_eq!(m.advance(Event::Slept), Step::Do(Action::Probe));
        elapsed += POLL_INTERVAL_MS;
    }
    assert_eq!(m.advance(probe(1000, false)), Step::Finished(Err(BackendError::StartupTimeout(1))));
    assert_eq!(m.owned_process(), Some(7));
    assert!(!m.is_busy());
}

#[test]
fn deadline_is_not_reached_one_millisecond_early() {
    let mut m = BackendManager::new(config(30, false));
    m.start();
    m.advance(Event::StaleArtifactCleared);
    m.advance(Event::Spawned(7));
    assert_eq!(m.advance(probe(29_999, false)), Step::Do(Action::Sleep(100)));
    m.advance(Event::Slept);
    assert_eq!(m.advance(probe(30_099, false)), Step::Finished(Err(BackendError::StartupTimeout(30))));
}

#[test]
fn deadline_arithmetic() {
    assert!(!deadline_passed(999, 1));
    assert!(deadline_passed(1000, 1));
    assert!(deadline_passed(0, 0));
    assert!(!deadline_passed(u64::MAX, u64::MAX));
    assert!(deadline_passed(u64::MAX, u64::MAX / 1000));
}

#[test]
fn exiting_backend_crashes_before_the_deadline() {
    let mut m = BackendManager::new(config(30, false));
    m.start();
    m.advance(Event::StaleArtifactCleared);
    m.advance(Event::Spawned(9));
    let step = m.advance(Event::Probed {
        elapsed_ms: 3,
        connectable: false,
        exit: Some("exit status: 1".to_string()),
    });
    assert_eq!(
        step,
        Step::Finished(Err(BackendError::Crashed("Backend exited with status: exit status: 1".to_string())))
    );
    assert_eq!(m.owned_process(), None);
    assert_eq!(m.phase(), &Phase::Idle);
    assert_eq!(m.stop(), Step::Do(Action::RemoveArtifact));
}

#[test]
fn connection_counts_before_exit() {
    let mut m = BackendManager::new(config(30, false));
    m.start();
    m.advance(Event::StaleArtifactCleared);
    m.advance(Event::Spawned(9));
    let step = m.advance(Event::Probed { elapsed_ms: 3, connectable: true, exit: Some("0".to_string()) });
    assert_eq!(step, Step::Finished(Ok(Outcome::Started)));
}

#[test]
fn spawn_failure_is_reported_without_retry() {
    let mut m = BackendManager::new(config(30, true));
    m.start();
    m.advance(Event::StaleArtifactCleared);
    let step = m.advance(Event::SpawnFailed("No such file or directory (os error 2)".to_string()));
    assert_eq!(
        step,
        Step::Finished(Err(BackendError::StartFailed(
            "Failed to spawn gunicorn: No such file or directory (os error 2)".to_string()
        )))
    );
    assert_eq!(m.phase(), &Phase::Idle);
    assert_eq!(m.owned_process(), None);
}

#[test]
fn stale_artifact_that_cannot_be_removed_fails_the_start() {
    let mut m = BackendManager::new(config(30, false));
    m.start();
    let step = m.advance(Event::StaleArtifactRemovalFailed("permission denied".to_string()));
    assert_eq!(step, Step::Finished(Err(BackendError::Io("permission denied".to_string()))));
    assert_eq!(m.phase(), &Phase::Idle);
}

#[test]
fn stop_without_process_is_idempotent() {
    let mut m = BackendManager::new(config(30, false));
    for _ in 0..2 {
        assert_eq!(m.stop(), Step::Do(Action::RemoveArtifact));
        assert_eq!(m.advance(Event::ArtifactRemoved), Step::Finished(Ok(Outcome::Stopped)));
        assert_eq!(m.owned_process(), None);
    }
}

#[test]
fn stop_escalates_to_kill_then_cleans_up() {
    let mut m = started(30, false, 4242);
    assert_eq!(m.stop(), Step::Do(Action::SendTerminate(4242)));
    assert_eq!(m.advance(Event::Signalled), Step::Do(Action::Sleep(GRACE_PERIOD_MS)));
    assert_eq!(m.advance(Event::Slept), Step::Do(Action::QueryExit));
    assert_eq!(m.advance(Event::ExitChecked(ExitCheck::Running)), Step::Do(Action::ForceKill));
    assert_eq!(m.advance(Event::Killed(None)), Step::Do(Action::Reap));
    assert_eq!(m.advance(Event::Reaped(None)), Step::Do(Action::RemoveArtifact));
    assert_eq!(m.owned_process(), None);
    assert_eq!(m.advance(Event::ArtifactRemoved), Step::Finished(Ok(Outcome::Stopped)));
    assert_eq!(m.stop(), Step::Do(Action::RemoveArtifact));
    assert_eq!(m.advance(Event::ArtifactRemoved), Step::Finished(Ok(Outcome::Stopped)));
}

#[test]
fn graceful_stop_skips_the_kill() {
    let mut m = started(30, false, 11);
    m.stop();
    m.advance(Event::Signalled);
    m.advance(Event::Slept);
    assert_eq!(
        m.advance(Event::ExitChecked(ExitCheck::Exited("exit status: 0".to_string()))),
        Step::Do(Action::Reap)
    );
    assert_eq!(m.advance(Event::Reaped(None)), Step::Do(Action::RemoveArtifact));
    assert_eq!(m.advance(Event::ArtifactRemoved), Step::Finished(Ok(Outcome::Stopped)));
}

#[test]
fn stop_errors_are_reported_after_cleanup() {
    let mut m = started(30, false, 11);
    m.stop();
    m.advance(Event::Signalled);
    m.advance(Event::Slept);
    assert_eq!(
        m.advance(Event::ExitChecked(ExitCheck::Unknown("query failed".to_string()))),
        Step::Do(Action::ForceKill)
    );
    assert_eq!(m.advance(Event::Killed(Some("kill failed".to_string()))), Step::Do(Action::Reap));
    assert_eq!(m.advance(Event::Reaped(Some("wait failed".to_string()))), Step::Do(Action::RemoveArtifact));
    assert_eq!(
        m.advance(Event::ArtifactRemoved),
        Step::Finished(Err(BackendError::Io("query failed".to_string())))
    );
    assert_eq!(m.phase(), &Phase::Idle);
    assert_eq!(m.stop(), Step::Do(Action::RemoveArtifact));
}

#[test]
fn process_id_beyond_signal_range_skips_the_polite_signal() {
    let mut m = started(30, false, u32::MAX);
    assert_eq!(m.stop(), Step::Do(Action::QueryExit));
}

#[test]
fn check_on_live_process_changes_nothing() {
    let mut m = started(30, true, 5);
    assert_eq!(m.check_and_restart(), Step::Do(Action::QueryExit));
    assert_eq!(m.advance(Event::ExitChecked(ExitCheck::Running)), Step::Finished(Ok(Outcome::Alive)));
    assert_eq!(m.owned_process(), Some(5));
}

#[test]
fn check_without_restart_leaves_process_unowned() {
    let mut m = started(30, false, 5);
    m.check_and_restart();
    let step = m.advance(Event::ExitChecked(ExitCheck::Exited("signal: 9".to_string())));
    assert_eq!(step, Step::Finished(Ok(Outcome::NotRunning)));
    assert_eq!(m.owned_process(), None);
    assert_eq!(m.check_and_restart(), Step::Finished(Ok(Outcome::NotRunning)));
}

#[test]
fn failed_restart_is_not_retried() {
    let mut m = started(30, true, 5);
    m.check_and_restart();
    m.advance(Event::ExitChecked(ExitCheck::Exited("signal: 9".to_string())));
    m.advance(Event::StaleArtifactCleared);
    let step = m.advance(Event::SpawnFailed("denied".to_string()));
    assert_eq!(step, Step::Finished(Err(BackendError::StartFailed("Failed to spawn gunicorn: denied".to_string()))));
    assert!(!m.is_busy());
}

#[test]
fn crashed_backend_is_restarted_and_ready_again() {
    let mut m = BackendManager::new(config(5, true));
    assert_eq!(m.start(), Step::Do(Action::RemoveStaleArtifact));
    assert_eq!(m.advance(Event::StaleArtifactCleared), Step::Do(Action::Spawn));
    assert_eq!(m.advance(Event::Spawned(100)), Step::Do(Action::Probe));
    assert_eq!(m.advance(probe(1, false)), Step::Do(Action::Sleep(100)));
    assert_eq!(m.advance(Event::Slept), Step::Do(Action::Probe));
    assert_eq!(m.advance(probe(250, true)), Step::Finished(Ok(Outcome::Started)));

    assert_eq!(m.check_and_restart(), Step::Do(Action::QueryExit));
    let exited = Event::ExitChecked(ExitCheck::Exited("signal: 9 (SIGKILL)".to_string()));
    assert_eq!(m.advance(exited), Step::Do(Action::RemoveStaleArtifact));
    assert_eq!(m.owned_process(), None);
    assert_eq!(m.advance(Event::StaleArtifactCleared), Step::Do(Action::Spawn));
    assert_eq!(m.advance(Event::Spawned(101)), Step::Do(Action::Probe));
    assert_eq!(m.advance(probe(2, false)), Step::Do(Action::Sleep(100)));
    assert_eq!(m.advance(Event::Slept), Step::Do(Action::Probe));
    assert_eq!(m.advance(probe(260, true)), Step::Finished(Ok(Outcome::Restarted)));
    assert_eq!(m.owned_process(), Some(101));
}

#[test]
fn never_started_backend_is_started_by_the_check() {
    let mut m = BackendManager::new(config(5, true));
    assert_eq!(m.check_and_restart(), Step::Do(Action::RemoveStaleArtifact));
}

#[test]
fn reports_out_of_turn_are_ignored() {
    let mut m = BackendManager::new(config(5, false));
    assert_eq!(m.advance(Event::Slept), Step::Ignored);
    m.start();
    assert_eq!(m.advance(Event::Spawned(3)), Step::Ignored);
    assert_eq!(m.stop(), Step::Ignored);
    assert_eq!(m.check_and_restart(), Step::Ignored);
    assert_eq!(m.start(), Step::Ignored);
    assert!(m.is_busy());
    assert_eq!(m.phase(), &Phase::ClearingArtifact { restart: false });
}

#[test]
fn supervisor_keeps_its_configuration() {
    let m = BackendManager::new(config(5, false));
    assert_eq!(m.socket_path(), "/tmp/test.sock");
    assert_eq!(m.config().command, "gunicorn");
    assert_eq!(m.config().startup_timeout, 5);
}

#[test]
fn failed_exit_query_keeps_the_process_and_starts_no_other() {
    let mut m = started(30, true, 5);
    assert_eq!(m.check_and_restart(), Step::Do(Action::QueryExit));
    let step = m.advance(Event::ExitChecked(ExitCheck::Unknown("ECHILD".to_string())));
    assert_eq!(step, Step::Finished(Err(BackendError::Io("ECHILD".to_string()))));
    assert_eq!(m.owned_process(), Some(5));
    assert_eq!(m.stop(), Step::Do(Action::SendTerminate(5)));
}
