use orderly::killer::{KillPhase, KillStep, KillTree};
use orderly::runner::{
    deadline_from_millis, error_of_signal, next_poll_delay, run_command_poll, PollDecision, Signal,
    SupervisorError, WaitStatus,
};

#[test]
fn poll_delay_backoff() {
    let mut d = 10;
    let mut seen = vec![d];
    for _ in 0..12 {
        d = next_poll_delay(d);
        seen.push(d);
    }
    assert_eq!(&seen[..12], &[10, 60, 110, 160, 210, 260, 310, 360, 410, 460, 500, 500]);
    assert_eq!(next_poll_delay(u64::MAX), 500);
}

#[test]
fn deadlines() {
    assert_eq!(deadline_from_millis(1000, None), None);
    assert_eq!(deadline_from_millis(1000, Some(250)), Some(1250));
    assert_eq!(deadline_from_millis(u64::MAX - 1, Some(10)), Some(u64::MAX));
}

#[test]
fn signals_map_to_errors() {
    assert_eq!(error_of_signal(Signal::Shutdown), SupervisorError::Shutdown);
    assert_eq!(error_of_signal(Signal::Terminate), SupervisorError::Terminated);
}

#[test]
fn poll_signal_comes_first() {
    let r = run_command_poll(Some(Signal::Terminate), 100, Some(50), Some(false), WaitStatus::Exited(true), 10);
    assert_eq!(r, PollDecision::Abort(SupervisorError::Terminated));
}

#[test]
fn poll_deadline_kills() {
    let r = run_command_poll(None, 101, Some(100), None, WaitStatus::Running, 10);
    assert_eq!(r, PollDecision::KillAndFail);
    let r = run_command_poll(None, 100, Some(100), None, WaitStatus::Running, 10);
    assert_eq!(r, PollDecision::Sleep(10));
}

#[test]
fn poll_dead_dependency_kills() {
    let r = run_command_poll(None, 0, None, Some(false), WaitStatus::Exited(true), 10);
    assert_eq!(r, PollDecision::KillAndFail);
    let r = run_command_poll(None, 0, None, Some(true), WaitStatus::Running, 60);
    assert_eq!(r, PollDecision::Sleep(60));
}

#[test]
fn poll_exit_status() {
    assert_eq!(run_command_poll(None, 0, None, None, WaitStatus::Exited(true), 10), PollDecision::Succeeded);
    assert_eq!(
        run_command_poll(None, 0, None, None, WaitStatus::Exited(false), 10),
        PollDecision::Fail(SupervisorError::ProcFailed)
    );
    assert_eq!(
        run_command_poll(None, 0, None, None, WaitStatus::Failed, 10),
        PollDecision::Fail(SupervisorError::IOError)
    );
}

#[test]
fn kill_reaped_during_grace() {
    let mut k = KillTree::new(Some(1000));
    assert_eq!(k.step(0, WaitStatus::Running), KillStep::Wait);
    assert_eq!(k.step(10, WaitStatus::Exited(false)), KillStep::Reaped);
    assert_eq!(k.phase, KillPhase::Finished);
}

#[test]
fn kill_escalates_after_deadline() {
    let mut k = KillTree::new(Some(1000));
    assert_eq!(k.step(999, WaitStatus::Running), KillStep::Wait);
    assert_eq!(k.step(1000, WaitStatus::Running), KillStep::SendKill);
    assert_eq!(k.phase, KillPhase::Killing(0));
    assert_eq!(k.step(1000, WaitStatus::Running), KillStep::Wait);
    assert_eq!(k.step(1010, WaitStatus::Exited(false)), KillStep::Reaped);
}

#[test]
fn kill_failed_wait_escalates() {
    let mut k = KillTree::new(None);
    assert_eq!(k.step(5, WaitStatus::Failed), KillStep::SendKill);
}

#[test]
fn kill_unkillable_after_last_poll() {
    let mut k = KillTree::new(Some(0));
    assert_eq!(k.step(0, WaitStatus::Running), KillStep::SendKill);
    let mut waits = 0;
    loop {
        match k.step(0, WaitStatus::Running) {
            KillStep::Wait => waits += 1,
            KillStep::Unkillable => break,
            other => panic!("unexpected {:?}", other),
        }
    }
    assert_eq!(waits, 999);
    assert_eq!(k.phase, KillPhase::Finished);
}
