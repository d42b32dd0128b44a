use orderly::runner::SupervisorError;
use orderly::specs::{ProcSpecBuilder, SupervisorSpec, SupervisorSpecBuilder};
use orderly::supervisor::{status_line, Action, Hook, Phase, StatusWord, Supervisor};

fn spec_with(n: usize, configure: impl FnOnce(&mut SupervisorSpecBuilder)) -> SupervisorSpec {
    let mut b = SupervisorSpecBuilder::new();
    for i in 0..n {
        let mut p = ProcSpecBuilder::new();
        p.set_name(format!("p{}", i));
        p.set_run("sleep".to_string());
        b.add_proc_spec(p.build().unwrap());
    }
    configure(&mut b);
    b.build().unwrap()
}

const OK: Result<(), SupervisorError> = Ok(());

/// Runs a first start to the first round of checks and returns its actions.
fn first_start(s: &mut Supervisor, n: usize) -> Vec<Action> {
    let mut seen = vec![s.next(OK, 0)];
    while seen.last() != Some(&Action::CheckProc(0)) {
        seen.push(s.next(OK, 0));
        assert!(seen.len() < 4 * n + 10);
    }
    seen
}

#[test]
fn status_lines() {
    assert_eq!(status_line(StatusWord::Starting), "STARTING\n");
    assert_eq!(status_line(StatusWord::Running), "RUNNING\n");
}

#[test]
fn ordered_first_start() {
    let spec = spec_with(3, |_| ());
    let mut s = Supervisor::new(&spec, 0);
    let seen = first_start(&mut s, 3);
    assert_eq!(
        seen,
        vec![
            Action::WriteStatus(StatusWord::Starting),
            Action::KillProc(2),
            Action::KillProc(1),
            Action::KillProc(0),
            Action::StartProc(0),
            Action::StartProc(1),
            Action::StartProc(2),
            Action::WriteStatus(StatusWord::Running),
            Action::CheckProc(0),
        ]
    );
    assert_eq!(s.next(OK, 0), Action::CheckProc(1));
    assert_eq!(s.next(OK, 0), Action::CheckProc(2));
    assert_eq!(s.next(OK, 0), Action::Sleep(5000));
    assert_eq!(s.next(OK, 5000), Action::CheckProc(0));
}

#[test]
fn start_complete_hook_after_running() {
    let spec = spec_with(1, |b| b.set_start_complete("hook".to_string()));
    let mut s = Supervisor::new(&spec, 0);
    assert_eq!(s.next(OK, 0), Action::WriteStatus(StatusWord::Starting));
    assert_eq!(s.next(OK, 0), Action::KillProc(0));
    assert_eq!(s.next(OK, 0), Action::StartProc(0));
    assert_eq!(s.next(OK, 0), Action::WriteStatus(StatusWord::Running));
    assert_eq!(s.next(OK, 0), Action::RunHook(Hook::StartComplete));
    assert_eq!(s.next(OK, 0), Action::CheckProc(0));
}

#[test]
fn single_proc_clean_exit_on_sigint() {
    let spec = spec_with(1, |b| b.set_status_file("st".to_string()));
    let mut s = Supervisor::new(&spec, 0);
    first_start(&mut s, 1);
    assert_eq!(s.next(OK, 0), Action::Sleep(5000));
    // SIGINT arrives during the sleep.
    assert_eq!(s.next(Err(SupervisorError::Shutdown), 200), Action::ShutdownProc(0));
    assert_eq!(s.next(OK, 300), Action::Exit(0));
    assert_eq!(s.next(OK, 300), Action::Exit(0));
}

#[test]
fn graceful_teardown_falls_back_to_kill() {
    let spec = spec_with(2, |_| ());
    let mut s = Supervisor::new(&spec, 0);
    first_start(&mut s, 2);
    assert_eq!(s.next(Err(SupervisorError::Shutdown), 0), Action::ShutdownProc(1));
    assert_eq!(s.next(Err(SupervisorError::ProcFailed), 0), Action::KillProc(1));
    assert_eq!(s.next(Err(SupervisorError::UnkillableChild), 0), Action::KillProc(0));
    assert_eq!(s.next(OK, 0), Action::Exit(0));
}

#[test]
fn crash_loop_rate_limited() {
    let spec = spec_with(1, |b| {
        b.set_max_restart_tokens(3000);
        b.set_restart_tokens_per_second(0);
        b.set_failure("on-failure".to_string());
    });
    let mut s = Supervisor::new(&spec, 0);
    assert_eq!(s.next(OK, 0), Action::WriteStatus(StatusWord::Starting));
    assert_eq!(s.next(OK, 0), Action::KillProc(0));
    assert_eq!(s.next(OK, 0), Action::StartProc(0));
    // `run = false`: the check finds the child gone every time.
    assert_eq!(s.next(OK, 0), Action::WriteStatus(StatusWord::Running));
    assert_eq!(s.next(OK, 0), Action::CheckProc(0));
    let mut t = 0;
    loop {
        t += 10;
        assert_eq!(s.next(Err(SupervisorError::ProcFailed), t), Action::KillProc(0));
        if s.phase() == Phase::Tearing(0, 1) {
            break;
        }
        assert_eq!(s.next(OK, t), Action::StartProc(0));
        assert_eq!(s.next(OK, t), Action::CheckProc(0));
        assert!(t < 1000);
    }
    assert_eq!(s.num_restarts(), 3);
    assert_eq!(s.phase(), Phase::Tearing(0, 1));
    assert_eq!(s.next(OK, t), Action::RunHook(Hook::Failure));
    assert_eq!(s.next(Err(SupervisorError::ProcFailed), t), Action::Exit(1));
}

#[test]
fn restart_hook_on_restart_only() {
    let spec = spec_with(1, |b| b.set_restart("on-restart".to_string()));
    let mut s = Supervisor::new(&spec, 0);
    first_start(&mut s, 1);
    assert_eq!(s.next(Err(SupervisorError::IOError), 0), Action::RunHook(Hook::Restart));
    assert_eq!(s.num_restarts(), 1);
    // A failing restart hook does not stop the restart.
    assert_eq!(s.next(Err(SupervisorError::ProcFailed), 0), Action::KillProc(0));
    assert_eq!(s.next(OK, 0), Action::StartProc(0));
    // No second status line on a restart.
    assert_eq!(s.next(OK, 0), Action::CheckProc(0));
}

#[test]
fn ordered_startup_with_dependency() {
    // Proc A's wait_started hook fails because A died: a restart cycle follows.
    let spec = spec_with(2, |_| ());
    let mut s = Supervisor::new(&spec, 0);
    assert_eq!(s.next(OK, 0), Action::WriteStatus(StatusWord::Starting));
    assert_eq!(s.next(OK, 0), Action::KillProc(1));
    assert_eq!(s.next(OK, 0), Action::KillProc(0));
    assert_eq!(s.next(OK, 0), Action::StartProc(0));
    assert_eq!(s.next(Err(SupervisorError::ProcFailed), 1000), Action::WriteStatus(StatusWord::Starting));
    assert_eq!(s.num_restarts(), 1);
    assert_eq!(s.next(OK, 1000), Action::KillProc(1));
    assert_eq!(s.next(OK, 1000), Action::KillProc(0));
    assert_eq!(s.next(OK, 1000), Action::StartProc(0));
    assert_eq!(s.next(OK, 1000), Action::StartProc(1));
}

#[test]
fn unkillable_child_is_fatal() {
    let spec = spec_with(2, |b| b.set_failure("on-failure".to_string()));
    let mut s = Supervisor::new(&spec, 0);
    first_start(&mut s, 2);
    assert_eq!(s.next(Err(SupervisorError::ProcFailed), 0), Action::KillProc(1));
    assert_eq!(s.next(Err(SupervisorError::UnkillableChild), 0), Action::KillProc(1));
    assert_eq!(s.phase(), Phase::Tearing(1, 1));
    assert_eq!(s.next(OK, 0), Action::KillProc(0));
    assert_eq!(s.next(OK, 0), Action::RunHook(Hook::Failure));
    assert_eq!(s.next(OK, 0), Action::Exit(1));
}

#[test]
fn sigterm_exits_one_without_failure_hook() {
    let spec = spec_with(1, |_| ());
    let mut s = Supervisor::new(&spec, 0);
    first_start(&mut s, 1);
    assert_eq!(s.next(Err(SupervisorError::Terminated), 0), Action::KillProc(0));
    assert_eq!(s.next(OK, 0), Action::Exit(1));
}

#[test]
fn status_write_failure_restarts() {
    let spec = spec_with(1, |_| ());
    let mut s = Supervisor::new(&spec, 0);
    assert_eq!(s.next(OK, 0), Action::WriteStatus(StatusWord::Starting));
    assert_eq!(s.next(Err(SupervisorError::IOError), 0), Action::WriteStatus(StatusWord::Starting));
    assert_eq!(s.num_restarts(), 1);
}
