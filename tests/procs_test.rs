use orderly::procs::{
    check_proc_decision, get_proc_script_env, get_supervisor_script_env, shutdown_proc_poll,
    shutdown_proc_start, CheckDecision, ShutdownPoll, ShutdownStart,
};
use orderly::runner::{Signal, SupervisorError, WaitStatus};

fn pair(a: &str, b: &str) -> (String, String) {
    (a.to_string(), b.to_string())
}

#[test]
fn supervisor_env() {
    assert_eq!(get_supervisor_script_env("RESTART"), vec![pair("ORDERLY_ACTION", "RESTART")]);
}

#[test]
fn proc_env_without_child() {
    assert_eq!(
        get_proc_script_env("CLEANUP", "web", None),
        vec![pair("ORDERLY_ACTION", "CLEANUP"), pair("ORDERLY_SERVICE_NAME", "web")]
    );
}

#[test]
fn proc_env_with_child_pid() {
    assert_eq!(
        get_proc_script_env("CHECK", "db", Some(40213)),
        vec![
            pair("ORDERLY_ACTION", "CHECK"),
            pair("ORDERLY_SERVICE_NAME", "db"),
            pair("ORDERLY_RUN_PID", "40213"),
        ]
    );
    let env = get_proc_script_env("RUN", "x", Some(7));
    assert_eq!(env[2].1, "7");
}

#[test]
fn check_decisions() {
    assert_eq!(
        check_proc_decision(Some(Signal::Shutdown), Some(WaitStatus::Running), true),
        CheckDecision::Abort(SupervisorError::Shutdown)
    );
    assert_eq!(check_proc_decision(None, None, true), CheckDecision::Abort(SupervisorError::ProcFailed));
    assert_eq!(check_proc_decision(None, Some(WaitStatus::Exited(true)), true), CheckDecision::ClearAndFail);
    assert_eq!(
        check_proc_decision(None, Some(WaitStatus::Failed), false),
        CheckDecision::Abort(SupervisorError::IOError)
    );
    assert_eq!(check_proc_decision(None, Some(WaitStatus::Running), true), CheckDecision::RunCheck);
    assert_eq!(check_proc_decision(None, Some(WaitStatus::Running), false), CheckDecision::Pass);
}

#[test]
fn shutdown_start_decisions() {
    assert_eq!(shutdown_proc_start(Some(Signal::Terminate), true), ShutdownStart::Abort(SupervisorError::Terminated));
    assert_eq!(shutdown_proc_start(None, false), ShutdownStart::Kill);
    assert_eq!(shutdown_proc_start(None, true), ShutdownStart::RunHook);
}

#[test]
fn shutdown_hook_timeout_falls_back_to_kill() {
    // shutdown_timeout of 1 s from the start of the shutdown at t = 0.
    let deadline = Some(1000);
    assert_eq!(
        shutdown_proc_poll(true, None, 500, deadline, Some(WaitStatus::Running), 10),
        ShutdownPoll::Sleep(10)
    );
    assert_eq!(shutdown_proc_poll(true, None, 1001, deadline, Some(WaitStatus::Running), 60), ShutdownPoll::Kill);
    assert_eq!(shutdown_proc_poll(false, None, 0, deadline, Some(WaitStatus::Running), 10), ShutdownPoll::Kill);
}

#[test]
fn shutdown_poll_exit_and_signal() {
    assert_eq!(shutdown_proc_poll(true, None, 0, None, Some(WaitStatus::Exited(false)), 10), ShutdownPoll::Exited);
    assert_eq!(shutdown_proc_poll(true, None, 0, None, None, 10), ShutdownPoll::Exited);
    assert_eq!(
        shutdown_proc_poll(true, Some(Signal::Shutdown), 0, None, Some(WaitStatus::Running), 10),
        ShutdownPoll::Abort(SupervisorError::Shutdown)
    );
    assert_eq!(
        shutdown_proc_poll(true, None, 0, None, Some(WaitStatus::Failed), 10),
        ShutdownPoll::Abort(SupervisorError::IOError)
    );
}
