use vstd::prelude::*;
use crate::runner::{
    Signal, SupervisorError, WaitStatus, error_of_signal, signal_error, past_deadline,
};

verus! {

/// What a health check of one process decides.
#[derive(Debug, Clone, Copy, PartialEq, Eq, Structural)]
pub enum CheckDecision {
    /// Stop with this error; nothing changes.
    Abort(SupervisorError),
    /// The child has exited: empty its slot and fail with `ProcFailed`.
    ClearAndFail,
    /// Run the `check` hook; the check passes when the hook does.
    RunCheck,
    /// The child runs and there is no hook: the check passes.
    Pass,
}

pub open spec fn check_spec(signal: Option<Signal>, slot: Option<WaitStatus>, has_check: bool) -> CheckDecision {
    if signal is Some {
        CheckDecision::Abort(signal_error(signal->0))
    } else {
        match slot {
            None => CheckDecision::Abort(SupervisorError::ProcFailed),
            Some(WaitStatus::Failed) => CheckDecision::Abort(SupervisorError::IOError),
            Some(WaitStatus::Exited(_)) => CheckDecision::ClearAndFail,
            Some(WaitStatus::Running) => if has_check {
                CheckDecision::RunCheck
            } else {
                CheckDecision::Pass
            },
        }
    }
}

/// Decides a health check from a pending signal, what a non-blocking wait on
/// the process's child told (`None` for an empty slot), and whether the process
/// has a `check` hook.
pub fn check_proc_decision(signal: Option<Signal>, slot: Option<WaitStatus>, has_check: bool) -> (r:
    CheckDecision)
    ensures
        r == check_spec(signal, slot, has_check),
{
    if let Some(s) = signal {
        return CheckDecision::Abort(error_of_signal(s));
    }
    match slot {
        None => CheckDecision::Abort(SupervisorError::ProcFailed),
        Some(WaitStatus::Failed) => CheckDecision::Abort(SupervisorError::IOError),
        Some(WaitStatus::Exited(_)) => CheckDecision::ClearAndFail,
        Some(WaitStatus::Running) => if has_check {
            CheckDecision::RunCheck
        } else {
            CheckDecision::Pass
        },
    }
}

/// How a shutdown of one process begins.
#[derive(Debug, Clone, Copy, PartialEq, Eq, Structural)]
pub enum ShutdownStart {
    /// Stop with this error; nothing changes.
    Abort(SupervisorError),
    /// There is no `shutdown` hook: kill the process instead.
    Kill,
    /// Run the `shutdown` hook under the shutdown deadline.
    RunHook,
}

pub open spec fn shutdown_start_spec(signal: Option<Signal>, has_shutdown: bool) -> ShutdownStart {
    if signal is Some {
        ShutdownStart::Abort(signal_error(signal->0))
    } else if has_shutdown {
        ShutdownStart::RunHook
    } else {
        ShutdownStart::Kill
    }
}

/// Decides how a shutdown begins.
pub fn shutdown_proc_start(signal: Option<Signal>, has_shutdown: bool) -> (r: ShutdownStart)
    ensures
        r == shutdown_start_spec(signal, has_shutdown),
{
    if let Some(s) = signal {
        ShutdownStart::Abort(error_of_signal(s))
    } else if has_shutdown {
        ShutdownStart::RunHook
    } else {
        ShutdownStart::Kill
    }
}

/// What one poll of a process being shut down decides.
#[derive(Debug, Clone, Copy, PartialEq, Eq, Structural)]
pub enum ShutdownPoll {
    /// Stop with this error.
    Abort(SupervisorError),
    /// The hook failed or the shutdown deadline passed: kill the process.
    Kill,
    /// The child is gone: empty its slot and run `cleanup`.
    Exited,
    /// Sleep this many milliseconds, interruptibly, and poll again.
    Sleep(u64),
}

pub open spec fn shutdown_poll_spec(
    hook_ok: bool,
    signal: Option<Signal>,
    now: int,
    deadline: Option<u64>,
    slot: Option<WaitStatus>,
    delay: u64,
) -> ShutdownPoll {
    if !hook_ok {
        ShutdownPoll::Kill
    } else if signal is Some {
        ShutdownPoll::Abort(signal_error(signal->0))
    } else if past_deadline(now, deadline) {
        ShutdownPoll::Kill
    } else {
        match slot {
            None => ShutdownPoll::Exited,
            Some(WaitStatus::Exited(_)) => ShutdownPoll::Exited,
            Some(WaitStatus::Failed) => ShutdownPoll::Abort(SupervisorError::IOError),
            Some(WaitStatus::Running) => ShutdownPoll::Sleep(delay),
        }
    }
}

/// One poll after the `shutdown` hook has finished (`hook_ok` says whether it
/// succeeded). A failed hook gets the process killed. Else, in order: a pending
/// signal aborts; a passed deadline, which counts from the start of the
/// shutdown, gets the process killed; a gone child ends the shutdown; else the
/// caller sleeps `delay` milliseconds.
pub fn shutdown_proc_poll(
    hook_ok: bool,
    signal: Option<Signal>,
    now_millis: u64,
    deadline: Option<u64>,
    slot: Option<WaitStatus>,
    delay: u64,
) -> (r: ShutdownPoll)
    ensures
        r == shutdown_poll_spec(hook_ok, signal, now_millis as int, deadline, slot, delay),
{
    if !hook_ok {
        return ShutdownPoll::Kill;
    }
    if let Some(s) = signal {
        return ShutdownPoll::Abort(error_of_signal(s));
    }
    if let Some(d) = deadline {
        if now_millis > d {
            return ShutdownPoll::Kill;
        }
    }
    match slot {
        None => ShutdownPoll::Exited,
        Some(WaitStatus::Exited(_)) => ShutdownPoll::Exited,
        Some(WaitStatus::Failed) => ShutdownPoll::Abort(SupervisorError::IOError),
        Some(WaitStatus::Running) => ShutdownPoll::Sleep(delay),
    }
}

pub open spec fn digit_char(d: int) -> char {
    if d == 0 { '0' } else if d == 1 { '1' } else if d == 2 { '2' } else if d == 3 { '3' }
    else if d == 4 { '4' } else if d == 5 { '5' } else if d == 6 { '6' } else if d == 7 { '7' }
    else if d == 8 { '8' } else { '9' }
}

/// The decimal digits of `n`, most significant first, without leading zeros.
pub open spec fn decimal(n: nat) -> Seq<char>
    decreases n,
{
    if n < 10 {
        seq![digit_char(n as int)]
    } else {
        decimal(n / 10).push(digit_char((n % 10) as int))
    }
}

/// Relies on `u32`'s `Display` through `ToString::to_string`: it writes the
/// number in decimal, with no sign, padding or leading zeros.
#[verifier::external_body]
fn pid_text(pid: u32) -> (r: String)
    ensures
        r@ == decimal(pid as nat),
{
    pid.to_string()
}

/// The name of the variable that holds the lifecycle phase of a hook.
pub open spec fn action_var() -> Seq<char> {
    seq!['O', 'R', 'D', 'E', 'R', 'L', 'Y', '_', 'A', 'C', 'T', 'I', 'O', 'N']
}

/// The name of the variable that holds the name of a hook's process.
pub open spec fn service_var() -> Seq<char> {
    seq!['O', 'R', 'D', 'E', 'R', 'L', 'Y', '_', 'S', 'E', 'R', 'V', 'I', 'C', 'E', '_', 'N', 'A', 'M', 'E']
}

/// The name of the variable that holds the pid of a hook's process.
pub open spec fn pid_var() -> Seq<char> {
    seq!['O', 'R', 'D', 'E', 'R', 'L', 'Y', '_', 'R', 'U', 'N', '_', 'P', 'I', 'D']
}

pub open spec fn env_view(env: Seq<(String, String)>) -> Seq<(Seq<char>, Seq<char>)> {
    env.map_values(|p: (String, String)| (p.0@, p.1@))
}

/// The environment of a supervisor-level hook: its phase only.
pub fn get_supervisor_script_env(action: &str) -> (r: Vec<(String, String)>)
    ensures
        r@.len() == 1,
        env_view(r@) == seq![(action_var(), action@)],
{
    let name = "ORDERLY_ACTION".to_owned();
    proof {
        reveal_strlit("ORDERLY_ACTION");
    }
    assert(name@ =~= action_var());
    let mut v: Vec<(String, String)> = Vec::new();
    v.push((name, action.to_owned()));
    assert(env_view(v@)[0] == (action_var(), action@));
    assert(env_view(v@) =~= seq![(action_var(), action@)]);
    v
}

/// The environment of a hook of one process: its phase, the process's name,
/// and the pid of the process's child when it has one.
pub fn get_proc_script_env(action: &str, name: &str, pid: Option<u32>) -> (r: Vec<(String, String)>)
    ensures
        pid is None ==> env_view(r@) == seq![(action_var(), action@), (service_var(), name@)],
        pid is Some ==> env_view(r@) == seq![
            (action_var(), action@),
            (service_var(), name@),
            (pid_var(), decimal(pid->0 as nat)),
        ],
{
    let mut env = get_supervisor_script_env(action);
    let var = "ORDERLY_SERVICE_NAME".to_owned();
    proof {
        reveal_strlit("ORDERLY_SERVICE_NAME");
    }
    assert(var@ =~= service_var());
    let ghost e0 = env@;
    assert(env_view(e0)[0] == (action_var(), action@));
    env.push((var, name.to_owned()));
    assert(env@[0] == e0[0]);
    assert(env_view(env@)[0] == (action_var(), action@));
    assert(env_view(env@)[1] == (service_var(), name@));
    assert(env_view(env@) =~= seq![(action_var(), action@), (service_var(), name@)]);
    if let Some(p) = pid {
        let var = "ORDERLY_RUN_PID".to_owned();
        proof {
            reveal_strlit("ORDERLY_RUN_PID");
        }
        assert(var@ =~= pid_var());
        let ghost before = env_view(env@);
        let ghost e1 = env@;
        env.push((var, pid_text(p)));
        assert(env@[0] == e1[0] && env@[1] == e1[1]);
        assert(env_view(env@)[0] == before[0]);
        assert(env_view(env@)[1] == before[1]);
        assert(env_view(env@)[2] == (pid_var(), decimal(p as nat)));
        assert(env_view(env@) =~= seq![
            (action_var(), action@),
            (service_var(), name@),
            (pid_var(), decimal(p as nat)),
        ]);
    }
    env
}

} // verus!
