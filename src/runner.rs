use vstd::prelude::*;

verus! {

/// An event of the signal channel.
#[derive(Debug, Clone, Copy, PartialEq, Eq, Structural)]
pub enum Signal {
    /// SIGINT: tear down gracefully.
    Shutdown,
    /// SIGTERM: exit at once.
    Terminate,
}

/// Why a supervision step stopped.
#[derive(Debug, Clone, Copy, PartialEq, Eq, Structural)]
pub enum SupervisorError {
    IOError,
    Shutdown,
    Terminated,
    RestartLimitReached,
    ProcFailed,
    UnkillableChild,
}

/// What a non-blocking wait on a child told.
#[derive(Debug, Clone, Copy, PartialEq, Eq, Structural)]
pub enum WaitStatus {
    /// It is still running.
    Running,
    /// It exited; `true` when with status zero.
    Exited(bool),
    /// The wait itself failed.
    Failed,
}

/// First delay of a polling loop, in milliseconds.
pub const INITIAL_POLL_DELAY_MILLIS: u64 = 10;

/// What each poll adds to the delay, in milliseconds.
pub const POLL_DELAY_STEP_MILLIS: u64 = 50;

/// Cap of the delay between two polls, in milliseconds.
pub const MAX_POLL_DELAY_MILLIS: u64 = 500;

/// Grace period given to a hook that has to be killed, in milliseconds.
pub const HOOK_KILL_TIMEOUT_MILLIS: u64 = 10000;

/// How many polls follow SIGKILL before a child counts as unkillable.
pub const KILL_POLLS: u32 = 1000;

/// Delay between two polls of a child being killed, in milliseconds.
pub const KILL_POLL_MILLIS: u64 = 10;

pub open spec fn next_delay_spec(d: int) -> int {
    if d + POLL_DELAY_STEP_MILLIS > MAX_POLL_DELAY_MILLIS {
        MAX_POLL_DELAY_MILLIS as int
    } else {
        d + POLL_DELAY_STEP_MILLIS
    }
}

/// The delay before the next poll: grows by a fixed step, up to the cap.
pub fn next_poll_delay(d: u64) -> (r: u64)
    ensures
        r == next_delay_spec(d as int),
        r <= MAX_POLL_DELAY_MILLIS,
{
    if d >= MAX_POLL_DELAY_MILLIS - POLL_DELAY_STEP_MILLIS {
        MAX_POLL_DELAY_MILLIS
    } else {
        d + POLL_DELAY_STEP_MILLIS
    }
}

pub open spec fn deadline_spec(start: int, timeout: Option<u64>) -> Option<u64> {
    match timeout {
        None => None,
        Some(t) => Some(
            if start + t > u64::MAX {
                u64::MAX
            } else {
                (start + t) as u64
            },
        ),
    }
}

/// The instant a timeout that starts at `start_millis` runs out; `None` when
/// there is no timeout. Saturates at the clock's largest value.
pub fn deadline_from_millis(start_millis: u64, timeout_millis: Option<u64>) -> (r: Option<u64>)
    ensures
        r == deadline_spec(start_millis as int, timeout_millis),
{
    match timeout_millis {
        None => None,
        Some(t) => Some(
            if t > u64::MAX - start_millis {
                u64::MAX
            } else {
                start_millis + t
            },
        ),
    }
}

pub open spec fn past_deadline(now: int, deadline: Option<u64>) -> bool {
    match deadline {
        None => false,
        Some(d) => now > d,
    }
}

/// What one poll of a running command decides.
#[derive(Debug, Clone, Copy, PartialEq, Eq, Structural)]
pub enum PollDecision {
    /// Stop without touching the command, with this error.
    Abort(SupervisorError),
    /// Kill the command's process group, then fail with `ProcFailed`.
    KillAndFail,
    /// The command exited with status zero.
    Succeeded,
    /// Fail with this error; the command is already gone.
    Fail(SupervisorError),
    /// Sleep this many milliseconds, interruptibly, and poll again.
    Sleep(u64),
}

pub open spec fn signal_error(s: Signal) -> SupervisorError {
    match s {
        Signal::Shutdown => SupervisorError::Shutdown,
        Signal::Terminate => SupervisorError::Terminated,
    }
}

/// The error that a signal turns into.
pub fn error_of_signal(s: Signal) -> (r: SupervisorError)
    ensures
        r == signal_error(s),
{
    match s {
        Signal::Shutdown => SupervisorError::Shutdown,
        Signal::Terminate => SupervisorError::Terminated,
    }
}

pub open spec fn poll_spec(
    signal: Option<Signal>,
    now: int,
    deadline: Option<u64>,
    dependency_alive: Option<bool>,
    child: WaitStatus,
    delay: int,
) -> PollDecision {
    if signal is Some {
        PollDecision::Abort(signal_error(signal->0))
    } else if past_deadline(now, deadline) {
        PollDecision::KillAndFail
    } else if dependency_alive == Some(false) {
        PollDecision::KillAndFail
    } else {
        match child {
            WaitStatus::Exited(true) => PollDecision::Succeeded,
            WaitStatus::Exited(false) => PollDecision::Fail(SupervisorError::ProcFailed),
            WaitStatus::Failed => PollDecision::Fail(SupervisorError::IOError),
            WaitStatus::Running => PollDecision::Sleep(delay as u64),
        }
    }
}

/// One poll of a command run with a deadline and, optionally, a process it
/// depends on. In order: a pending signal aborts; a passed deadline or a dead
/// dependency (`Some(false)`) gets the command killed; an exit decides
/// success; else the runner sleeps `delay` milliseconds.
pub fn run_command_poll(
    signal: Option<Signal>,
    now_millis: u64,
    deadline: Option<u64>,
    dependency_alive: Option<bool>,
    child: WaitStatus,
    delay: u64,
) -> (r: PollDecision)
    ensures
        r == poll_spec(signal, now_millis as int, deadline, dependency_alive, child, delay as int),
        r is Sleep ==> r->Sleep_0 == delay,
{
    if let Some(s) = signal {
        return PollDecision::Abort(error_of_signal(s));
    }
    if let Some(d) = deadline {
        if now_millis > d {
            return PollDecision::KillAndFail;
        }
    }
    if let Some(alive) = dependency_alive {
        if !alive {
            return PollDecision::KillAndFail;
        }
    }
    match child {
        WaitStatus::Exited(ok) => if ok {
            PollDecision::Succeeded
        } else {
            PollDecision::Fail(SupervisorError::ProcFailed)
        },
        WaitStatus::Failed => PollDecision::Fail(SupervisorError::IOError),
        WaitStatus::Running => PollDecision::Sleep(delay),
    }
}

} // verus!
