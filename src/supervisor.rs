use vstd::prelude::*;
use crate::limiter::{LimiterState, RateLimiter, take_spec};
use crate::runner::SupervisorError;
use crate::specs::SupervisorSpec;

verus! {

/// A line of the status file.
#[derive(Debug, Clone, Copy, PartialEq, Eq, Structural)]
pub enum StatusWord {
    Starting,
    Running,
}

/// The text written to the status file for a status word.
pub fn status_line(w: StatusWord) -> (r: &'static str)
    ensures
        w == StatusWord::Starting ==> r@ == "STARTING\n"@,
        w == StatusWord::Running ==> r@ == "RUNNING\n"@,
{
    match w {
        StatusWord::Starting => "STARTING\n",
        StatusWord::Running => "RUNNING\n",
    }
}

/// A lifecycle hook of the supervisor itself.
#[derive(Debug, Clone, Copy, PartialEq, Eq, Structural)]
pub enum Hook {
    Restart,
    StartComplete,
    Failure,
}

/// What the supervisor asks its caller to do next. The caller does it and
/// hands the outcome back to `Supervisor::next`.
#[derive(Debug, Clone, Copy, PartialEq, Eq, Structural)]
pub enum Action {
    WriteStatus(StatusWord),
    RunHook(Hook),
    KillProc(usize),
    StartProc(usize),
    CheckProc(usize),
    ShutdownProc(usize),
    /// Sleep this many milliseconds, interruptibly.
    Sleep(u64),
    /// Remove the status file and exit with this code.
    Exit(i32),
}

/// The action whose outcome the supervisor waits for.
#[derive(Debug, Clone, Copy, PartialEq, Eq, Structural)]
pub enum Phase {
    /// Nothing was asked yet.
    Begin,
    WritingStarting,
    RestartHook,
    /// Killing the procs before a start, from the last one down.
    Killing(usize),
    /// Starting the procs, from the first one up.
    Starting(usize),
    WritingRunning,
    StartCompleteHook,
    /// Checking the procs, from the first one up.
    Checking(usize),
    Sleeping,
    /// Graceful teardown, from the last proc down.
    ShuttingDown(usize),
    /// Forced teardown, from the last proc down, then exit with the code.
    Tearing(usize, i32),
    FailureHook,
    Exited(i32),
}

/// The supervisor as seen by its contracts.
pub ghost struct SupState {
    pub n: nat,
    pub has_restart_hook: bool,
    pub has_start_complete_hook: bool,
    pub has_failure_hook: bool,
    pub check_delay: u64,
    pub first_start: bool,
    pub num_restarts: nat,
    pub limiter: LimiterState,
    pub phase: Phase,
}

pub open spec fn exit_code_ok(c: i32) -> bool {
    c == 0 || c == 1
}

impl SupState {
    pub open spec fn wf(self) -> bool {
        &&& 1 <= self.n <= usize::MAX
        &&& self.num_restarts <= u64::MAX
        &&& self.limiter.wf()
        &&& match self.phase {
            Phase::Killing(i) => i < self.n,
            Phase::Starting(i) => i < self.n,
            Phase::Checking(i) => i < self.n,
            Phase::ShuttingDown(i) => i < self.n,
            Phase::Tearing(i, c) => i < self.n && exit_code_ok(c),
            Phase::Exited(c) => exit_code_ok(c),
            _ => true,
        }
    }
}

/// Phases of the final teardown.
pub open spec fn in_teardown(p: Phase) -> bool {
    p is ShuttingDown || p is Tearing || p is FailureHook || p is Exited
}

pub open spec fn teardown_spec(s: SupState, code: i32) -> (SupState, Action) {
    (SupState { phase: Phase::Tearing((s.n - 1) as usize, code), ..s }, Action::KillProc((s.n - 1) as usize))
}

pub open spec fn kill_all_spec(s: SupState) -> (SupState, Action) {
    (SupState { phase: Phase::Killing((s.n - 1) as usize), ..s }, Action::KillProc((s.n - 1) as usize))
}

pub open spec fn checks_spec(s: SupState) -> (SupState, Action) {
    (SupState { phase: Phase::Checking(0), ..s }, Action::CheckProc(0))
}

/// After the status line (if any): take a token, run the restart hook on a
/// restart, then kill everything before starting.
#[verifier::opaque]
pub open spec fn after_status_spec(s: SupState, now: int) -> (SupState, Action) {
    let (l, ok) = take_spec(s.limiter, now);
    let s1 = SupState { limiter: l, ..s };
    if !ok {
        teardown_spec(s1, 1)
    } else if s1.num_restarts > 0 && s1.has_restart_hook {
        (SupState { phase: Phase::RestartHook, ..s1 }, Action::RunHook(Hook::Restart))
    } else {
        kill_all_spec(s1)
    }
}

/// A new cycle: announce the first start, then go on.
#[verifier::opaque]
pub open spec fn begin_cycle_spec(s: SupState, now: int) -> (SupState, Action) {
    if s.first_start {
        (SupState { phase: Phase::WritingStarting, ..s }, Action::WriteStatus(StatusWord::Starting))
    } else {
        after_status_spec(s, now)
    }
}

/// A cycle ended with `e`: restart, tear down gracefully, or tear down by force.
#[verifier::opaque]
pub open spec fn end_cycle_spec(s: SupState, e: SupervisorError, now: int) -> (SupState, Action) {
    match e {
        SupervisorError::IOError | SupervisorError::ProcFailed => begin_cycle_spec(
            SupState {
                num_restarts: if s.num_restarts < u64::MAX { s.num_restarts + 1 } else { s.num_restarts },
                ..s
            },
            now,
        ),
        SupervisorError::Shutdown => (
            SupState { phase: Phase::ShuttingDown((s.n - 1) as usize), ..s },
            Action::ShutdownProc((s.n - 1) as usize),
        ),
        _ => teardown_spec(s, 1),
    }
}

pub open spec fn next_spec(s: SupState, o: Result<(), SupervisorError>, now: int) -> (SupState, Action) {
    match s.phase {
        Phase::Begin => begin_cycle_spec(s, now),
        Phase::WritingStarting => match o {
            Err(e) => end_cycle_spec(s, e, now),
            Ok(_) => after_status_spec(s, now),
        },
        Phase::RestartHook => kill_all_spec(s),
        Phase::Killing(i) => match o {
            Err(e) => end_cycle_spec(s, e, now),
            Ok(_) => if i == 0 {
                (SupState { phase: Phase::Starting(0), ..s }, Action::StartProc(0))
            } else {
                (SupState { phase: Phase::Killing((i - 1) as usize), ..s }, Action::KillProc((i - 1) as usize))
            },
        },
        Phase::Starting(i) => match o {
            Err(e) => end_cycle_spec(s, e, now),
            Ok(_) => if i + 1 < s.n {
                (SupState { phase: Phase::Starting((i + 1) as usize), ..s }, Action::StartProc((i + 1) as usize))
            } else if s.first_start {
                (
                    SupState { phase: Phase::WritingRunning, first_start: false, ..s },
                    Action::WriteStatus(StatusWord::Running),
                )
            } else {
                checks_spec(s)
            },
        },
        Phase::WritingRunning => match o {
            Err(e) => end_cycle_spec(s, e, now),
            Ok(_) => if s.has_start_complete_hook {
                (SupState { phase: Phase::StartCompleteHook, ..s }, Action::RunHook(Hook::StartComplete))
            } else {
                checks_spec(s)
            },
        },
        Phase::StartCompleteHook => match o {
            Err(e) => end_cycle_spec(s, e, now),
            Ok(_) => checks_spec(s),
        },
        Phase::Checking(i) => match o {
            Err(e) => end_cycle_spec(s, e, now),
            Ok(_) => if i + 1 < s.n {
                (SupState { phase: Phase::Checking((i + 1) as usize), ..s }, Action::CheckProc((i + 1) as usize))
            } else {
                (SupState { phase: Phase::Sleeping, ..s }, Action::Sleep(s.check_delay))
            },
        },
        Phase::Sleeping => match o {
            Err(e) => end_cycle_spec(s, e, now),
            Ok(_) => checks_spec(s),
        },
        Phase::ShuttingDown(i) => match o {
            Err(_) => teardown_spec(s, 0),
            Ok(_) => if i == 0 {
                (SupState { phase: Phase::Exited(0), ..s }, Action::Exit(0))
            } else {
                (
                    SupState { phase: Phase::ShuttingDown((i - 1) as usize), ..s },
                    Action::ShutdownProc((i - 1) as usize),
                )
            },
        },
        Phase::Tearing(i, c) => if i > 0 {
            (SupState { phase: Phase::Tearing((i - 1) as usize, c), ..s }, Action::KillProc((i - 1) as usize))
        } else if c == 1 && s.has_failure_hook {
            (SupState { phase: Phase::FailureHook, ..s }, Action::RunHook(Hook::Failure))
        } else {
            (SupState { phase: Phase::Exited(c), ..s }, Action::Exit(c))
        },
        Phase::FailureHook => (SupState { phase: Phase::Exited(1), ..s }, Action::Exit(1)),
        Phase::Exited(c) => (s, Action::Exit(c)),
    }
}

/// The supervision state machine: ordered start of all procs, rounds of health
/// checks, rate-limited restarts, lifecycle hooks and the final teardown.
pub struct Supervisor {
    n: usize,
    has_restart_hook: bool,
    has_start_complete_hook: bool,
    has_failure_hook: bool,
    check_delay: u64,
    first_start: bool,
    num_restarts: u64,
    limiter: RateLimiter,
    phase: Phase,
}

impl View for Supervisor {
    type V = SupState;

    closed spec fn view(&self) -> SupState {
        SupState {
            n: self.n as nat,
            has_restart_hook: self.has_restart_hook,
            has_start_complete_hook: self.has_start_complete_hook,
            has_failure_hook: self.has_failure_hook,
            check_delay: self.check_delay,
            first_start: self.first_start,
            num_restarts: self.num_restarts as nat,
            limiter: self.limiter@,
            phase: self.phase,
        }
    }
}

pub open spec fn initial_sup_state(spec: SupervisorSpec, limiter: LimiterState) -> SupState {
    SupState {
        n: spec.procs@.len(),
        has_restart_hook: spec.restart is Some,
        has_start_complete_hook: spec.start_complete is Some,
        has_failure_hook: spec.failure is Some,
        check_delay: spec.check_delay_millis,
        first_start: true,
        num_restarts: 0,
        limiter,
        phase: Phase::Begin,
    }
}

impl Supervisor {
    /// A supervisor of the procs of `spec`, none started yet; `now_millis`
    /// starts the restart limiter's clock.
    pub fn new(spec: &SupervisorSpec, now_millis: u64) -> (r: Self)
        requires
            spec.procs@.len() >= 1,
        ensures
            r@ == initial_sup_state(
                *spec,
                crate::limiter::initial_state(
                    spec.max_restart_tokens as int,
                    spec.restart_tokens_per_second as int,
                    now_millis as int,
                ),
            ),
            r@.wf(),
    {
        Supervisor {
            n: spec.procs.len(),
            has_restart_hook: spec.restart.is_some(),
            has_start_complete_hook: spec.start_complete.is_some(),
            has_failure_hook: spec.failure.is_some(),
            check_delay: spec.check_delay_millis,
            first_start: true,
            num_restarts: 0,
            limiter: RateLimiter::new(spec.max_restart_tokens, spec.restart_tokens_per_second, now_millis),
            phase: Phase::Begin,
        }
    }

    /// How many times supervision restarted.
    pub fn num_restarts(&self) -> (r: u64)
        ensures
            r == self@.num_restarts,
    {
        self.num_restarts
    }

    /// The action whose outcome is awaited.
    pub fn phase(&self) -> (r: Phase)
        ensures
            r == self@.phase,
    {
        self.phase
    }

    fn teardown(&mut self, code: i32) -> (r: Action)
        requires
            old(self)@.wf(),
            exit_code_ok(code),
        ensures
            (final(self)@, r) == teardown_spec(old(self)@, code),
            final(self)@.wf(),
    {
        self.phase = Phase::Tearing(self.n - 1, code);
        Action::KillProc(self.n - 1)
    }

    fn kill_all(&mut self) -> (r: Action)
        requires
            old(self)@.wf(),
        ensures
            (final(self)@, r) == kill_all_spec(old(self)@),
            final(self)@.wf(),
    {
        self.phase = Phase::Killing(self.n - 1);
        Action::KillProc(self.n - 1)
    }

    fn checks(&mut self) -> (r: Action)
        requires
            old(self)@.wf(),
        ensures
            (final(self)@, r) == checks_spec(old(self)@),
            final(self)@.wf(),
    {
        self.phase = Phase::Checking(0);
        Action::CheckProc(0)
    }

    fn after_status(&mut self, now_millis: u64) -> (r: Action)
        requires
            old(self)@.wf(),
        ensures
            (final(self)@, r) == after_status_spec(old(self)@, now_millis as int),
            !(r is Exit),
            !(r is Sleep),
            final(self)@.wf(),
    {
        reveal(after_status_spec);
        if !self.limiter.take(now_millis) {
            self.teardown(1)
        } else if self.num_restarts > 0 && self.has_restart_hook {
            self.phase = Phase::RestartHook;
            Action::RunHook(Hook::Restart)
        } else {
            self.kill_all()
        }
    }

    fn begin_cycle(&mut self, now_millis: u64) -> (r: Action)
        requires
            old(self)@.wf(),
        ensures
            (final(self)@, r) == begin_cycle_spec(old(self)@, now_millis as int),
            !(r is Exit),
            !(r is Sleep),
            final(self)@.wf(),
    {
        reveal(begin_cycle_spec);
        if self.first_start {
            self.phase = Phase::WritingStarting;
            Action::WriteStatus(StatusWord::Starting)
        } else {
            self.after_status(now_millis)
        }
    }

    fn end_cycle(&mut self, e: SupervisorError, now_millis: u64) -> (r: Action)
        requires
            old(self)@.wf(),
        ensures
            (final(self)@, r) == end_cycle_spec(old(self)@, e, now_millis as int),
            !(r is Exit),
            !(r is Sleep),
            final(self)@.wf(),
    {
        reveal(end_cycle_spec);
        match e {
            SupervisorError::IOError | SupervisorError::ProcFailed => {
                if self.num_restarts < u64::MAX {
                    self.num_restarts = self.num_restarts + 1;
                }
                self.begin_cycle(now_millis)
            },
            SupervisorError::Shutdown => {
                self.phase = Phase::ShuttingDown(self.n - 1);
                Action::ShutdownProc(self.n - 1)
            },
            _ => self.teardown(1),
        }
    }

    /// Takes the outcome of the last action asked for (any value at the first
    /// call) and the time of a monotonic clock in milliseconds, and returns the
    /// next action.
    pub fn next(&mut self, outcome: Result<(), SupervisorError>, now_millis: u64) -> (r: Action)
        requires
            old(self)@.wf(),
        ensures
            (final(self)@, r) == next_spec(old(self)@, outcome, now_millis as int),
            final(self)@.wf(),
            r is Exit ==> exit_code_ok(r->Exit_0),
            r is Sleep ==> r->Sleep_0 == old(self)@.check_delay,
    {
        match self.phase {
            Phase::Begin => self.begin_cycle(now_millis),
            Phase::WritingStarting => match outcome {
                Err(e) => self.end_cycle(e, now_millis),
                Ok(_) => self.after_status(now_millis),
            },
            Phase::RestartHook => self.kill_all(),
            Phase::Killing(i) => match outcome {
                Err(e) => self.end_cycle(e, now_millis),
                Ok(_) => if i == 0 {
                    self.phase = Phase::Starting(0);
                    Action::StartProc(0)
                } else {
                    self.phase = Phase::Killing(i - 1);
                    Action::KillProc(i - 1)
                },
            },
            Phase::Starting(i) => match outcome {
                Err(e) => self.end_cycle(e, now_millis),
                Ok(_) => if i + 1 < self.n {
                    self.phase = Phase::Starting(i + 1);
                    Action::StartProc(i + 1)
                } else if self.first_start {
                    self.first_start = false;
                    self.phase = Phase::WritingRunning;
                    Action::WriteStatus(StatusWord::Running)
                } else {
                    self.checks()
                },
            },
            Phase::WritingRunning => match outcome {
                Err(e) => self.end_cycle(e, now_millis),
                Ok(_) => if self.has_start_complete_hook {
                    self.phase = Phase::StartCompleteHook;
                    Action::RunHook(Hook::StartComplete)
                } else {
                    self.checks()
                },
            },
            Phase::StartCompleteHook => match outcome {
                Err(e) => self.end_cycle(e, now_millis),
                Ok(_) => self.checks(),
            },
            Phase::Checking(i) => match outcome {
                Err(e) => self.end_cycle(e, now_millis),
                Ok(_) => if i + 1 < self.n {
                    self.phase = Phase::Checking(i + 1);
                    Action::CheckProc(i + 1)
                } else {
                    self.phase = Phase::Sleeping;
                    Action::Sleep(self.check_delay)
                },
            },
            Phase::Sleeping => match outcome {
                Err(e) => self.end_cycle(e, now_millis),
                Ok(_) => self.checks(),
            },
            Phase::ShuttingDown(i) => match outcome {
                Err(_) => self.teardown(0),
                Ok(_) => if i == 0 {
                    self.phase = Phase::Exited(0);
                    Action::Exit(0)
                } else {
                    self.phase = Phase::ShuttingDown(i - 1);
                    Action::ShutdownProc(i - 1)
                },
            },
            Phase::Tearing(i, c) => if i > 0 {
                self.phase = Phase::Tearing(i - 1, c);
                Action::KillProc(i - 1)
            } else if c == 1 && self.has_failure_hook {
                self.phase = Phase::FailureHook;
                Action::RunHook(Hook::Failure)
            } else {
                self.phase = Phase::Exited(c);
                Action::Exit(c)
            },
            Phase::FailureHook => {
                self.phase = Phase::Exited(1);
                Action::Exit(1)
            },
            Phase::Exited(c) => Action::Exit(c),
        }
    }
}

/// How many steps at most the teardown still takes.
pub open spec fn teardown_measure(s: SupState) -> nat {
    match s.phase {
        Phase::ShuttingDown(i) => (s.n + 2 + i) as nat,
        Phase::Tearing(i, _) => (i + 2) as nat,
        Phase::FailureHook => 1,
        _ => 0,
    }
}

/// The exit code that a teardown is headed for.
pub open spec fn teardown_code(p: Phase) -> i32 {
    match p {
        Phase::ShuttingDown(_) => 0,
        Phase::Tearing(_, c) => c,
        Phase::FailureHook => 1,
        Phase::Exited(c) => c,
        _ => 1,
    }
}

/// Once the teardown has begun, every step stays in it and brings the exit
/// closer, whatever the outcomes of the actions: the supervisor exits. A
/// graceful teardown exits with 0, even when it has to fall back to killing;
/// a forced one keeps the code it began with. The exit comes only once the
/// first proc, the last of the descending run, was shut down or killed.
pub proof fn lemma_teardown_reaches_exit(s: SupState, o: Result<(), SupervisorError>, now: int)
    requires
        s.wf(),
        in_teardown(s.phase),
        !(s.phase is Exited),
    ensures
        in_teardown(next_spec(s, o, now).0.phase),
        teardown_measure(next_spec(s, o, now).0) < teardown_measure(s),
        teardown_code(next_spec(s, o, now).0.phase) == teardown_code(s.phase),
        exit_code_ok(teardown_code(next_spec(s, o, now).0.phase)),
        next_spec(s, o, now).1 is Exit ==> next_spec(s, o, now).1->Exit_0 == teardown_code(s.phase),
        next_spec(s, o, now).1 is Exit ==> s.phase == Phase::ShuttingDown(0) || s.phase
            is FailureHook || (s.phase is Tearing && s.phase->Tearing_0 == 0),
{
}

/// A signal seen in the middle of a cycle starts the teardown: after SIGINT a
/// graceful one, from the last proc down, which exits with 0; after SIGTERM a
/// forced one, from the last proc down, which exits with 1.
pub proof fn lemma_signal_starts_teardown(s: SupState, now: int)
    requires
        s.wf(),
        !in_teardown(s.phase),
        !(s.phase is Begin),
        !(s.phase is RestartHook),
    ensures
        next_spec(s, Err(SupervisorError::Shutdown), now).0.phase == Phase::ShuttingDown((s.n - 1) as usize),
        next_spec(s, Err(SupervisorError::Shutdown), now).1 == Action::ShutdownProc((s.n - 1) as usize),
        next_spec(s, Err(SupervisorError::Terminated), now).0.phase == Phase::Tearing((s.n - 1) as usize, 1),
        next_spec(s, Err(SupervisorError::Terminated), now).1 == Action::KillProc((s.n - 1) as usize),
{
    reveal(end_cycle_spec);
}

/// Procs start in ascending order, the first one only once the last kill of
/// the cycle is done, and are checked in ascending order; kills and shutdowns
/// go in descending order, each run of them beginning at the last proc.
pub proof fn lemma_action_order(s: SupState, o: Result<(), SupervisorError>, now: int)
    requires
        s.wf(),
    ensures
        ({
            let a = next_spec(s, o, now).1;
            &&& a is StartProc ==> (a->StartProc_0 == 0 && s.phase == Phase::Killing(0)) || (
            a->StartProc_0 > 0 && s.phase == Phase::Starting((a->StartProc_0 - 1) as usize))
            &&& a is CheckProc ==> a->CheckProc_0 == 0 || s.phase == Phase::Checking(
                (a->CheckProc_0 - 1) as usize,
            )
            &&& a is KillProc ==> a->KillProc_0 == s.n - 1 || s.phase == Phase::Killing(
                (a->KillProc_0 + 1) as usize,
            ) || s.phase == Phase::Tearing((a->KillProc_0 + 1) as usize, s.phase->Tearing_1)
            &&& a is ShutdownProc ==> a->ShutdownProc_0 == s.n - 1 || s.phase == Phase::ShuttingDown(
                (a->ShutdownProc_0 + 1) as usize,
            )
        }),
{
    reveal(end_cycle_spec);
    reveal(begin_cycle_spec);
    reveal(after_status_spec);
}

} // verus!
