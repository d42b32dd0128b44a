use vstd::prelude::*;

verus! {

/// Why a specification could not be built.
#[derive(Debug, PartialEq, Eq)]
pub enum SpecError {
    MissingField(&'static str),
}

/// Collects the settings of one managed process.
///
/// Durations are in milliseconds; `None` means "no timeout".
#[derive(Debug)]
pub struct ProcSpecBuilder {
    pub name: Option<String>,
    pub run: Option<String>,
    pub wait_started: Option<String>,
    pub wait_started_timeout_millis: Option<u64>,
    pub check: Option<String>,
    pub check_timeout_millis: Option<u64>,
    pub shutdown: Option<String>,
    pub shutdown_timeout_millis: Option<u64>,
    pub terminate_timeout_millis: Option<u64>,
    pub cleanup: Option<String>,
    pub cleanup_timeout_millis: Option<u64>,
}

/// Default timeout of the hooks of a process: one minute.
pub const DEFAULT_HOOK_TIMEOUT_MILLIS: u64 = 60000;

/// Default grace period between SIGTERM and SIGKILL: ten seconds.
pub const DEFAULT_TERMINATE_TIMEOUT_MILLIS: u64 = 10000;

/// A duration given in milliseconds: a positive one bounds the wait, any other
/// means "no timeout".
pub open spec fn timeout_of(millis: i64) -> Option<u64> {
    if millis > 0 { Some(millis as u64) } else { None }
}

fn timeout_from_millis(millis: i64) -> (r: Option<u64>)
    ensures
        r == timeout_of(millis),
{
    if millis > 0 { Some(millis as u64) } else { None }
}

impl ProcSpecBuilder {
    pub fn new() -> (r: Self)
        ensures
            r.name is None,
            r.run is None,
            r.wait_started is None,
            r.check is None,
            r.shutdown is None,
            r.cleanup is None,
            r.wait_started_timeout_millis == Some(DEFAULT_HOOK_TIMEOUT_MILLIS),
            r.check_timeout_millis == Some(DEFAULT_HOOK_TIMEOUT_MILLIS),
            r.shutdown_timeout_millis == Some(DEFAULT_HOOK_TIMEOUT_MILLIS),
            r.cleanup_timeout_millis == Some(DEFAULT_HOOK_TIMEOUT_MILLIS),
            r.terminate_timeout_millis == Some(DEFAULT_TERMINATE_TIMEOUT_MILLIS),
    {
        ProcSpecBuilder {
            name: None,
            run: None,
            check: None,
            check_timeout_millis: Some(DEFAULT_HOOK_TIMEOUT_MILLIS),
            wait_started: None,
            wait_started_timeout_millis: Some(DEFAULT_HOOK_TIMEOUT_MILLIS),
            shutdown: None,
            shutdown_timeout_millis: Some(DEFAULT_HOOK_TIMEOUT_MILLIS),
            cleanup: None,
            cleanup_timeout_millis: Some(DEFAULT_HOOK_TIMEOUT_MILLIS),
            terminate_timeout_millis: Some(DEFAULT_TERMINATE_TIMEOUT_MILLIS),
        }
    }

    pub fn set_name(&mut self, name: String)
        ensures
            *final(self) == (ProcSpecBuilder { name: Some(name), ..*old(self) }),
    {
        self.name = Some(name);
    }

    pub fn set_run(&mut self, run: String)
        ensures
            *final(self) == (ProcSpecBuilder { run: Some(run), ..*old(self) }),
    {
        self.run = Some(run);
    }

    pub fn set_check(&mut self, check: String)
        ensures
            *final(self) == (ProcSpecBuilder { check: Some(check), ..*old(self) }),
    {
        self.check = Some(check);
    }

    pub fn set_wait_started(&mut self, wait_started: String)
        ensures
            *final(self) == (ProcSpecBuilder { wait_started: Some(wait_started), ..*old(self) }),
    {
        self.wait_started = Some(wait_started);
    }

    pub fn set_cleanup(&mut self, cleanup: String)
        ensures
            *final(self) == (ProcSpecBuilder { cleanup: Some(cleanup), ..*old(self) }),
    {
        self.cleanup = Some(cleanup);
    }

    pub fn set_shutdown(&mut self, shutdown: String)
        ensures
            *final(self) == (ProcSpecBuilder { shutdown: Some(shutdown), ..*old(self) }),
    {
        self.shutdown = Some(shutdown);
    }

    /// Sets the `wait_started` timeout, in milliseconds.
    pub fn set_wait_started_timeout_seconds(&mut self, timeout_millis: i64)
        ensures
            *final(self) == (ProcSpecBuilder {
                wait_started_timeout_millis: timeout_of(timeout_millis),
                ..*old(self)
            }),
    {
        self.wait_started_timeout_millis = timeout_from_millis(timeout_millis);
    }

    /// Sets the `check` timeout, in milliseconds.
    pub fn set_check_timeout_seconds(&mut self, timeout_millis: i64)
        ensures
            *final(self) == (ProcSpecBuilder {
                check_timeout_millis: timeout_of(timeout_millis),
                ..*old(self)
            }),
    {
        self.check_timeout_millis = timeout_from_millis(timeout_millis);
    }

    /// Sets the `shutdown` timeout, in milliseconds.
    pub fn set_shutdown_timeout_seconds(&mut self, timeout_millis: i64)
        ensures
            *final(self) == (ProcSpecBuilder {
                shutdown_timeout_millis: timeout_of(timeout_millis),
                ..*old(self)
            }),
    {
        self.shutdown_timeout_millis = timeout_from_millis(timeout_millis);
    }

    /// Sets the grace period between SIGTERM and SIGKILL, in milliseconds.
    pub fn set_terminate_timeout_seconds(&mut self, timeout_millis: i64)
        ensures
            *final(self) == (ProcSpecBuilder {
                terminate_timeout_millis: timeout_of(timeout_millis),
                ..*old(self)
            }),
    {
        self.terminate_timeout_millis = timeout_from_millis(timeout_millis);
    }

    /// Sets the `cleanup` timeout, in milliseconds.
    pub fn set_cleanup_timeout_seconds(&mut self, timeout_millis: i64)
        ensures
            *final(self) == (ProcSpecBuilder {
                cleanup_timeout_millis: timeout_of(timeout_millis),
                ..*old(self)
            }),
    {
        self.cleanup_timeout_millis = timeout_from_millis(timeout_millis);
    }

    /// Builds the process specification; `name` and `run` are required, and the
    /// name may not be empty.
    pub fn build(self) -> (r: Result<ProcSpec, SpecError>)
        ensures
            match self.name {
                None => r == Err::<ProcSpec, SpecError>(SpecError::MissingField("name")),
                Some(name) => if name@.len() == 0 {
                    r == Err::<ProcSpec, SpecError>(SpecError::MissingField("name"))
                } else {
                    match self.run {
                        None => r == Err::<ProcSpec, SpecError>(SpecError::MissingField("run")),
                        Some(run) => r == Ok::<ProcSpec, SpecError>(ProcSpec {
                            name,
                            run,
                            wait_started: self.wait_started,
                            wait_started_timeout_millis: self.wait_started_timeout_millis,
                            check: self.check,
                            check_timeout_millis: self.check_timeout_millis,
                            shutdown: self.shutdown,
                            shutdown_timeout_millis: self.shutdown_timeout_millis,
                            terminate_timeout_millis: self.terminate_timeout_millis,
                            cleanup: self.cleanup,
                            cleanup_timeout_millis: self.cleanup_timeout_millis,
                        }),
                    }
                }
            },
    {
        let name = match self.name {
            Some(name) => name,
            None => return Err(SpecError::MissingField("name")),
        };
        if name.as_str().is_empty() {
            return Err(SpecError::MissingField("name"));
        }
        let run = match self.run {
            Some(run) => run,
            None => return Err(SpecError::MissingField("run")),
        };
        Ok(ProcSpec {
            name,
            run,
            wait_started: self.wait_started,
            wait_started_timeout_millis: self.wait_started_timeout_millis,
            check: self.check,
            check_timeout_millis: self.check_timeout_millis,
            shutdown: self.shutdown,
            shutdown_timeout_millis: self.shutdown_timeout_millis,
            terminate_timeout_millis: self.terminate_timeout_millis,
            cleanup: self.cleanup,
            cleanup_timeout_millis: self.cleanup_timeout_millis,
        })
    }
}

/// The settings of one managed process. Durations are in milliseconds; `None`
/// means "no timeout".
#[derive(Debug)]
pub struct ProcSpec {
    pub name: String,
    pub run: String,
    pub wait_started: Option<String>,
    pub wait_started_timeout_millis: Option<u64>,
    pub check: Option<String>,
    pub check_timeout_millis: Option<u64>,
    pub shutdown: Option<String>,
    pub shutdown_timeout_millis: Option<u64>,
    pub terminate_timeout_millis: Option<u64>,
    pub cleanup: Option<String>,
    pub cleanup_timeout_millis: Option<u64>,
}

/// Collects the settings of the supervisor and its ordered list of processes.
///
/// Token figures are in thousandths of a token, durations in milliseconds.
#[derive(Debug)]
pub struct SupervisorSpecBuilder {
    pub status_file: Option<String>,
    pub restart_tokens_per_second: i64,
    pub max_restart_tokens: i64,
    pub check_delay_millis: u64,
    pub start_complete: Option<String>,
    pub start_complete_timeout_millis: Option<u64>,
    pub restart: Option<String>,
    pub restart_timeout_millis: Option<u64>,
    pub failure: Option<String>,
    pub failure_timeout_millis: Option<u64>,
    pub procs: Vec<ProcSpec>,
}

/// The whole configuration of a supervisor: at least one process, in start
/// order. Token figures are in thousandths of a token, durations in
/// milliseconds.
#[derive(Debug)]
pub struct SupervisorSpec {
    pub status_file: Option<String>,
    pub restart_tokens_per_second: i64,
    pub max_restart_tokens: i64,
    pub check_delay_millis: u64,
    pub start_complete: Option<String>,
    pub start_complete_timeout_millis: Option<u64>,
    pub restart: Option<String>,
    pub restart_timeout_millis: Option<u64>,
    pub failure: Option<String>,
    pub failure_timeout_millis: Option<u64>,
    pub procs: Vec<ProcSpec>,
}

/// Default refill rate of the restart limiter: 0.1 token per second.
pub const DEFAULT_RESTART_TOKENS_PER_SECOND: i64 = 100;

/// Default capacity of the restart limiter: five tokens.
pub const DEFAULT_MAX_RESTART_TOKENS: i64 = 5000;

/// Default gap between two rounds of health checks: five seconds.
pub const DEFAULT_CHECK_DELAY_MILLIS: u64 = 5000;

impl SupervisorSpecBuilder {
    pub fn new() -> (r: Self)
        ensures
            r.status_file is None,
            r.restart_tokens_per_second == DEFAULT_RESTART_TOKENS_PER_SECOND,
            r.max_restart_tokens == DEFAULT_MAX_RESTART_TOKENS,
            r.check_delay_millis == DEFAULT_CHECK_DELAY_MILLIS,
            r.start_complete is None,
            r.restart is None,
            r.failure is None,
            r.start_complete_timeout_millis == Some(DEFAULT_HOOK_TIMEOUT_MILLIS),
            r.restart_timeout_millis == Some(DEFAULT_HOOK_TIMEOUT_MILLIS),
            r.failure_timeout_millis == Some(DEFAULT_HOOK_TIMEOUT_MILLIS),
            r.procs@.len() == 0,
    {
        SupervisorSpecBuilder {
            restart_tokens_per_second: DEFAULT_RESTART_TOKENS_PER_SECOND,
            max_restart_tokens: DEFAULT_MAX_RESTART_TOKENS,
            check_delay_millis: DEFAULT_CHECK_DELAY_MILLIS,
            status_file: None,
            start_complete: None,
            start_complete_timeout_millis: Some(DEFAULT_HOOK_TIMEOUT_MILLIS),
            restart: None,
            restart_timeout_millis: Some(DEFAULT_HOOK_TIMEOUT_MILLIS),
            failure: None,
            failure_timeout_millis: Some(DEFAULT_HOOK_TIMEOUT_MILLIS),
            procs: Vec::new(),
        }
    }

    /// Sets the refill rate, in thousandths of a token per second.
    pub fn set_restart_tokens_per_second(&mut self, rate: i64)
        ensures
            *final(self) == (SupervisorSpecBuilder { restart_tokens_per_second: rate, ..*old(self) }),
    {
        self.restart_tokens_per_second = rate;
    }

    /// Sets the capacity of the restart limiter, in thousandths of a token.
    pub fn set_max_restart_tokens(&mut self, max_restart_tokens: i64)
        ensures
            *final(self) == (SupervisorSpecBuilder { max_restart_tokens, ..*old(self) }),
    {
        self.max_restart_tokens = max_restart_tokens;
    }

    /// Sets the gap between two rounds of health checks, in milliseconds.
    pub fn set_check_delay_seconds(&mut self, check_delay_millis: u64)
        ensures
            *final(self) == (SupervisorSpecBuilder { check_delay_millis, ..*old(self) }),
    {
        self.check_delay_millis = check_delay_millis;
    }

    pub fn set_status_file(&mut self, status_file: String)
        ensures
            *final(self) == (SupervisorSpecBuilder { status_file: Some(status_file), ..*old(self) }),
    {
        self.status_file = Some(status_file);
    }

    pub fn set_start_complete(&mut self, start_complete: String)
        ensures
            *final(self) == (SupervisorSpecBuilder {
                start_complete: Some(start_complete),
                ..*old(self)
            }),
    {
        self.start_complete = Some(start_complete);
    }

    /// Sets the `start_complete` timeout, in milliseconds.
    pub fn set_start_complete_timeout(&mut self, timeout_millis: i64)
        ensures
            *final(self) == (SupervisorSpecBuilder {
                start_complete_timeout_millis: timeout_of(timeout_millis),
                ..*old(self)
            }),
    {
        self.start_complete_timeout_millis = timeout_from_millis(timeout_millis);
    }

    pub fn set_restart(&mut self, restart: String)
        ensures
            *final(self) == (SupervisorSpecBuilder { restart: Some(restart), ..*old(self) }),
    {
        self.restart = Some(restart);
    }

    /// Sets the `restart` timeout, in milliseconds.
    pub fn set_restart_timeout(&mut self, timeout_millis: i64)
        ensures
            *final(self) == (SupervisorSpecBuilder {
                restart_timeout_millis: timeout_of(timeout_millis),
                ..*old(self)
            }),
    {
        self.restart_timeout_millis = timeout_from_millis(timeout_millis);
    }

    pub fn set_failure(&mut self, failure: String)
        ensures
            *final(self) == (SupervisorSpecBuilder { failure: Some(failure), ..*old(self) }),
    {
        self.failure = Some(failure);
    }

    /// Sets the `failure` timeout, in milliseconds.
    pub fn set_failure_timeout(&mut self, timeout_millis: i64)
        ensures
            *final(self) == (SupervisorSpecBuilder {
                failure_timeout_millis: timeout_of(timeout_millis),
                ..*old(self)
            }),
    {
        self.failure_timeout_millis = timeout_from_millis(timeout_millis);
    }

    /// Appends a process; processes start in the order they were added.
    pub fn add_proc_spec(&mut self, spec: ProcSpec)
        ensures
            final(self).procs@ == old(self).procs@.push(spec),
            *final(self) == (SupervisorSpecBuilder { procs: final(self).procs, ..*old(self) }),
    {
        self.procs.push(spec);
    }

    /// Builds the supervisor specification; at least one process is required.
    pub fn build(self) -> (r: Result<SupervisorSpec, SpecError>)
        ensures
            self.procs@.len() == 0 ==> r == Err::<SupervisorSpec, SpecError>(
                SpecError::MissingField("procs"),
            ),
            self.procs@.len() > 0 ==> r == Ok::<SupervisorSpec, SpecError>(SupervisorSpec {
                status_file: self.status_file,
                restart_tokens_per_second: self.restart_tokens_per_second,
                max_restart_tokens: self.max_restart_tokens,
                check_delay_millis: self.check_delay_millis,
                start_complete: self.start_complete,
                start_complete_timeout_millis: self.start_complete_timeout_millis,
                restart: self.restart,
                restart_timeout_millis: self.restart_timeout_millis,
                failure: self.failure,
                failure_timeout_millis: self.failure_timeout_millis,
                procs: self.procs,
            }),
    {
        if self.procs.len() == 0 {
            return Err(SpecError::MissingField("procs"));
        }
        Ok(SupervisorSpec {
            status_file: self.status_file,
            restart_tokens_per_second: self.restart_tokens_per_second,
            max_restart_tokens: self.max_restart_tokens,
            check_delay_millis: self.check_delay_millis,
            start_complete: self.start_complete,
            start_complete_timeout_millis: self.start_complete_timeout_millis,
            restart: self.restart,
            restart_timeout_millis: self.restart_timeout_millis,
            failure: self.failure,
            failure_timeout_millis: self.failure_timeout_millis,
            procs: self.procs,
        })
    }
}

} // verus!
