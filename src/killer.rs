use vstd::prelude::*;
use crate::runner::{WaitStatus, KILL_POLLS};

verus! {

/// Where the escalating kill of a process group stands.
#[derive(Debug, Clone, Copy, PartialEq, Eq, Structural)]
pub enum KillPhase {
    /// SIGTERM was sent; waiting for the child until the deadline.
    Terminating,
    /// SIGKILL was sent; this many polls have found the child still there.
    Killing(u32),
    /// The kill is over.
    Finished,
}

/// What the killer asks of its caller after a poll.
#[derive(Debug, Clone, Copy, PartialEq, Eq, Structural)]
pub enum KillStep {
    /// Send SIGKILL to the process group, then poll again at once.
    SendKill,
    /// Sleep a short while, then poll again.
    Wait,
    /// The child was reaped.
    Reaped,
    /// The child outlived SIGKILL.
    Unkillable,
}

/// Escalating termination of a child's process group. The caller sends SIGTERM
/// to the group, creates this with the end of the grace period, and then feeds
/// it what each non-blocking wait on the child tells.
#[derive(Debug, Clone, Copy, PartialEq, Eq, Structural)]
pub struct KillTree {
    pub phase: KillPhase,
    pub deadline: Option<u64>,
}

pub open spec fn kill_step_spec(k: KillTree, now: int, w: WaitStatus) -> (KillTree, KillStep) {
    match k.phase {
        KillPhase::Terminating => {
            if k.deadline is Some && now >= k.deadline->0 {
                (KillTree { phase: KillPhase::Killing(0), ..k }, KillStep::SendKill)
            } else {
                match w {
                    WaitStatus::Exited(_) => (KillTree { phase: KillPhase::Finished, ..k }, KillStep::Reaped),
                    WaitStatus::Failed => (KillTree { phase: KillPhase::Killing(0), ..k }, KillStep::SendKill),
                    WaitStatus::Running => (k, KillStep::Wait),
                }
            }
        },
        KillPhase::Killing(n) => {
            if w is Exited {
                (KillTree { phase: KillPhase::Finished, ..k }, KillStep::Reaped)
            } else if n + 1 >= KILL_POLLS {
                (KillTree { phase: KillPhase::Finished, ..k }, KillStep::Unkillable)
            } else {
                (KillTree { phase: KillPhase::Killing((n + 1) as u32), ..k }, KillStep::Wait)
            }
        },
        KillPhase::Finished => (k, KillStep::Reaped),
    }
}

impl KillTree {
    /// The count of polls after SIGKILL stays under its limit.
    pub open spec fn wf(self) -> bool {
        self.phase is Killing ==> self.phase->0 < KILL_POLLS
    }

    /// A kill whose SIGTERM has just been sent; `deadline` ends the grace period.
    pub fn new(deadline: Option<u64>) -> (r: Self)
        ensures
            r == (KillTree { phase: KillPhase::Terminating, deadline }),
            r.wf(),
    {
        KillTree { phase: KillPhase::Terminating, deadline }
    }

    /// Takes in one poll of the child at `now_millis`. While the grace period
    /// lasts, an exit ends the kill and anything else waits; once it is over,
    /// or the wait fails, SIGKILL is asked for. After SIGKILL, an exit ends the
    /// kill, and a child still there after the last poll is unkillable.
    pub fn step(&mut self, now_millis: u64, w: WaitStatus) -> (r: KillStep)
        requires
            !(old(self).phase is Finished),
            old(self).wf(),
        ensures
            final(self).wf(),
            (*final(self), r) == kill_step_spec(*old(self), now_millis as int, w),
            final(self).deadline == old(self).deadline,
            // a child is only declared unkillable once SIGKILL was asked for
            r == KillStep::Unkillable ==> old(self).phase is Killing,
            // SIGKILL is asked for exactly when the phase turns to killing
            (final(self).phase is Killing && !(old(self).phase is Killing)) <==> r
                == KillStep::SendKill,
            // the kill is over exactly when the child was reaped or declared unkillable
            final(self).phase is Finished <==> (r == KillStep::Reaped || r
                == KillStep::Unkillable),
    {
        match self.phase {
            KillPhase::Terminating => {
                if let Some(d) = self.deadline {
                    if now_millis >= d {
                        self.phase = KillPhase::Killing(0);
                        return KillStep::SendKill;
                    }
                }
                match w {
                    WaitStatus::Exited(_) => {
                        self.phase = KillPhase::Finished;
                        KillStep::Reaped
                    },
                    WaitStatus::Failed => {
                        self.phase = KillPhase::Killing(0);
                        KillStep::SendKill
                    },
                    WaitStatus::Running => KillStep::Wait,
                }
            },
            KillPhase::Killing(n) => {
                if let WaitStatus::Exited(_) = w {
                    self.phase = KillPhase::Finished;
                    KillStep::Reaped
                } else if n >= KILL_POLLS - 1 {
                    self.phase = KillPhase::Finished;
                    KillStep::Unkillable
                } else {
                    self.phase = KillPhase::Killing(n + 1);
                    KillStep::Wait
                }
            },
            KillPhase::Finished => KillStep::Reaped,
        }
    }
}

/// How many more polls a kill can take once SIGKILL was sent.
pub open spec fn polls_left(k: KillTree) -> nat {
    match k.phase {
        KillPhase::Terminating => (KILL_POLLS + 1) as nat,
        KillPhase::Killing(n) => if n < KILL_POLLS { (KILL_POLLS - n) as nat } else { 0 },
        KillPhase::Finished => 0,
    }
}

/// Once the grace period is over, every poll brings the kill closer to its
/// end, whatever the child does: it ends within a bounded number of polls.
pub proof fn lemma_kill_terminates(k: KillTree, now: int, w: WaitStatus)
    requires
        !(k.phase is Finished),
        k.wf(),
        k.phase is Killing || (k.deadline is Some && now >= k.deadline->0),
    ensures
        polls_left(kill_step_spec(k, now, w).0) < polls_left(k),
{
}

} // verus!
