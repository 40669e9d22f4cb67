//! The coordinated startup/shutdown lifecycle: an explicit four-phase
//! machine driven by the events the surrounding application observes — the
//! listener coming up, connections being accepted and finished, and the
//! termination signal. The application performs the waiting and the
//! closing; which phase follows which event is decided and proved here.

use vstd::prelude::*;

verus! {

/// `Starting -> Serving -> Draining -> Stopped`, with a startup failure
/// jumping straight to `Stopped`: the gateway never serves partially
/// initialized.
#[derive(Debug, Clone, Copy, PartialEq, Eq, Structural)]
pub enum LifecyclePhase {
    Starting,
    Serving,
    Draining,
    Stopped,
}

/// What drives the coordinator.
#[derive(Debug, Clone, Copy, PartialEq, Eq, Structural)]
pub enum LifecycleEvent {
    /// The remote connection is up, the listener bound, the context built.
    ServeReady,
    /// A failure while starting: fatal.
    StartupFailed,
    /// The listener accepted a new connection.
    Accepted,
    /// An in-flight request finished and its response was written.
    Completed,
    /// A termination or interrupt signal arrived.
    ShutdownSignal,
}

/// The coordinator's state: its phase, and how much work it has taken and
/// finished.
pub struct Lifecycle {
    pub phase: LifecyclePhase,
    pub accepted: u64,
    pub completed: u64,
}

impl Lifecycle {
    pub open spec fn spec_init() -> Lifecycle {
        Lifecycle { phase: LifecyclePhase::Starting, accepted: 0, completed: 0 }
    }

    pub fn starting() -> (r: Lifecycle)
        ensures
            r == Lifecycle::spec_init(),
    {
        Lifecycle { phase: LifecyclePhase::Starting, accepted: 0, completed: 0 }
    }

    /// What holds of every reachable state: work never finishes before it
    /// is taken, nothing is taken before serving begins, and a stopped
    /// gateway owes no response.
    pub open spec fn wf(self) -> bool {
        &&& self.completed <= self.accepted
        &&& self.phase is Starting ==> self.accepted == 0 && self.completed == 0
        &&& self.phase is Stopped ==> self.completed == self.accepted
    }

    /// New connections are taken only while serving.
    pub open spec fn spec_accepts_new(self) -> bool {
        self.phase is Serving
    }

    /// One transition. Events that make no sense in the current phase —
    /// and a new connection once draining has begun — change nothing; a
    /// signal with nothing in flight stops at once, otherwise the drain
    /// phase lasts exactly until the last in-flight request completes.
    /// (A counter at its machine limit also stays put.)
    pub open spec fn spec_step(self, e: LifecycleEvent) -> Lifecycle {
        match e {
            LifecycleEvent::ServeReady => if self.phase is Starting {
                Lifecycle { phase: LifecyclePhase::Serving, accepted: self.accepted, completed: self.completed }
            } else {
                self
            },
            LifecycleEvent::StartupFailed => if self.phase is Starting {
                Lifecycle { phase: LifecyclePhase::Stopped, accepted: self.accepted, completed: self.completed }
            } else {
                self
            },
            LifecycleEvent::Accepted => if self.phase is Serving && self.accepted < u64::MAX {
                Lifecycle {
                    phase: self.phase,
                    accepted: (self.accepted + 1) as u64,
                    completed: self.completed,
                }
            } else {
                self
            },
            LifecycleEvent::Completed => if (self.phase is Serving || self.phase is Draining)
                && self.completed < self.accepted {
                if self.phase is Draining && self.completed + 1 == self.accepted {
                    Lifecycle {
                        phase: LifecyclePhase::Stopped,
                        accepted: self.accepted,
                        completed: (self.completed + 1) as u64,
                    }
                } else {
                    Lifecycle {
                        phase: self.phase,
                        accepted: self.accepted,
                        completed: (self.completed + 1) as u64,
                    }
                }
            } else {
                self
            },
            LifecycleEvent::ShutdownSignal => if self.phase is Serving {
                if self.completed == self.accepted {
                    Lifecycle {
                        phase: LifecyclePhase::Stopped,
                        accepted: self.accepted,
                        completed: self.completed,
                    }
                } else {
                    Lifecycle {
                        phase: LifecyclePhase::Draining,
                        accepted: self.accepted,
                        completed: self.completed,
                    }
                }
            } else {
                self
            },
        }
    }

    pub fn step(&mut self, e: LifecycleEvent)
        ensures
            *final(self) == old(self).spec_step(e),
    {
        match e {
            LifecycleEvent::ServeReady => {
                if self.phase == LifecyclePhase::Starting {
                    self.phase = LifecyclePhase::Serving;
                }
            },
            LifecycleEvent::StartupFailed => {
                if self.phase == LifecyclePhase::Starting {
                    self.phase = LifecyclePhase::Stopped;
                }
            },
            LifecycleEvent::Accepted => {
                if self.phase == LifecyclePhase::Serving && self.accepted < u64::MAX {
                    self.accepted = self.accepted + 1;
                }
            },
            LifecycleEvent::Completed => {
                if (self.phase == LifecyclePhase::Serving || self.phase == LifecyclePhase::Draining)
                    && self.completed < self.accepted {
                    self.completed = self.completed + 1;
                    if self.phase == LifecyclePhase::Draining && self.completed == self.accepted {
                        self.phase = LifecyclePhase::Stopped;
                    }
                }
            },
            LifecycleEvent::ShutdownSignal => {
                if self.phase == LifecyclePhase::Serving {
                    if self.completed == self.accepted {
                        self.phase = LifecyclePhase::Stopped;
                    } else {
                        self.phase = LifecyclePhase::Draining;
                    }
                }
            },
        }
    }

    pub fn accepts_new(&self) -> (r: bool)
        ensures
            r == self.spec_accepts_new(),
    {
        self.phase == LifecyclePhase::Serving
    }
}

/// The state after a whole sequence of events.
pub open spec fn spec_run(s: Lifecycle, evs: Seq<LifecycleEvent>) -> Lifecycle
    decreases evs.len(),
{
    if evs.len() == 0 {
        s
    } else {
        spec_run(s.spec_step(evs[0]), evs.subrange(1, evs.len() as int))
    }
}

/// Every transition preserves well-formedness.
pub proof fn lemma_step_preserves_wf(s: Lifecycle, e: LifecycleEvent)
    requires
        s.wf(),
    ensures
        s.spec_step(e).wf(),
{
}

/// Once the coordinator has left `Starting` and `Serving`, one more event
/// never brings either back, and the accepted count is frozen.
pub proof fn lemma_no_serving_again(s: Lifecycle, e: LifecycleEvent)
    requires
        !(s.phase is Serving),
        !(s.phase is Starting),
    ensures
        !(s.spec_step(e).phase is Serving),
        !(s.spec_step(e).phase is Starting),
        s.spec_step(e).accepted == s.accepted,
{
}

/// After the shutdown signal has been taken — the coordinator is draining
/// or stopped — no later events, of any kind and in any order, make it
/// accept new connections again or grow the accepted count.
pub proof fn lemma_drain_never_accepts(s: Lifecycle, evs: Seq<LifecycleEvent>)
    requires
        s.phase is Draining || s.phase is Stopped,
    ensures
        spec_run(s, evs).accepted == s.accepted,
        !spec_run(s, evs).spec_accepts_new(),
        !(spec_run(s, evs).phase is Serving),
        !(spec_run(s, evs).phase is Starting),
    decreases evs.len(),
{
    if evs.len() > 0 {
        lemma_no_serving_again(s, evs[0]);
        lemma_drain_never_accepts(s.spec_step(evs[0]), evs.subrange(1, evs.len() as int));
    }
}

/// Well-formedness holds along every run, and with it the shutdown
/// guarantee: whenever a run from a well-formed state ends `Stopped`,
/// every request it ever accepted has completed — in-flight work finishes
/// and is answered before exit.
pub proof fn lemma_stopped_means_drained(s: Lifecycle, evs: Seq<LifecycleEvent>)
    requires
        s.wf(),
    ensures
        spec_run(s, evs).wf(),
        spec_run(s, evs).phase is Stopped ==> spec_run(s, evs).completed == spec_run(
            s,
            evs,
        ).accepted,
    decreases evs.len(),
{
    if evs.len() > 0 {
        lemma_step_preserves_wf(s, evs[0]);
        lemma_stopped_means_drained(s.spec_step(evs[0]), evs.subrange(1, evs.len() as int));
    }
}

} // verus!
