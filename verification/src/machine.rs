//! The bootstrap state machine.
//!
//! The shell's whole lifecycle is `not started -> setup running -> running ->
//! terminated`.  The machine decides, from its state alone, which action the
//! driver must perform next (`next_action`), and the driver reports each
//! outcome back as an event (`apply`).  Registration attempts follow the fixed
//! plan of the build mode; the first failed registration terminates setup, and
//! a run loop that fails to start demands an abnormal termination.

use vstd::prelude::*;

use crate::plan::{plan, plan_len, plugin_at, BuildMode, Plugin};

verus! {

/// How a terminated bootstrap ended.
#[derive(Clone, Copy, Debug, PartialEq, Eq, Structural)]
pub enum Outcome {
    /// A plugin registration failed; the error is propagated out of setup and
    /// the application never starts.
    SetupFailed,
    /// Every registration succeeded but the host run loop failed to start;
    /// the process must terminate abnormally.
    RunLoopFailed,
    /// The run loop ran and ended; the process exits normally.
    Exited,
}

/// Where the bootstrap stands in its lifecycle.
#[derive(Clone, Copy, Debug, PartialEq, Eq, Structural)]
pub enum Phase {
    /// Nothing has happened yet; the setup callback has not begun.
    NotStarted,
    /// The setup callback is running and `done` plugins are registered.
    Setup { done: usize },
    /// Control belongs to the host's blocking run loop.
    Running,
    /// The lifecycle is over.
    Terminated { outcome: Outcome },
}

/// What the driver must do next.
#[derive(Clone, Copy, Debug, PartialEq, Eq, Structural)]
pub enum Action {
    /// Enter the one-time setup callback.
    EnterSetup,
    /// Attempt to register this plugin with the host.
    Register(Plugin),
    /// Hand control to the host's blocking run loop.
    StartRunLoop,
    /// Control is inside the run loop; wait for it to end or fail.
    AwaitRunLoop,
    /// Terminate the process abnormally with the fixed diagnostic.
    Abort,
    /// Nothing is left to do.
    Stop,
}

/// What the driver reports back after performing an action.
#[derive(Clone, Copy, Debug, PartialEq, Eq, Structural)]
pub enum Event {
    /// The setup callback has begun.
    SetupEntered,
    /// The last registration attempt succeeded.
    PluginRegistered,
    /// The last registration attempt failed.
    PluginFailed,
    /// Control was handed to the run loop.
    RunLoopStarted,
    /// The run loop failed to start.
    RunLoopFailed,
    /// The run loop ran and ended normally.
    RunLoopEnded,
}

/// The bootstrap state machine: the build mode fixes the plan, the phase
/// records how far the lifecycle has come.
#[derive(Clone, Copy, Debug, PartialEq, Eq, Structural)]
pub struct Bootstrap {
    pub mode: BuildMode,
    pub phase: Phase,
}

/// The initial state of a bootstrap in `mode`.
pub open spec fn init(mode: BuildMode) -> Bootstrap {
    Bootstrap { mode, phase: Phase::NotStarted }
}

impl Bootstrap {
    /// A setup phase never counts more registrations than the plan holds.
    pub open spec fn wf(self) -> bool {
        self.phase matches Phase::Setup { done } ==> done <= plan(self.mode).len()
    }

    /// Which event may answer the current state.
    pub open spec fn allows(self, e: Event) -> bool {
        match self.phase {
            Phase::NotStarted => e == Event::SetupEntered,
            Phase::Setup { done } => if done < plan(self.mode).len() {
                e == Event::PluginRegistered || e == Event::PluginFailed
            } else {
                e == Event::RunLoopStarted
            },
            Phase::Running => e == Event::RunLoopFailed || e == Event::RunLoopEnded,
            Phase::Terminated { .. } => false,
        }
    }

    /// The state after event `e`.
    pub open spec fn step(self, e: Event) -> Bootstrap
        recommends
            self.allows(e),
    {
        Bootstrap {
            mode: self.mode,
            phase: match self.phase {
                Phase::NotStarted => Phase::Setup { done: 0 },
                Phase::Setup { done } => if done < plan(self.mode).len() {
                    if e == Event::PluginRegistered {
                        Phase::Setup { done: (done + 1) as usize }
                    } else {
                        Phase::Terminated { outcome: Outcome::SetupFailed }
                    }
                } else {
                    Phase::Running
                },
                Phase::Running => if e == Event::RunLoopEnded {
                    Phase::Terminated { outcome: Outcome::Exited }
                } else {
                    Phase::Terminated { outcome: Outcome::RunLoopFailed }
                },
                Phase::Terminated { outcome } => Phase::Terminated { outcome },
            },
        }
    }

    /// The action the driver must perform in the current state.
    pub open spec fn action_of(self) -> Action {
        match self.phase {
            Phase::NotStarted => Action::EnterSetup,
            Phase::Setup { done } => if done < plan(self.mode).len() {
                Action::Register(plan(self.mode)[done as int])
            } else {
                Action::StartRunLoop
            },
            Phase::Running => Action::AwaitRunLoop,
            Phase::Terminated { outcome } => if outcome == Outcome::RunLoopFailed {
                Action::Abort
            } else {
                Action::Stop
            },
        }
    }

    /// A fresh bootstrap in `mode`, with nothing started.
    pub fn new(mode: BuildMode) -> (s: Self)
        ensures
            s == init(mode),
            s.wf(),
    {
        Bootstrap { mode, phase: Phase::NotStarted }
    }

    /// What the driver must do next.
    pub fn next_action(&self) -> (a: Action)
        ensures
            a == self.action_of(),
    {
        match self.phase {
            Phase::NotStarted => Action::EnterSetup,
            Phase::Setup { done } => {
                let n: usize = plan_len(self.mode);
                if done < n {
                    Action::Register(plugin_at(self.mode, done))
                } else {
                    Action::StartRunLoop
                }
            },
            Phase::Running => Action::AwaitRunLoop,
            Phase::Terminated { outcome } => match outcome {
                Outcome::RunLoopFailed => Action::Abort,
                Outcome::SetupFailed => Action::Stop,
                Outcome::Exited => Action::Stop,
            },
        }
    }

    /// Whether event `e` may answer the current state; the driver tests this
    /// before calling `apply`.
    pub fn event_allowed(&self, e: Event) -> (r: bool)
        ensures
            r == self.allows(e),
    {
        match self.phase {
            Phase::NotStarted => e == Event::SetupEntered,
            Phase::Setup { done } => {
                let n: usize = plan_len(self.mode);
                if done < n {
                    e == Event::PluginRegistered || e == Event::PluginFailed
                } else {
                    e == Event::RunLoopStarted
                }
            },
            Phase::Running => e == Event::RunLoopFailed || e == Event::RunLoopEnded,
            Phase::Terminated { .. } => false,
        }
    }

    /// Advance the machine by one reported event.
    pub fn apply(&mut self, e: Event)
        requires
            old(self).allows(e),
        ensures
            *final(self) == old(self).step(e),
    {
        match self.phase {
            Phase::NotStarted => {
                self.phase = Phase::Setup { done: 0 };
            },
            Phase::Setup { done } => {
                let n: usize = plan_len(self.mode);
                if done < n {
                    if e == Event::PluginRegistered {
                        self.phase = Phase::Setup { done: done + 1 };
                    } else {
                        self.phase = Phase::Terminated { outcome: Outcome::SetupFailed };
                    }
                } else {
                    self.phase = Phase::Running;
                }
            },
            Phase::Running => {
                if e == Event::RunLoopEnded {
                    self.phase = Phase::Terminated { outcome: Outcome::Exited };
                } else {
                    self.phase = Phase::Terminated { outcome: Outcome::RunLoopFailed };
                }
            },
            Phase::Terminated { .. } => {
            },
        }
    }

    /// Whether the lifecycle is over.
    pub fn is_terminated(&self) -> (r: bool)
        ensures
            r == (self.phase is Terminated),
    {
        match self.phase {
            Phase::Terminated { .. } => true,
            _ => false,
        }
    }
}

/// One step keeps the machine well formed: the registration counter never
/// passes the length of the plan.
pub proof fn lemma_step_preserves_wf(s: Bootstrap, e: Event)
    requires
        s.wf(),
    ensures
        s.step(e).wf(),
{
}

} // verus!
