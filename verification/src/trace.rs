//! Whole runs of the bootstrap machine.

use vstd::prelude::*;

use crate::machine::{init, Action, Bootstrap, Event, Outcome, Phase};
use crate::plan::{plan, BuildMode, Plugin};

verus! {

/// Whether `evts`, taken in order, is a run the machine admits from `s`:
/// each event answers the state it meets.
pub open spec fn valid_from(s: Bootstrap, evts: Seq<Event>) -> bool
    decreases evts.len(),
{
    evts.len() == 0 || (s.allows(evts[0]) && valid_from(s.step(evts[0]), evts.drop_first()))
}

/// The state the machine reaches after the run `evts` from `s`.
pub open spec fn run_from(s: Bootstrap, evts: Seq<Event>) -> Bootstrap
    decreases evts.len(),
{
    if evts.len() == 0 {
        s
    } else {
        run_from(s.step(evts[0]), evts.drop_first())
    }
}

/// The registration attempt a single event answers in state `s`: a one-plugin
/// sequence when the state awaits a registration outcome, else empty.
pub open spec fn attempt_of(s: Bootstrap) -> Seq<Plugin> {
    match s.phase {
        Phase::Setup { done } => if done < plan(s.mode).len() {
            seq![plan(s.mode)[done as int]]
        } else {
            Seq::empty()
        },
        _ => Seq::empty(),
    }
}

/// Every plugin whose registration is attempted along the run `evts` from
/// `s`, in the order of the attempts.
pub open spec fn attempts_from(s: Bootstrap, evts: Seq<Event>) -> Seq<Plugin>
    decreases evts.len(),
{
    if evts.len() == 0 {
        Seq::empty()
    } else {
        attempt_of(s) + attempts_from(s.step(evts[0]), evts.drop_first())
    }
}

/// The registrations still owed in state `s`: the tail of the plan that has
/// not been attempted yet, and nothing once setup is over.
pub open spec fn pending_of(s: Bootstrap) -> Seq<Plugin> {
    match s.phase {
        Phase::NotStarted => plan(s.mode),
        Phase::Setup { done } => plan(s.mode).skip(done as int),
        Phase::Running => Seq::empty(),
        Phase::Terminated { .. } => Seq::empty(),
    }
}

/// Whether no registration attempt fails along `evts`.
pub open spec fn no_registration_failure(evts: Seq<Event>) -> bool {
    forall|i: int| 0 <= i < evts.len() ==> evts[i] != Event::PluginFailed
}

/// A terminated machine admits no further event: a valid run from it is
/// empty.
pub proof fn lemma_terminated_admits_nothing(s: Bootstrap, evts: Seq<Event>)
    requires
        valid_from(s, evts),
        s.phase is Terminated,
    ensures
        evts.len() == 0,
{
}

/// A run that terminates without a failed registration attempts exactly the
/// registrations the starting state still owes, in the order of the plan.
pub proof fn lemma_attempts_are_pending(s: Bootstrap, evts: Seq<Event>)
    requires
        s.wf(),
        valid_from(s, evts),
        run_from(s, evts).phase is Terminated,
        no_registration_failure(evts),
    ensures
        attempts_from(s, evts) == pending_of(s),
    decreases evts.len(),
{
    if evts.len() == 0 {
        assert(s.phase is Terminated);
        assert(attempts_from(s, evts) =~= pending_of(s));
    } else {
        let e = evts[0];
        let s2 = s.step(e);
        let rest = evts.drop_first();
        assert(forall|i: int| 0 <= i < rest.len() ==> rest[i] == evts[i + 1]);
        crate::machine::lemma_step_preserves_wf(s, e);
        lemma_attempts_are_pending(s2, rest);
        match s.phase {
            Phase::NotStarted => {
                assert(attempt_of(s) =~= Seq::<Plugin>::empty());
                assert(pending_of(s2) =~= plan(s.mode));
                assert(attempts_from(s, evts) =~= pending_of(s));
            },
            Phase::Setup { done } => {
                if done < plan(s.mode).len() {
                    assert(e == Event::PluginRegistered);
                    assert(s2.phase == (Phase::Setup { done: (done + 1) as usize }));
                    assert(attempts_from(s, evts) =~= seq![plan(s.mode)[done as int]]
                        + plan(s.mode).skip(done + 1));
                    assert(attempts_from(s, evts) =~= plan(s.mode).skip(done as int));
                } else {
                    assert(attempts_from(s, evts) =~= pending_of(s));
                }
            },
            Phase::Running => {
                assert(attempts_from(s, evts) =~= pending_of(s));
            },
            Phase::Terminated { .. } => {
                assert(false);
            },
        }
    }
}

/// For a debug build, a run that terminates without a failed registration
/// attempts exactly four plugin registrations, in the fixed order log,
/// filesystem, dialog, process.
pub proof fn lemma_debug_registrations(evts: Seq<Event>)
    requires
        valid_from(init(BuildMode::Debug), evts),
        run_from(init(BuildMode::Debug), evts).phase is Terminated,
        no_registration_failure(evts),
    ensures
        attempts_from(init(BuildMode::Debug), evts)
            == seq![Plugin::Log, Plugin::Fs, Plugin::Dialog, Plugin::Process],
{
    lemma_attempts_are_pending(init(BuildMode::Debug), evts);
}

/// For a release build, a run that terminates without a failed registration
/// attempts exactly three plugin registrations, in the fixed order
/// filesystem, dialog, process.
pub proof fn lemma_release_registrations(evts: Seq<Event>)
    requires
        valid_from(init(BuildMode::Release), evts),
        run_from(init(BuildMode::Release), evts).phase is Terminated,
        no_registration_failure(evts),
    ensures
        attempts_from(init(BuildMode::Release), evts)
            == seq![Plugin::Fs, Plugin::Dialog, Plugin::Process],
{
    lemma_attempts_are_pending(init(BuildMode::Release), evts);
}

/// Once control has reached the run loop, the only events a valid run still
/// holds report how the loop ended: registration is over for good.
pub proof fn lemma_loop_events_only(s: Bootstrap, evts: Seq<Event>)
    requires
        valid_from(s, evts),
        s.phase is Running || s.phase is Terminated,
    ensures
        forall|j: int| 0 <= j < evts.len()
            ==> evts[j] == Event::RunLoopFailed || evts[j] == Event::RunLoopEnded,
    decreases evts.len(),
{
    if evts.len() > 0 {
        let rest = evts.drop_first();
        lemma_loop_events_only(s.step(evts[0]), rest);
        assert forall|j: int| 0 <= j < evts.len()
            implies evts[j] == Event::RunLoopFailed || evts[j] == Event::RunLoopEnded by {
            if j >= 1 {
                assert(evts[j] == rest[j - 1]);
            }
        }
    }
}

/// From a state that has not yet reached the run loop, a failed registration
/// ends the run at once: the failing attempt is the last event, the run loop
/// is never entered, and setup terminates failed.
pub proof fn lemma_failure_halts_from(s: Bootstrap, evts: Seq<Event>, i: int)
    requires
        s.wf(),
        valid_from(s, evts),
        s.phase is NotStarted || s.phase is Setup,
        0 <= i < evts.len(),
        evts[i] == Event::PluginFailed,
    ensures
        evts.len() == i + 1,
        forall|j: int| 0 <= j < evts.len() ==> evts[j] != Event::RunLoopStarted,
        run_from(s, evts).phase == (Phase::Terminated { outcome: Outcome::SetupFailed }),
    decreases i,
{
    let e = evts[0];
    let s2 = s.step(e);
    let rest = evts.drop_first();
    crate::machine::lemma_step_preserves_wf(s, e);
    assert(run_from(s, evts) == run_from(s2, rest));
    if i == 0 {
        assert(s.phase matches Phase::Setup { done } && done < plan(s.mode).len());
        assert(s2.phase == (Phase::Terminated { outcome: Outcome::SetupFailed }));
        lemma_terminated_admits_nothing(s2, rest);
        assert(evts.len() == 1);
    } else {
        if e == Event::PluginFailed {
            lemma_terminated_admits_nothing(s2, rest);
            assert(false);
        } else if e == Event::RunLoopStarted {
            lemma_loop_events_only(s2, rest);
            assert(rest[i - 1] == evts[i]);
            assert(false);
        } else {
            lemma_failure_halts_from(s2, rest, i - 1);
            assert forall|j: int| 0 <= j < evts.len()
                implies evts[j] != Event::RunLoopStarted by {
                if j >= 1 {
                    assert(evts[j] == rest[j - 1]);
                }
            }
        }
    }
}

/// From any live state, a run loop that fails to start ends the run at once,
/// with every earlier registration attempt successful.
pub proof fn lemma_loop_failure_from(s: Bootstrap, evts: Seq<Event>, i: int)
    requires
        s.wf(),
        valid_from(s, evts),
        !(s.phase is Terminated),
        0 <= i < evts.len(),
        evts[i] == Event::RunLoopFailed,
    ensures
        evts.len() == i + 1,
        no_registration_failure(evts),
        run_from(s, evts).phase == (Phase::Terminated { outcome: Outcome::RunLoopFailed }),
    decreases i,
{
    let e = evts[0];
    let s2 = s.step(e);
    let rest = evts.drop_first();
    crate::machine::lemma_step_preserves_wf(s, e);
    assert(run_from(s, evts) == run_from(s2, rest));
    if i == 0 {
        assert(s.phase is Running);
        assert(s2.phase == (Phase::Terminated { outcome: Outcome::RunLoopFailed }));
        lemma_terminated_admits_nothing(s2, rest);
        assert(evts.len() == 1);
    } else {
        if s2.phase is Terminated {
            lemma_terminated_admits_nothing(s2, rest);
            assert(false);
        } else {
            assert(rest[i - 1] == evts[i]);
            lemma_loop_failure_from(s2, rest, i - 1);
            assert(e != Event::PluginFailed);
            assert forall|j: int| 0 <= j < evts.len()
                implies evts[j] != Event::PluginFailed by {
                if j >= 1 {
                    assert(evts[j] == rest[j - 1]);
                }
            }
        }
    }
}

/// If a registration attempt fails, no later registration attempt occurs —
/// the run admits no event after the failure at all — the run loop is never
/// entered, and setup terminates failed.
pub proof fn lemma_registration_failure_halts(mode: BuildMode, evts: Seq<Event>, i: int)
    requires
        valid_from(init(mode), evts),
        0 <= i < evts.len(),
        evts[i] == Event::PluginFailed,
    ensures
        evts.len() == i + 1,
        forall|j: int| 0 <= j < evts.len() ==> evts[j] != Event::RunLoopStarted,
        run_from(init(mode), evts).phase == (Phase::Terminated { outcome: Outcome::SetupFailed }),
{
    lemma_failure_halts_from(init(mode), evts, i);
}

/// If the run loop fails to start, every registration attempt before it
/// succeeded and the machine demands an abnormal termination of the process.
pub proof fn lemma_run_loop_failure_aborts(mode: BuildMode, evts: Seq<Event>, i: int)
    requires
        valid_from(init(mode), evts),
        0 <= i < evts.len(),
        evts[i] == Event::RunLoopFailed,
    ensures
        evts.len() == i + 1,
        no_registration_failure(evts),
        run_from(init(mode), evts).phase == (Phase::Terminated { outcome: Outcome::RunLoopFailed }),
        run_from(init(mode), evts).action_of() == Action::Abort,
{
    lemma_loop_failure_from(init(mode), evts, i);
}

} // verus!
