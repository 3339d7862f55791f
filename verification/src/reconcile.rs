//! Whole reconciliations: one notification carried through every request
//! the governor makes until it waits for the next notification, and what
//! holds of the governor over any sequence of them.

use crate::event::Focus;
use crate::governor::{Action, Awaiting, Input, State, Subprocess};
use vstd::prelude::*;

verus! {

/// One notification together with what the surroundings would answer while
/// the governor deals with it.
pub struct Cycle {
    /// How the notification reads.
    pub focus: Focus,
    /// What a lookup of the monitored process finds.
    pub found: Option<u32>,
    /// The identifier a helper gets if one is started.
    pub child: u32,
    /// Whether a termination signal can be sent.
    pub delivered: bool,
}

impl Cycle {
    /// The notification is a focus gain that names its application.
    pub open spec fn relevant(self) -> bool {
        !(self.focus is Ignored)
    }

    /// The target application is in focus: throttling is to be lifted.
    pub open spec fn target_focused(self) -> bool {
        self.focus is Target
    }

    /// Another application is in focus and the monitored process runs:
    /// throttling is to be in place.
    pub open spec fn elsewhere_and_running(self) -> bool {
        self.focus is Elsewhere && self.found is Some
    }

    /// Another application is in focus and the monitored process is absent.
    pub open spec fn elsewhere_and_absent(self) -> bool {
        self.focus is Elsewhere && self.found is None
    }
}

/// What one reconciliation leaves behind.
pub struct Outcome {
    pub state: State,
    /// Helpers started during the reconciliation.
    pub spawns: nat,
    /// Helpers terminated during the reconciliation.
    pub terminations: nat,
}

/// Carries one notification through: every action the governor asks for is
/// answered from `cycle` until the governor waits for the next notification.
pub open spec fn reconcile(state: State, cycle: Cycle) -> Outcome {
    let (noticed, first) = state.next(Input::Window(cycle.focus));
    match first {
        Action::LookUp => {
            let (looked, second) = noticed.next(Input::LookedUp(cycle.found));
            match second {
                Action::Spawn { .. } => Outcome {
                    state: looked.next(Input::Spawned { child: cycle.child }).0,
                    spawns: 1,
                    terminations: 0,
                },
                _ => Outcome { state: looked, spawns: 0, terminations: 0 },
            }
        },
        Action::Terminate { .. } => Outcome {
            state: noticed.next(Input::Terminated { delivered: cycle.delivered }).0,
            spawns: 0,
            terminations: 1,
        },
        _ => Outcome { state: noticed, spawns: 0, terminations: 0 },
    }
}

/// Carries a sequence of notifications through, one after the other, and
/// counts the helpers started and terminated on the way.
pub open spec fn run(state: State, cycles: Seq<Cycle>) -> Outcome
    decreases cycles.len(),
{
    if cycles.len() == 0 {
        Outcome { state, spawns: 0, terminations: 0 }
    } else {
        let before = run(state, cycles.drop_last());
        let last = reconcile(before.state, cycles.last());
        Outcome {
            state: last.state,
            spawns: before.spawns + last.spawns,
            terminations: before.terminations + last.terminations,
        }
    }
}

/// Index of the last relevant notification of a sequence, or -1 where none
/// is relevant.
pub open spec fn last_relevant(cycles: Seq<Cycle>) -> int
    decreases cycles.len(),
{
    if cycles.len() == 0 {
        -1
    } else if cycles.last().relevant() {
        cycles.len() - 1
    } else {
        last_relevant(cycles.drop_last())
    }
}

/// Whether the last notification of the sequence that either lifted the
/// throttling or put it in place was one that put it in place; `held` where
/// there was none of either.
pub open spec fn throttled_after(held: bool, cycles: Seq<Cycle>) -> bool
    decreases cycles.len(),
{
    if cycles.len() == 0 {
        held
    } else if cycles.last().target_focused() {
        false
    } else if cycles.last().elsewhere_and_running() {
        true
    } else {
        throttled_after(held, cycles.drop_last())
    }
}

/// One reconciliation, case by case. It ends with the governor waiting for
/// the next notification. A focus on the target leaves no helper behind; a
/// focus elsewhere with the monitored process running leaves one behind,
/// the one that was there or else a new one against the process found; in
/// every other case the helper is as it was.
pub proof fn reconcile_decides(state: State, cycle: Cycle)
    requires
        state.wf(),
        state.awaiting is Event,
    ensures
        ({
            let after = reconcile(state, cycle);
            &&& after.state.wf()
            &&& after.state.awaiting is Event
            &&& cycle.target_focused() ==> {
                &&& after.state.subprocess is None
                &&& after.spawns == 0
                &&& after.terminations == state.helpers()
            }
            &&& cycle.elsewhere_and_running() ==> {
                &&& after.state.subprocess == (match state.subprocess {
                    Some(held) => Some(held),
                    None => Some(Subprocess { child: cycle.child, target: cycle.found->0 }),
                })
                &&& after.spawns == 1 - state.helpers()
                &&& after.terminations == 0
            }
            &&& !cycle.target_focused() && !cycle.elsewhere_and_running() ==> after == (Outcome {
                state,
                spawns: 0,
                terminations: 0,
            })
        }),
{
}

/// A notification that is no focus gain, or that names no application,
/// changes nothing and starts or terminates nothing.
pub proof fn ignored_changes_nothing(state: State, cycle: Cycle)
    requires
        !cycle.relevant(),
    ensures
        state.next(Input::Window(cycle.focus)) == (state, Action::AwaitEvent),
        reconcile(state, cycle) == (Outcome { state, spawns: 0, terminations: 0 }),
{
}

/// At every point of every run there is at most one helper, and the helpers
/// started so far are the ones terminated so far and the one that is held.
pub proof fn at_most_one_helper(state: State, cycles: Seq<Cycle>)
    requires
        state.wf(),
        state.awaiting is Event,
    ensures
        ({
            let after = run(state, cycles);
            &&& after.state.wf()
            &&& after.state.awaiting is Event
            &&& after.state.helpers() <= 1
            &&& state.helpers() + after.spawns == after.terminations + after.state.helpers()
        }),
    decreases cycles.len(),
{
    if cycles.len() > 0 {
        at_most_one_helper(state, cycles.drop_last());
        reconcile_decides(run(state, cycles.drop_last()).state, cycles.last());
    }
}

/// After any run a helper is held exactly where the last notification that
/// lifted the throttling or put it in place was one that put it in place.
/// A lookup that finds nothing decides neither: a helper that is held then
/// stays, and the disappearance of the monitored process goes unnoticed
/// until the target is in focus again.
pub proof fn held_iff_last_decision_throttles(state: State, cycles: Seq<Cycle>)
    requires
        state.wf(),
        state.awaiting is Event,
    ensures
        run(state, cycles).state.subprocess is Some <==> throttled_after(
            state.subprocess is Some,
            cycles,
        ),
    decreases cycles.len(),
{
    if cycles.len() > 0 {
        held_iff_last_decision_throttles(state, cycles.drop_last());
        at_most_one_helper(state, cycles.drop_last());
        reconcile_decides(run(state, cycles.drop_last()).state, cycles.last());
    }
}

/// The last relevant notification lies within the sequence and is relevant.
pub proof fn last_relevant_in_range(cycles: Seq<Cycle>)
    ensures
        -1 <= last_relevant(cycles) < cycles.len(),
        last_relevant(cycles) >= 0 ==> cycles[last_relevant(cycles)].relevant(),
        forall|i: int| last_relevant(cycles) < i < cycles.len() ==> !cycles[i].relevant(),
    decreases cycles.len(),
{
    if cycles.len() > 0 {
        let front = cycles.drop_last();
        last_relevant_in_range(front);
        assert forall|i: int| last_relevant(cycles) < i < cycles.len() implies !cycles[i].relevant() by {
            if i < front.len() {
                assert(front[i] == cycles[i]);
            }
        }
    }
}

/// The state before the last relevant notification of a sequence; the
/// state at the start where none is relevant.
pub open spec fn before_last_relevant(state: State, cycles: Seq<Cycle>) -> State {
    if last_relevant(cycles) < 0 {
        state
    } else {
        run(state, cycles.take(last_relevant(cycles))).state
    }
}

/// From startup, a helper is held after a run exactly where the last
/// relevant notification found another application in focus and the
/// monitored process running.
///
/// This is stated of every run but those whose last relevant notification
/// found another application in focus and the monitored process absent
/// while a helper was held: such a lookup changes nothing, so the helper
/// stays although the process is gone.
pub proof fn held_iff_last_relevant_throttles(cycles: Seq<Cycle>)
    requires
        !(last_relevant(cycles) >= 0 && cycles[last_relevant(cycles)].elsewhere_and_absent()
            && before_last_relevant(State::initial(), cycles).subprocess is Some),
    ensures
        run(State::initial(), cycles).state.subprocess is Some <==> last_relevant(cycles) >= 0
            && cycles[last_relevant(cycles)].elsewhere_and_running(),
        last_relevant(cycles) >= 0 && cycles[last_relevant(cycles)].target_focused() ==> run(
            State::initial(),
            cycles,
        ).state.subprocess is None,
    decreases cycles.len(),
{
    let start = State::initial();
    if cycles.len() > 0 {
        let front = cycles.drop_last();
        at_most_one_helper(start, front);
        reconcile_decides(run(start, front).state, cycles.last());
        if cycles.last().relevant() {
            assert(cycles.take(cycles.len() - 1) == front);
        } else {
            last_relevant_in_range(front);
            if last_relevant(front) >= 0 {
                assert(front.take(last_relevant(front)) == cycles.take(last_relevant(front)));
            }
            held_iff_last_relevant_throttles(front);
        }
    }
}

} // verus!
