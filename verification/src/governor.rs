//! The governor's state machine.
//!
//! The governor never touches the operating system itself. Each step takes
//! the outcome of the work it asked for last and answers with the work to do
//! next: wait for a notification, look the monitored process up, start the
//! throttling helper, or terminate it. Between two notifications every
//! request is answered before the next one is made, so at most one helper is
//! ever in existence.

use crate::event::{classify, ChangeKind, Focus, FocusEvent};
use crate::finder::{answers, find_target, runs, TARGET_PROCESS};
use crate::helper::CPU_LIMIT_PERCENT;
use sysinfo::System;
use vstd::prelude::*;

verus! {

/// The throttling helper the governor owns.
#[derive(Clone, Copy, Debug, PartialEq, Eq)]
pub struct Subprocess {
    /// Identifier the operating system gave the helper when it was started.
    pub child: u32,
    /// Identifier of the monitored process the helper was started against.
    pub target: u32,
}

/// The outcome the governor is waiting for.
#[derive(Clone, Copy, Debug, PartialEq, Eq)]
pub enum Awaiting {
    /// The next notification of the window manager.
    Event,
    /// The answer to a lookup of the monitored process.
    Lookup,
    /// The start of a helper against `target`.
    Spawn { target: u32 },
    /// The exit of the helper that was told to terminate.
    Termination,
    /// Nothing: the governor has given up.
    Nothing,
}

/// Why the governor gave up.
#[derive(Clone, Copy, Debug, PartialEq, Eq)]
pub enum Fault {
    /// The throttling helper could not be started.
    SpawnFailed,
    /// The stream of notifications ended or broke.
    TransportClosed,
}

/// What the driver reports to the governor.
#[derive(Clone, Copy, Debug, PartialEq, Eq)]
pub enum Input {
    /// A window notification arrived and reads as given.
    Window(Focus),
    /// The lookup found the monitored process under this identifier, or not at all.
    LookedUp(Option<u32>),
    /// The helper was started and has this identifier.
    Spawned { child: u32 },
    /// The helper could not be started.
    SpawnFailed,
    /// The helper was told to terminate and has been waited for. `delivered`
    /// says whether the signal could be sent.
    Terminated { delivered: bool },
    /// The stream of notifications ended or broke.
    TransportClosed,
}

/// What the governor asks the driver to do next.
#[derive(Clone, Copy, Debug, PartialEq, Eq)]
pub enum Action {
    /// Wait for the next window notification.
    AwaitEvent,
    /// Refresh the process snapshot and look the monitored process up.
    LookUp,
    /// Start the throttling helper against `target`, limiting it to `limit` percent.
    Spawn { target: u32, limit: u32 },
    /// Send the helper `child` the signal to terminate, not the one that
    /// kills, and wait for its exit.
    Terminate { child: u32 },
    /// Stop the program with a failure.
    Abort(Fault),
}

/// The driver reported something the governor had not asked for.
#[derive(Clone, Copy, Debug, PartialEq, Eq)]
pub struct OutOfTurn {
    /// What the governor was waiting for instead.
    pub awaiting: Awaiting,
}

/// The governor's state.
#[derive(Clone, Copy, Debug, PartialEq, Eq)]
pub struct State {
    /// The helper that was started and is not yet known to have exited.
    pub subprocess: Option<Subprocess>,
    pub awaiting: Awaiting,
}

impl State {
    /// The state at startup: no helper, waiting for the first notification.
    pub open spec fn initial() -> State {
        State { subprocess: None, awaiting: Awaiting::Event }
    }

    /// A helper is only ever started where there is none, and only ever
    /// terminated where there is one.
    pub open spec fn wf(self) -> bool {
        &&& self.awaiting is Spawn ==> self.subprocess is None
        &&& self.awaiting is Termination ==> self.subprocess is Some
    }

    /// The number of helpers in existence: one if one is held, else none.
    pub open spec fn helpers(self) -> nat {
        if self.subprocess is Some {
            1
        } else {
            0
        }
    }

    /// Whether `input` answers what this state is waiting for.
    pub open spec fn accepts(self, input: Input) -> bool {
        match self.awaiting {
            Awaiting::Event => input is Window || input is TransportClosed,
            Awaiting::Lookup => input is LookedUp,
            Awaiting::Spawn { .. } => input is Spawned || input is SpawnFailed,
            Awaiting::Termination => input is Terminated,
            Awaiting::Nothing => false,
        }
    }

    /// What [`State::ensure_throttling`] computes.
    pub open spec fn spec_ensure_throttling(self, target: u32) -> (State, Action) {
        if self.subprocess is None {
            (
                State { subprocess: None, awaiting: Awaiting::Spawn { target } },
                Action::Spawn { target, limit: CPU_LIMIT_PERCENT },
            )
        } else {
            (State { subprocess: self.subprocess, awaiting: Awaiting::Event }, Action::AwaitEvent)
        }
    }

    /// What [`State::release_throttling`] computes.
    pub open spec fn spec_release_throttling(self) -> (State, Action) {
        match self.subprocess {
            Some(subprocess) => (
                State { subprocess: self.subprocess, awaiting: Awaiting::Termination },
                Action::Terminate { child: subprocess.child },
            ),
            None => (State { subprocess: None, awaiting: Awaiting::Event }, Action::AwaitEvent),
        }
    }

    /// The state after `input`, and the action that answers it.
    pub open spec fn next(self, input: Input) -> (State, Action)
        recommends
            self.accepts(input),
    {
        match input {
            Input::Window(Focus::Ignored) => (self, Action::AwaitEvent),
            Input::Window(Focus::Target) => self.release_throttling(),
            Input::Window(Focus::Elsewhere) => (
                State { subprocess: self.subprocess, awaiting: Awaiting::Lookup },
                Action::LookUp,
            ),
            Input::LookedUp(Some(target)) => self.ensure_throttling(target),
            Input::LookedUp(None) => (
                State { subprocess: self.subprocess, awaiting: Awaiting::Event },
                Action::AwaitEvent,
            ),
            Input::Spawned { child } => (
                State {
                    subprocess: Some(Subprocess { child, target: self.awaiting->target }),
                    awaiting: Awaiting::Event,
                },
                Action::AwaitEvent,
            ),
            Input::SpawnFailed => (
                State { subprocess: self.subprocess, awaiting: Awaiting::Nothing },
                Action::Abort(Fault::SpawnFailed),
            ),
            Input::Terminated { .. } => (
                State { subprocess: None, awaiting: Awaiting::Event },
                Action::AwaitEvent,
            ),
            Input::TransportClosed => (
                State { subprocess: self.subprocess, awaiting: Awaiting::Nothing },
                Action::Abort(Fault::TransportClosed),
            ),
        }
    }

    /// Makes sure the monitored process `target` is throttled: without a
    /// helper, one is requested; with one, nothing happens, whichever
    /// process it was started against.
    #[verifier::when_used_as_spec(spec_ensure_throttling)]
    pub fn ensure_throttling(self, target: u32) -> (asked: (State, Action))
        ensures
            asked == self.spec_ensure_throttling(target),
    {
        match self.subprocess {
            None => (
                State { subprocess: None, awaiting: Awaiting::Spawn { target } },
                Action::Spawn { target, limit: CPU_LIMIT_PERCENT },
            ),
            Some(_) => (
                State { subprocess: self.subprocess, awaiting: Awaiting::Event },
                Action::AwaitEvent,
            ),
        }
    }

    /// Lifts the throttling: with a helper, its termination is requested;
    /// without one, nothing happens.
    #[verifier::when_used_as_spec(spec_release_throttling)]
    pub fn release_throttling(self) -> (asked: (State, Action))
        ensures
            asked == self.spec_release_throttling(),
    {
        match self.subprocess {
            Some(subprocess) => (
                State { subprocess: self.subprocess, awaiting: Awaiting::Termination },
                Action::Terminate { child: subprocess.child },
            ),
            None => (State { subprocess: None, awaiting: Awaiting::Event }, Action::AwaitEvent),
        }
    }
}

/// The state once the request `action` has been answered: a helper that was
/// asked for has been started as `child`, one that was told to terminate has
/// exited. Any other action asks for nothing that changes the state.
pub open spec fn answered(state: State, action: Action, child: u32, delivered: bool) -> State {
    match action {
        Action::Spawn { .. } => state.next(Input::Spawned { child }).0,
        Action::Terminate { .. } => state.next(Input::Terminated { delivered }).0,
        _ => state,
    }
}

/// Every step out of a state that holds together leads to one that does, and
/// a helper is only asked for where none is held.
pub proof fn next_keeps_one_helper(state: State, input: Input)
    requires
        state.wf(),
        state.accepts(input),
    ensures
        state.next(input).0.wf(),
        state.next(input).1 is Spawn ==> state.subprocess is None,
        state.next(input).1 is Spawn ==> state.next(input).0.awaiting is Spawn,
        state.next(input).1 matches Action::Terminate { child } ==> state.subprocess is Some
            && state.subprocess->0.child == child,
{
}

/// Making sure of the throttling twice, with no release in between, starts
/// one helper where none was held and none where one was. The second time
/// changes nothing, even for another process: the helper stays the one
/// started first.
pub proof fn ensure_twice_spawns_once(state: State, first: u32, second: u32, child: u32)
    ensures
        ({
            let (asked, action) = state.ensure_throttling(first);
            let held = answered(asked, action, child, true);
            &&& action is Spawn <==> state.subprocess is None
            &&& action is Spawn ==> action == Action::Spawn {
                target: first,
                limit: CPU_LIMIT_PERCENT,
            }
            &&& !(action is Spawn) ==> action == Action::AwaitEvent
            &&& held.subprocess == (match state.subprocess {
                Some(before) => Some(before),
                None => Some(Subprocess { child, target: first }),
            })
            &&& held.ensure_throttling(second) == (held, Action::AwaitEvent)
        }),
{
}

/// Releasing the throttling twice in a row terminates the helper once, where
/// one was held: the second time finds none and does nothing. Whether or not
/// the signal could be sent, no helper is held afterwards.
pub proof fn release_twice_terminates_once(state: State, delivered: bool)
    ensures
        ({
            let (asked, action) = state.release_throttling();
            let idle = answered(asked, action, 0, delivered);
            &&& action is Terminate <==> state.subprocess is Some
            &&& action is Terminate ==> action == Action::Terminate {
                child: state.subprocess->0.child,
            }
            &&& !(action is Terminate) ==> action == Action::AwaitEvent
            &&& idle == State { subprocess: None, awaiting: Awaiting::Event }
            &&& idle.release_throttling() == (idle, Action::AwaitEvent)
        }),
{
}

/// Throttling again after a release starts a helper anew: out of a state
/// without a helper, ensure, release, ensure asks for two starts and one
/// termination, the termination is that of the first helper, and the helper
/// held in the end is the one started last.
pub proof fn ensure_release_ensure_spawns_twice(
    state: State,
    first: u32,
    first_child: u32,
    delivered: bool,
    second: u32,
    second_child: u32,
)
    requires
        state.subprocess is None,
    ensures
        ({
            let (asked_first, start_first) = state.ensure_throttling(first);
            let throttled = answered(asked_first, start_first, first_child, delivered);
            let (asked_stop, stop) = throttled.release_throttling();
            let released = answered(asked_stop, stop, first_child, delivered);
            let (asked_second, start_second) = released.ensure_throttling(second);
            let throttled_again = answered(asked_second, start_second, second_child, delivered);
            &&& start_first == Action::Spawn {
                target: first,
                limit: CPU_LIMIT_PERCENT,
            }
            &&& throttled.subprocess == Some(Subprocess { child: first_child, target: first })
            &&& stop == Action::Terminate { child: first_child }
            &&& released.subprocess is None
            &&& start_second == Action::Spawn {
                target: second,
                limit: CPU_LIMIT_PERCENT,
            }
            &&& throttled_again.subprocess == Some(
                Subprocess { child: second_child, target: second },
            )
        }),
{
}

/// The governor: the one owner of the throttling helper's state.
#[derive(Debug)]
pub struct Governor {
    state: State,
}

impl View for Governor {
    type V = State;

    closed spec fn view(&self) -> State {
        self.state
    }
}

impl Governor {
    #[verifier::type_invariant]
    spec fn inv(self) -> bool {
        self.state.wf()
    }

    /// A governor at startup.
    pub fn new() -> (governor: Governor)
        ensures
            governor@ == State::initial(),
    {
        Governor { state: State { subprocess: None, awaiting: Awaiting::Event } }
    }

    /// The current state.
    pub fn state(&self) -> (state: State)
        ensures
            state == self@,
            state.wf(),
    {
        proof {
            use_type_invariant(self);
        }
        self.state
    }

    /// Takes one report of the driver and answers with the next action.
    ///
    /// A report that does not answer what the governor is waiting for is
    /// refused and changes nothing.
    pub fn step(&mut self, input: Input) -> (outcome: Result<Action, OutOfTurn>)
        ensures
            final(self)@.wf(),
            old(self)@.accepts(input) ==> outcome == Ok::<Action, OutOfTurn>(
                old(self)@.next(input).1,
            ) && final(self)@ == old(self)@.next(input).0,
            !old(self)@.accepts(input) ==> outcome == Err::<Action, OutOfTurn>(
                OutOfTurn { awaiting: old(self)@.awaiting },
            ) && final(self)@ == old(self)@,
    {
        proof {
            use_type_invariant(&*self);
        }
        let state = self.state;
        let refused = Err(OutOfTurn { awaiting: state.awaiting });
        let (next, action) = match state.awaiting {
            Awaiting::Event => match input {
                Input::Window(Focus::Ignored) => (state, Action::AwaitEvent),
                Input::Window(Focus::Target) => state.release_throttling(),
                Input::Window(Focus::Elsewhere) => (
                    State { subprocess: state.subprocess, awaiting: Awaiting::Lookup },
                    Action::LookUp,
                ),
                Input::TransportClosed => (
                    State { subprocess: state.subprocess, awaiting: Awaiting::Nothing },
                    Action::Abort(Fault::TransportClosed),
                ),
                _ => return refused,
            },
            Awaiting::Lookup => match input {
                Input::LookedUp(Some(target)) => state.ensure_throttling(target),
                Input::LookedUp(None) => (
                    State { subprocess: state.subprocess, awaiting: Awaiting::Event },
                    Action::AwaitEvent,
                ),
                _ => return refused,
            },
            Awaiting::Spawn { target } => match input {
                Input::Spawned { child } => (
                    State {
                        subprocess: Some(Subprocess { child, target }),
                        awaiting: Awaiting::Event,
                    },
                    Action::AwaitEvent,
                ),
                Input::SpawnFailed => (
                    State { subprocess: state.subprocess, awaiting: Awaiting::Nothing },
                    Action::Abort(Fault::SpawnFailed),
                ),
                _ => return refused,
            },
            Awaiting::Termination => match input {
                Input::Terminated { .. } => (
                    State { subprocess: None, awaiting: Awaiting::Event },
                    Action::AwaitEvent,
                ),
                _ => return refused,
            },
            Awaiting::Nothing => return refused,
        };
        self.state = next;
        Ok(action)
    }

    /// Takes a window notification: classifies it and steps on the reading.
    ///
    /// A notification that is no focus gain, or that names no window class,
    /// leads to no lookup, no start and no termination.
    pub fn on_focus_event(&mut self, event: &FocusEvent) -> (outcome: Result<Action, OutOfTurn>)
        ensures
            old(self)@.awaiting is Event ==> outcome == Ok::<Action, OutOfTurn>(
                old(self)@.next(Input::Window(event.focus())).1,
            ) && final(self)@ == old(self)@.next(Input::Window(event.focus())).0,
            !(old(self)@.awaiting is Event) ==> outcome == Err::<Action, OutOfTurn>(
                OutOfTurn { awaiting: old(self)@.awaiting },
            ) && final(self)@ == old(self)@,
            event.change_kind == ChangeKind::Other || event.window_class is None ==> final(self)@
                == old(self)@ && !(outcome matches Ok(action) && action != Action::AwaitEvent),
    {
        self.step(Input::Window(classify(event)))
    }

    /// Answers a lookup request from a refreshed snapshot of the process
    /// table: looks the monitored process up in it and steps on what was
    /// found.
    ///
    /// Where the governor is not waiting for a lookup, the snapshot is not
    /// read and nothing changes. Where several processes bear the name, the
    /// helper is asked for against one of them.
    pub fn look_up(&mut self, sys: &System) -> (outcome: Result<Action, OutOfTurn>)
        ensures
            old(self)@.awaiting is Lookup ==> exists|found: Option<u32>|
                {
                    &&& #[trigger] answers(*sys, TARGET_PROCESS@, found)
                    &&& outcome == Ok::<Action, OutOfTurn>(
                        old(self)@.next(Input::LookedUp(found)).1,
                    )
                    &&& final(self)@ == old(self)@.next(Input::LookedUp(found)).0
                },
            old(self)@.awaiting is Lookup && !(runs(*sys, TARGET_PROCESS@) && old(
                self,
            )@.subprocess is None) ==> outcome == Ok::<Action, OutOfTurn>(Action::AwaitEvent)
                && final(self)@ == (State {
                subprocess: old(self)@.subprocess,
                awaiting: Awaiting::Event,
            }),
            old(self)@.awaiting is Lookup && runs(*sys, TARGET_PROCESS@) && old(
                self,
            )@.subprocess is None ==> ({
                &&& outcome matches Ok(Action::Spawn { target, limit })
                &&& limit == CPU_LIMIT_PERCENT
                &&& answers(*sys, TARGET_PROCESS@, Some(target))
                &&& final(self)@ == (State {
                    subprocess: None,
                    awaiting: Awaiting::Spawn { target },
                })
            }),
            !(old(self)@.awaiting is Lookup) ==> outcome == Err::<Action, OutOfTurn>(
                OutOfTurn { awaiting: old(self)@.awaiting },
            ) && final(self)@ == old(self)@,
    {
        match self.state.awaiting {
            Awaiting::Lookup => {
                let found = find_target(sys);
                self.step(Input::LookedUp(found))
            },
            awaiting => Err(OutOfTurn { awaiting }),
        }
    }
}

} // verus!
