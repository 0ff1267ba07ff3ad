//! The refresh controller: the active mode, the one poller that may run, and
//! what a request to toggle a mode changes.
//!
//! The controller starts and stops nothing itself. A toggle changes the state
//! and returns the effects that the caller has to bring about, in order,
//! while it still holds the lock on the state.

use vstd::prelude::*;
use crate::mode::{toggled, RefreshMode};

verus! {

/// Names one background worker. The caller keeps the worker's stop flag and
/// thread under this handle.
#[derive(Clone, Copy, Debug, PartialEq, Eq, Structural)]
pub struct PollerHandle {
    /// The mode that the worker refreshes for, fixed when it starts.
    pub mode: RefreshMode,
    /// Tells this worker from the one before it.
    pub serial: u64,
}

/// What the caller has to do after a toggle.
#[derive(Clone, Copy, Debug, PartialEq, Eq, Structural)]
pub enum Effect {
    /// Ask the worker to stop and let go of it, without waiting for it.
    StopPoller(PollerHandle),
    /// Run one forced cycle for the mode; a failure is reported, nothing more.
    ForcedCycle(RefreshMode),
    /// Start a worker under the handle.
    StartPoller(PollerHandle),
}

/// Why a toggle was not carried out.
#[derive(Clone, Copy, Debug, PartialEq, Eq, Structural)]
pub enum ControllerError {
    /// The lock on the state is poisoned.
    LockPoisoned,
}

/// The controller's state as plain values.
pub ghost struct ControllerView {
    pub mode: RefreshMode,
    pub poller: Option<PollerHandle>,
    /// The serial that the next worker gets.
    pub next_serial: u64,
}

/// The serial after `serial`; the count starts over when it is used up.
pub open spec fn following(serial: u64) -> u64 {
    if serial == u64::MAX {
        0
    } else {
        (serial + 1) as u64
    }
}

/// What holds of every controller state: a poller is stored exactly when a
/// mode is active, it is bound to that mode, and it was the last to start.
pub open spec fn consistent(state: ControllerView) -> bool {
    &&& state.poller is Some <==> state.mode != RefreshMode::Off
    &&& state.poller matches Some(handle) ==> handle.mode == state.mode && following(handle.serial)
        == state.next_serial
}

/// The state before any toggle.
pub open spec fn initial() -> ControllerView {
    ControllerView { mode: RefreshMode::Off, poller: None, next_serial: 0 }
}

/// The state after a request for `requested`.
pub open spec fn state_after(state: ControllerView, requested: RefreshMode) -> ControllerView {
    let mode = toggled(state.mode, requested);
    if mode == RefreshMode::Off {
        ControllerView { mode, poller: None, next_serial: state.next_serial }
    } else {
        ControllerView {
            mode,
            poller: Some(PollerHandle { mode, serial: state.next_serial }),
            next_serial: following(state.next_serial),
        }
    }
}

/// The state after a shutdown: no mode, no poller.
pub open spec fn state_at_rest(state: ControllerView) -> ControllerView {
    ControllerView { mode: RefreshMode::Off, poller: None, next_serial: state.next_serial }
}

/// What stops on the way out of `state`.
pub open spec fn stopping(state: ControllerView) -> Seq<Effect> {
    match state.poller {
        Some(handle) => seq![Effect::StopPoller(handle)],
        None => seq![],
    }
}

/// What starts on the way into `state`: the forced cycle first, the poller
/// after it.
pub open spec fn starting(state: ControllerView) -> Seq<Effect> {
    match state.poller {
        Some(handle) => seq![Effect::ForcedCycle(handle.mode), Effect::StartPoller(handle)],
        None => seq![],
    }
}

/// The effects of a request for `requested`, in the order in which they are
/// due: the old poller stops before anything of the new mode begins.
pub open spec fn effects_of(state: ControllerView, requested: RefreshMode) -> Seq<Effect> {
    stopping(state) + starting(state_after(state, requested))
}

/// What a toggle hands back: the mode that is now active, for the menu, and
/// the effects that are due.
#[derive(Debug, PartialEq, Eq)]
pub struct Transition {
    pub mode: RefreshMode,
    pub effects: Vec<Effect>,
}

/// The mode and the poller, kept together so that one lock guards both.
#[derive(Clone, Copy, Debug)]
pub struct ControllerState {
    mode: RefreshMode,
    poller: Option<PollerHandle>,
    next_serial: u64,
}

impl View for ControllerState {
    type V = ControllerView;

    closed spec fn view(&self) -> ControllerView {
        ControllerView { mode: self.mode, poller: self.poller, next_serial: self.next_serial }
    }
}

impl ControllerState {
    #[verifier::type_invariant]
    closed spec fn holds(self) -> bool {
        consistent(self@)
    }

    /// The state from which a program starts: no mode, no poller.
    pub fn new() -> (state: ControllerState)
        ensures
            state@ == initial(),
            consistent(state@),
    {
        ControllerState { mode: RefreshMode::Off, poller: None, next_serial: 0 }
    }

    /// The active mode.
    pub fn mode(&self) -> (mode: RefreshMode)
        ensures
            mode == self@.mode,
            consistent(self@),
    {
        proof {
            use_type_invariant(self);
        }
        self.mode
    }

    /// The poller that runs, if a mode is active.
    pub fn poller(&self) -> (poller: Option<PollerHandle>)
        ensures
            poller == self@.poller,
            consistent(self@),
    {
        proof {
            use_type_invariant(self);
        }
        self.poller
    }

    /// Carries out a request for `requested` on a state whose lock is held.
    pub fn switch(&mut self, requested: RefreshMode) -> (transition: Transition)
        ensures
            final(self)@ == state_after(old(self)@, requested),
            transition.mode == toggled(old(self)@.mode, requested),
            transition.effects@ == effects_of(old(self)@, requested),
            consistent(final(self)@),
    {
        proof {
            use_type_invariant(&*self);
        }
        let mut effects: Vec<Effect> = Vec::new();
        if let Some(handle) = self.poller {
            effects.push(Effect::StopPoller(handle));
        }
        let mode = self.mode.toggle(requested);
        if mode.is_active() {
            let handle = PollerHandle { mode, serial: self.next_serial };
            let next_serial: u64 = if self.next_serial == u64::MAX {
                0
            } else {
                self.next_serial + 1
            };
            *self = ControllerState { mode, poller: Some(handle), next_serial };
            effects.push(Effect::ForcedCycle(mode));
            effects.push(Effect::StartPoller(handle));
        } else {
            *self = ControllerState { mode, poller: None, next_serial: self.next_serial };
        }
        assert(effects@ =~= effects_of(old(self)@, requested));
        Transition { mode, effects }
    }

    /// Ends all refreshing before the program exits. The poller that is handed
    /// back, if there is one, is to be asked to stop and then waited for, so
    /// that no worker is cut off in the middle of a cycle.
    pub fn shutdown(&mut self) -> (last: Option<PollerHandle>)
        ensures
            last == old(self)@.poller,
            final(self)@ == state_at_rest(old(self)@),
            consistent(final(self)@),
    {
        let last = self.poller;
        *self = ControllerState {
            mode: RefreshMode::Off,
            poller: None,
            next_serial: self.next_serial,
        };
        last
    }

    /// Carries out a request for `requested`, given how taking the lock went.
    /// With a poisoned lock nothing changes and the error goes to the caller.
    pub fn toggle(&mut self, poisoned: bool, requested: RefreshMode) -> (result: Result<
        Transition,
        ControllerError,
    >)
        ensures
            consistent(final(self)@),
            poisoned ==> result == Err::<Transition, ControllerError>(ControllerError::LockPoisoned)
                && final(self)@ == old(self)@,
            !poisoned ==> final(self)@ == state_after(old(self)@, requested) && (result matches Ok(
                transition,
            ) && transition.mode == final(self)@.mode && transition.effects@ == effects_of(
                old(self)@,
                requested,
            )),
    {
        if poisoned {
            proof {
                use_type_invariant(&*self);
            }
            Err(ControllerError::LockPoisoned)
        } else {
            Ok(self.switch(requested))
        }
    }
}

/// A toggle keeps a consistent state consistent, whatever is asked for.
pub proof fn lemma_state_after_is_consistent(state: ControllerView, requested: RefreshMode)
    requires
        consistent(state),
    ensures
        consistent(state_after(state, requested)),
        state_after(state, requested).mode == toggled(state.mode, requested),
{
}

} // verus!
