//! The background worker of an active mode, as a machine.
//!
//! The worker's thread, its sleep and its stop flag belong to the caller. The
//! poller says, each time the caller has read the flag, what the worker does
//! next: wait one interval, run one unforced cycle, or end.

use vstd::prelude::*;
use crate::controller::PollerHandle;
use crate::mode::{RefreshMode, REFRESH_INTERVAL};

verus! {

/// Where a worker stands between two looks at its stop flag.
#[derive(Clone, Copy, Debug, PartialEq, Eq, Structural)]
pub enum Phase {
    /// About to wait.
    Idle,
    /// Back from waiting.
    Rested,
    /// Saw the request to stop.
    Stopped,
}

/// What the worker does next.
#[derive(Clone, Copy, Debug, PartialEq, Eq, Structural)]
pub enum Command {
    /// Wait this many seconds, or until a stop is requested if the caller can
    /// be woken early, then look at the flag again.
    Wait { seconds: u64 },
    /// Run one cycle, then look at the flag again.
    RunCycle { force: bool, mode: RefreshMode },
    /// End the worker.
    Exit,
}

/// The next phase and command of a worker for `mode` that stands in `phase`
/// and reads `stop_requested` from its flag. A worker that has seen the
/// request once has ended for good; a cycle comes only after a full wait and
/// is never forced.
pub open spec fn poll(phase: Phase, mode: RefreshMode, stop_requested: bool) -> (Phase, Command) {
    if stop_requested || phase == Phase::Stopped {
        (Phase::Stopped, Command::Exit)
    } else if phase == Phase::Idle {
        (Phase::Rested, Command::Wait { seconds: REFRESH_INTERVAL })
    } else {
        (Phase::Idle, Command::RunCycle { force: false, mode })
    }
}

/// The commands that a worker gives over a series of looks at its flag.
pub open spec fn commands(phase: Phase, mode: RefreshMode, flags: Seq<bool>) -> Seq<Command>
    decreases flags.len(),
{
    if flags.len() == 0 {
        Seq::empty()
    } else {
        let (next, command) = poll(phase, mode, flags.first());
        seq![command] + commands(next, mode, flags.drop_first())
    }
}

/// One background worker.
#[derive(Clone, Copy, Debug)]
pub struct Poller {
    handle: PollerHandle,
    phase: Phase,
}

impl Poller {
    /// The handle under which the worker was started.
    pub closed spec fn spec_handle(self) -> PollerHandle {
        self.handle
    }

    /// Where the worker stands.
    pub closed spec fn spec_phase(self) -> Phase {
        self.phase
    }

    /// A worker for `handle`, about to wait for the first time.
    pub fn start(handle: PollerHandle) -> (poller: Poller)
        ensures
            poller.spec_handle() == handle,
            poller.spec_phase() == Phase::Idle,
    {
        Poller { handle, phase: Phase::Idle }
    }

    /// The handle under which the worker was started.
    #[verifier::when_used_as_spec(spec_handle)]
    pub fn handle(self) -> (handle: PollerHandle)
        ensures
            handle == self.spec_handle(),
    {
        self.handle
    }

    /// Where the worker stands.
    #[verifier::when_used_as_spec(spec_phase)]
    pub fn phase(self) -> (phase: Phase)
        ensures
            phase == self.spec_phase(),
    {
        self.phase
    }

    /// Takes what the worker read from its stop flag and says what it does
    /// next.
    pub fn step(&mut self, stop_requested: bool) -> (command: Command)
        ensures
            final(self).spec_handle() == old(self).spec_handle(),
            (final(self).spec_phase(), command) == poll(
                old(self).spec_phase(),
                old(self).spec_handle().mode,
                stop_requested,
            ),
    {
        if stop_requested {
            self.phase = Phase::Stopped;
            return Command::Exit;
        }
        match self.phase {
            Phase::Stopped => Command::Exit,
            Phase::Idle => {
                self.phase = Phase::Rested;
                Command::Wait { seconds: REFRESH_INTERVAL }
            },
            Phase::Rested => {
                self.phase = Phase::Idle;
                Command::RunCycle { force: false, mode: self.handle.mode }
            },
        }
    }
}

/// Once the flag was read as set, the worker gives no command but `Exit`,
/// whatever the flag shows later.
pub proof fn lemma_stop_is_final(phase: Phase, mode: RefreshMode, flags: Seq<bool>, seen: int)
    requires
        0 <= seen < flags.len(),
        flags[seen],
    ensures
        commands(phase, mode, flags).len() == flags.len(),
        forall|i: int| seen <= i < flags.len() ==> commands(phase, mode, flags)[i] == Command::Exit,
    decreases flags.len(),
{
    let (next, command) = poll(phase, mode, flags.first());
    let rest = flags.drop_first();
    lemma_commands_len(next, mode, rest);
    if seen == 0 {
        lemma_stopped_only_exits(mode, rest);
    } else {
        lemma_stop_is_final(next, mode, rest, seen - 1);
    }
}

/// There is one command for each look at the flag.
pub proof fn lemma_commands_len(phase: Phase, mode: RefreshMode, flags: Seq<bool>)
    ensures
        commands(phase, mode, flags).len() == flags.len(),
    decreases flags.len(),
{
    if flags.len() > 0 {
        let (next, command) = poll(phase, mode, flags.first());
        lemma_commands_len(next, mode, flags.drop_first());
    }
}

/// A worker that has stopped only ever exits.
pub proof fn lemma_stopped_only_exits(mode: RefreshMode, flags: Seq<bool>)
    ensures
        commands(Phase::Stopped, mode, flags).len() == flags.len(),
        forall|i: int| 0 <= i < flags.len() ==> commands(Phase::Stopped, mode, flags)[i] == Command::Exit,
    decreases flags.len(),
{
    if flags.len() > 0 {
        lemma_stopped_only_exits(mode, flags.drop_first());
    }
}

/// While no stop is requested, the worker waits and cycles in turn, starting
/// with a wait; every cycle is unforced and for the worker's own mode.
pub proof fn lemma_running_alternates(mode: RefreshMode, flags: Seq<bool>, phase: Phase, i: int)
    requires
        phase != Phase::Stopped,
        0 <= i < flags.len(),
        forall|j: int| 0 <= j <= i ==> !flags[j],
    ensures
        commands(phase, mode, flags).len() == flags.len(),
        commands(phase, mode, flags)[i] == (if (phase == Phase::Idle) == (i % 2 == 0) {
            Command::Wait { seconds: REFRESH_INTERVAL }
        } else {
            Command::RunCycle { force: false, mode }
        }),
    decreases flags.len(),
{
    let (next, command) = poll(phase, mode, flags.first());
    let rest = flags.drop_first();
    lemma_commands_len(next, mode, rest);
    if i > 0 {
        assert forall|j: int| 0 <= j <= i - 1 implies !rest[j] by {
            assert(rest[j] == flags[j + 1]);
        }
        lemma_running_alternates(mode, rest, next, i - 1);
    }
}

} // verus!
