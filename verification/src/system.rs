//! The controller together with what its effects bring about: the workers
//! that are alive, the surroundings that the forced cycles change, and the
//! failures that were reported. The laws of the controller are stated here.

use vstd::prelude::*;
use crate::controller::{
    consistent, effects_of, initial, starting, state_after, state_at_rest, stopping,
    ControllerView, Effect, PollerHandle,
};
use crate::cycle::{failure_of, CycleError};
use crate::mode::{toggled, RefreshMode};
use crate::world::{run, World};

verus! {

/// The controller and everything that its effects touch.
pub ghost struct System {
    pub controller: ControllerView,
    /// The workers that were started and not yet asked to stop.
    pub live: Set<PollerHandle>,
    pub world: World,
    /// The failures of forced cycles, in the order in which they were reported.
    pub reports: Seq<CycleError>,
}

/// A report more, where there is something to report.
pub open spec fn reported(reports: Seq<CycleError>, failure: Option<CycleError>) -> Seq<CycleError> {
    match failure {
        Some(error) => reports.push(error),
        None => reports,
    }
}

/// What one effect brings about, for a store directory `dir`.
pub open spec fn perform(effect: Effect, dir: Seq<char>, system: System) -> System {
    match effect {
        Effect::StopPoller(handle) => System { live: system.live.remove(handle), ..system },
        Effect::ForcedCycle(mode) => {
            let cycle = run(true, mode, dir, system.world);
            System {
                world: cycle.world,
                reports: reported(system.reports, failure_of(cycle.outcome)),
                ..system
            }
        },
        Effect::StartPoller(handle) => System { live: system.live.insert(handle), ..system },
    }
}

/// What a list of effects brings about, one after the other.
pub open spec fn perform_all(effects: Seq<Effect>, dir: Seq<char>, system: System) -> System
    decreases effects.len(),
{
    if effects.len() == 0 {
        system
    } else {
        perform_all(effects.drop_first(), dir, perform(effects.first(), dir, system))
    }
}

/// A whole toggle: the state changes and the effects are carried out.
pub open spec fn toggle(system: System, dir: Seq<char>, requested: RefreshMode) -> System {
    perform_all(
        effects_of(system.controller, requested),
        dir,
        System { controller: state_after(system.controller, requested), ..system },
    )
}

/// One toggle for each request, in order.
pub open spec fn toggle_each(system: System, dir: Seq<char>, requests: Seq<RefreshMode>) -> System
    decreases requests.len(),
{
    if requests.len() == 0 {
        system
    } else {
        toggle(toggle_each(system, dir, requests.drop_last()), dir, requests.last())
    }
}

/// The workers that should be alive in a state: the stored poller and no other.
pub open spec fn expected_live(state: ControllerView) -> Set<PollerHandle> {
    match state.poller {
        Some(handle) => set![handle],
        None => Set::empty(),
    }
}

/// State and workers agree: the state is consistent and exactly the stored
/// poller is alive.
pub open spec fn in_step(system: System) -> bool {
    &&& consistent(system.controller)
    &&& system.live == expected_live(system.controller)
}

/// The system before any toggle, in given surroundings.
pub open spec fn fresh(world: World) -> System {
    System { controller: initial(), live: Set::empty(), world, reports: Seq::empty() }
}

/// What a toggle comes to, said at once, for a system in step.
pub open spec fn toggle_result(system: System, dir: Seq<char>, requested: RefreshMode) -> System {
    let state = state_after(system.controller, requested);
    if state.mode == RefreshMode::Off {
        System { controller: state, live: Set::empty(), ..system }
    } else {
        let cycle = run(true, state.mode, dir, system.world);
        System {
            controller: state,
            live: expected_live(state),
            world: cycle.world,
            reports: reported(system.reports, failure_of(cycle.outcome)),
        }
    }
}

/// Effect by effect, a toggle comes to what `toggle_result` says.
pub proof fn lemma_toggle_is_toggle_result(system: System, dir: Seq<char>, requested: RefreshMode)
    requires
        in_step(system),
    ensures
        toggle(system, dir, requested) == toggle_result(system, dir, requested),
{
    let state = state_after(system.controller, requested);
    let begun = System { controller: state, ..system };
    let stops = stopping(system.controller);
    let starts = starting(state);
    let stopped = System { live: Set::empty(), ..begun };
    assert(perform_all(stops + starts, dir, begun) == perform_all(starts, dir, stopped)) by {
        reveal_with_fuel(perform_all, 2);
        match system.controller.poller {
            Some(handle) => {
                assert((stops + starts).drop_first() =~= starts);
                assert(system.live.remove(handle) =~= Set::<PollerHandle>::empty());
            },
            None => {
                assert(stops + starts =~= starts);
            },
        }
    }
    assert(perform_all(starts, dir, stopped) == toggle_result(system, dir, requested)) by {
        reveal_with_fuel(perform_all, 3);
        match state.poller {
            Some(handle) => {
                assert(starts.drop_first() =~= seq![Effect::StartPoller(handle)]);
                assert(starts.drop_first().drop_first() =~= Seq::<Effect>::empty());
                assert(Set::<PollerHandle>::empty().insert(handle) =~= set![handle]);
            },
            None => {},
        }
    }
}

/// A toggle leaves state and workers in step: a poller is stored exactly when
/// a mode is active, and it is the only worker alive.
pub proof fn lemma_toggle_keeps_in_step(system: System, dir: Seq<char>, requested: RefreshMode)
    requires
        in_step(system),
    ensures
        in_step(toggle(system, dir, requested)),
        toggle(system, dir, requested).controller.mode == toggled(system.controller.mode, requested),
{
    lemma_toggle_is_toggle_result(system, dir, requested);
}

/// After any sequence of toggles a poller is stored exactly when the mode is
/// not `Off`, and at most one worker is alive: the stored one.
pub proof fn lemma_toggles_keep_in_step(system: System, dir: Seq<char>, requests: Seq<RefreshMode>)
    requires
        in_step(system),
    ensures
        ({
            let end = toggle_each(system, dir, requests);
            &&& in_step(end)
            &&& end.controller.poller is Some <==> end.controller.mode != RefreshMode::Off
            &&& end.live.finite() && end.live.len() <= 1
            &&& end.live.len() == 1 <==> end.controller.mode != RefreshMode::Off
        }),
    decreases requests.len(),
{
    if requests.len() > 0 {
        lemma_toggles_keep_in_step(system, dir, requests.drop_last());
        lemma_toggle_keeps_in_step(
            toggle_each(system, dir, requests.drop_last()),
            dir,
            requests.last(),
        );
    }
    let end = toggle_each(system, dir, requests);
    match end.controller.poller {
        Some(handle) => {
            assert(end.live.len() == 1) by {
                assert(end.live =~= Set::<PollerHandle>::empty().insert(handle));
            }
        },
        None => {},
    }
}

/// The system before any toggle is in step.
pub proof fn lemma_fresh_is_in_step(world: World)
    ensures
        in_step(fresh(world)),
{
}

/// Asking twice for a mode that was not active switches it on and off again:
/// the mode is `Off`, no poller is stored and no worker is alive. So it is
/// after asking twice for `Off`.
pub proof fn lemma_toggle_twice_is_off(system: System, dir: Seq<char>, mode: RefreshMode)
    requires
        in_step(system),
        system.controller.mode != mode || mode == RefreshMode::Off,
    ensures
        ({
            let end = toggle(toggle(system, dir, mode), dir, mode);
            &&& end.controller.mode == RefreshMode::Off
            &&& end.controller.poller is None
            &&& end.live == Set::<PollerHandle>::empty()
        }),
{
    lemma_toggle_is_toggle_result(system, dir, mode);
    lemma_toggle_keeps_in_step(system, dir, mode);
    lemma_toggle_is_toggle_result(toggle(system, dir, mode), dir, mode);
}

/// Asking for another mode while one is active switches directly: the one
/// state change goes from the first mode to the second, the first poller is
/// asked to stop before the forced cycle and the start of a new poller,
/// and the new poller is not the old one.
pub proof fn lemma_toggle_switches_directly(state: ControllerView, second: RefreshMode)
    requires
        consistent(state),
        state.mode != RefreshMode::Off,
        second != RefreshMode::Off,
        second != state.mode,
    ensures
        ({
            let old_poller = state.poller->0;
            let new_state = state_after(state, second);
            let new_poller = new_state.poller->0;
            &&& state.poller is Some
            &&& new_state.mode == second
            &&& new_state.poller is Some
            &&& new_poller.mode == second
            &&& new_poller != old_poller
            &&& effects_of(state, second) == seq![
                Effect::StopPoller(old_poller),
                Effect::ForcedCycle(second),
                Effect::StartPoller(new_poller),
            ]
        }),
{
    let old_poller = state.poller->0;
    let new_poller = state_after(state, second).poller->0;
    assert(effects_of(state, second) =~= seq![
        Effect::StopPoller(old_poller),
        Effect::ForcedCycle(second),
        Effect::StartPoller(new_poller),
    ]);
}

/// A forced cycle that fails does not hold the toggle back: the new mode is
/// active, its poller is stored and alive, and the failure is reported.
pub proof fn lemma_failed_cycle_keeps_transition(
    system: System,
    dir: Seq<char>,
    requested: RefreshMode,
)
    requires
        in_step(system),
        toggled(system.controller.mode, requested) != RefreshMode::Off,
        failure_of(run(true, requested, dir, system.world).outcome) is Some,
    ensures
        ({
            let end = toggle(system, dir, requested);
            let failure = failure_of(run(true, requested, dir, system.world).outcome)->0;
            &&& end.controller.mode == requested
            &&& end.controller.poller == Some(
                PollerHandle { mode: requested, serial: system.controller.next_serial },
            )
            &&& end.live == set![end.controller.poller->0]
            &&& end.reports == system.reports.push(failure)
        }),
{
    lemma_toggle_is_toggle_result(system, dir, requested);
}

/// A shutdown: the state comes to rest and the stored poller, if there is
/// one, is stopped.
pub open spec fn shutdown(system: System, dir: Seq<char>) -> System {
    perform_all(
        stopping(system.controller),
        dir,
        System { controller: state_at_rest(system.controller), ..system },
    )
}

/// After a shutdown no worker is alive, and nothing else has changed: no
/// cycle ran and nothing was reported.
pub proof fn lemma_shutdown_leaves_no_worker(system: System, dir: Seq<char>)
    requires
        in_step(system),
    ensures
        in_step(shutdown(system, dir)),
        shutdown(system, dir) == (System {
            controller: state_at_rest(system.controller),
            live: Set::empty(),
            ..system
        }),
{
    reveal_with_fuel(perform_all, 2);
    match system.controller.poller {
        Some(handle) => {
            assert(system.live.remove(handle) =~= Set::<PollerHandle>::empty());
            assert(stopping(system.controller).drop_first() =~= Seq::<Effect>::empty());
        },
        None => {},
    }
}

} // verus!
