//! The run loop's decisions: a state machine from the observed event to the
//! next state and the action to perform. The caller performs the action
//! (start-up calls, one strategy tick, exiting) and reports the next event.

use vstd::prelude::*;

verus! {

#[derive(Debug, Clone, Copy, PartialEq, Eq, Structural)]
pub enum RunState {
    Starting,
    Running,
    ShuttingDown,
    Stopped,
}

/// What the caller observed since the last step.
#[derive(Debug, Clone, Copy, PartialEq, Eq, Structural)]
pub enum Event {
    /// The start-up sync and diagnostics all succeeded.
    StartupSucceeded,
    /// A start-up call failed (e.g. authentication was refused).
    StartupFailed,
    /// The shutdown flag was read between ticks.
    Poll { shutdown: bool },
}

/// What the caller does next.
#[derive(Debug, Clone, Copy, PartialEq, Eq, Structural)]
pub enum Action {
    /// Nothing; report the next event.
    Idle,
    /// Run one strategy tick, then sleep one interval.
    Tick,
    /// Leave the loop; `success` is false after a failed start-up.
    Exit { success: bool },
}

/// The transition function.
pub open spec fn step_spec(s: RunState, e: Event) -> (RunState, Action) {
    match (s, e) {
        (RunState::Starting, Event::StartupSucceeded) => (RunState::Running, Action::Idle),
        (RunState::Starting, Event::StartupFailed) => (
            RunState::Stopped,
            Action::Exit { success: false },
        ),
        (RunState::Running, Event::Poll { shutdown }) => if shutdown {
            (RunState::ShuttingDown, Action::Idle)
        } else {
            (RunState::Running, Action::Tick)
        },
        (RunState::ShuttingDown, _) => (RunState::Stopped, Action::Exit { success: true }),
        _ => (s, Action::Idle),
    }
}

/// The state reached from `s` after the events `evs`.
pub open spec fn run_state(s: RunState, evs: Seq<Event>) -> RunState
    decreases evs.len(),
{
    if evs.len() == 0 {
        s
    } else {
        run_state(step_spec(s, evs[0]).0, evs.skip(1))
    }
}

/// The number of ticks started from `s` over the events `evs`.
pub open spec fn ticks(s: RunState, evs: Seq<Event>) -> nat
    decreases evs.len(),
{
    if evs.len() == 0 {
        0
    } else {
        let (next, a) = step_spec(s, evs[0]);
        (if a == Action::Tick {
            1nat
        } else {
            0nat
        }) + ticks(next, evs.skip(1))
    }
}

/// Decides the next state and action.
pub fn step(s: RunState, e: Event) -> (r: (RunState, Action))
    ensures
        r == step_spec(s, e),
{
    match (s, e) {
        (RunState::Starting, Event::StartupSucceeded) => (RunState::Running, Action::Idle),
        (RunState::Starting, Event::StartupFailed) => (
            RunState::Stopped,
            Action::Exit { success: false },
        ),
        (RunState::Running, Event::Poll { shutdown }) => if shutdown {
            (RunState::ShuttingDown, Action::Idle)
        } else {
            (RunState::Running, Action::Tick)
        },
        (RunState::ShuttingDown, _) => (RunState::Stopped, Action::Exit { success: true }),
        _ => (s, Action::Idle),
    }
}

/// Nothing leaves `Stopped`, and nothing more runs there.
pub proof fn lemma_stopped_is_terminal(evs: Seq<Event>)
    ensures
        run_state(RunState::Stopped, evs) == RunState::Stopped,
        ticks(RunState::Stopped, evs) == 0,
    decreases evs.len(),
{
    if evs.len() > 0 {
        lemma_stopped_is_terminal(evs.skip(1));
    }
}

/// Once the shutdown flag is read as set while `Running`, no further tick
/// starts (the tick under way when the flag was set is the last), and the
/// machine is `Stopped` after the next step, whatever the later events.
pub proof fn lemma_shutdown_stops(evs: Seq<Event>)
    requires
        evs.len() >= 2,
        evs[0] == (Event::Poll { shutdown: true }),
    ensures
        ticks(RunState::Running, evs) == 0,
        run_state(RunState::Running, evs) == RunState::Stopped,
{
    let rest = evs.skip(1);
    lemma_stopped_is_terminal(rest.skip(1));
    assert(step_spec(RunState::Running, evs[0]) == (RunState::ShuttingDown, Action::Idle));
    assert(step_spec(RunState::ShuttingDown, rest[0]) == (
        RunState::Stopped,
        Action::Exit { success: true },
    ));
    assert(ticks(RunState::ShuttingDown, rest) == ticks(RunState::Stopped, rest.skip(1)));
    assert(run_state(RunState::ShuttingDown, rest) == run_state(RunState::Stopped, rest.skip(1)));
}

/// A failed start-up goes straight to `Stopped` with a failing exit and runs
/// no tick.
pub proof fn lemma_failed_startup_stops(evs: Seq<Event>)
    requires
        evs.len() >= 1,
        evs[0] == Event::StartupFailed,
    ensures
        step_spec(RunState::Starting, evs[0]) == (RunState::Stopped, Action::Exit { success: false }),
        ticks(RunState::Starting, evs) == 0,
        run_state(RunState::Starting, evs) == RunState::Stopped,
{
    lemma_stopped_is_terminal(evs.skip(1));
}

} // verus!
