//! The run/pause state the driver keeps between ticks, and how one input
//! tick changes it.

use vstd::prelude::*;

verus! {

/// Whether the driver advances the grid each tick or waits.
#[derive(Clone, Copy, PartialEq, Eq, Structural, Debug)]
pub enum RunState {
    Paused,
    Running,
}

/// The other run state.
pub open spec fn toggled(s: RunState) -> RunState {
    match s {
        RunState::Running => RunState::Paused,
        RunState::Paused => RunState::Running,
    }
}

/// The run state after one input tick: the pause key toggles it, any other
/// input (or none) leaves it as it is.
pub fn next_run_state(current: RunState, pause_pressed: bool) -> (r: RunState)
    ensures
        r == (if pause_pressed {
            toggled(current)
        } else {
            current
        }),
{
    if pause_pressed {
        match current {
            RunState::Running => RunState::Paused,
            RunState::Paused => RunState::Running,
        }
    } else {
        current
    }
}

} // verus!
