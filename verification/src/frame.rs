//! One iteration of the frame loop.

use vstd::prelude::*;
use crate::input::InputSnapshot;
use crate::render::{draw_graphics, DrawCommand};
use crate::state::GameState;
use crate::update::update_state;

verus! {

/// Runs one frame: updates the state for the tick, then computes the frame of the
/// updated state. The update is complete before rendering reads the state, so a frame
/// never shows a state between two ticks.
pub fn advance_frame(game_state: &mut GameState, input: &InputSnapshot) -> (scene: Vec<DrawCommand>)
    requires
        old(game_state).update_in_range(*input),
    ensures
        *final(game_state) == old(game_state).after_update(*input),
        scene@ == final(game_state).frame(),
        old(game_state).wf() ==> final(game_state).wf(),
{
    update_state(game_state, input);
    draw_graphics(game_state)
}

} // verus!
