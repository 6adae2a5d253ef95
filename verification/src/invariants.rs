//! What holds of every tick and of every run of ticks.

use vstd::prelude::*;
use crate::input::InputSnapshot;
use crate::phase::UIPhase;
use crate::state::GameState;
use crate::update::{cursor_after_down, cursor_after_up, hp_after_hit};

verus! {

impl GameState {
    /// The state after one tick for each snapshot of `inputs`, in order.
    pub open spec fn after_updates(self, inputs: Seq<InputSnapshot>) -> GameState
        decreases inputs.len(),
    {
        if inputs.len() == 0 {
            self
        } else {
            self.after_updates(inputs.drop_last()).after_update(inputs.last())
        }
    }

    /// Every tick of the run stores values that fit in `i32`.
    pub open spec fn updates_in_range(self, inputs: Seq<InputSnapshot>) -> bool
        decreases inputs.len(),
    {
        inputs.len() == 0 || {
            &&& self.updates_in_range(inputs.drop_last())
            &&& self.after_updates(inputs.drop_last()).update_in_range(inputs.last())
        }
    }
}

/// A transition puts the cursor on the first option, whatever it was before and whatever
/// the target phase is, and touches neither the overworld nor the battle statistics.
pub proof fn lemma_shift_resets_cursor(s: GameState, new_phase: UIPhase, now: u64)
    ensures
        s.shifted(new_phase, now).menu_selection_cursor == 0,
        s.shifted(new_phase, now).ui_phase == new_phase,
        s.shifted(new_phase, now).cursor_in_bounds(),
        s.shifted(new_phase, now).overworld == s.overworld,
        s.shifted(new_phase, now).battle == s.battle,
{
}

/// A step up never takes the cursor below zero, and a step down never takes it past the
/// last option: a step leaves the cursor where it was or on an option of the menu.
pub proof fn lemma_cursor_steps_stay_in_menu(cursor: u32, item_count: u32)
    ensures
        0 <= cursor_after_up(cursor) <= cursor,
        cursor <= cursor_after_down(cursor, item_count),
        cursor_after_down(cursor, item_count) == cursor || cursor_after_down(cursor, item_count)
            <= item_count - 1,
        cursor < item_count ==> cursor_after_up(cursor) < item_count && cursor_after_down(
            cursor,
            item_count,
        ) < item_count,
{
}

/// A hit never leaves negative hit points, and never more than there were if its power is
/// not negative.
pub proof fn lemma_hit_leaves_hp_non_negative(hp: i32, power: i32)
    ensures
        hp_after_hit(hp, power) >= 0,
        hp >= 0 && power >= 0 ==> hp_after_hit(hp, power) <= hp,
{
}

/// One tick keeps the cursor in the bounds of the menu of the active phase.
pub proof fn lemma_update_keeps_cursor_in_bounds(s: GameState, input: InputSnapshot)
    requires
        s.cursor_in_bounds(),
    ensures
        s.after_update(input).cursor_in_bounds(),
{
}

/// One tick that stores values that fit keeps the invariant of the game.
pub proof fn lemma_update_keeps_wf(s: GameState, input: InputSnapshot)
    requires
        s.wf(),
        s.update_in_range(input),
    ensures
        s.after_update(input).wf(),
{
}

/// Whatever sequence of inputs arrives, the cursor stays in the bounds of the menu of
/// the active phase: in the action menu and in the item menu it never passes the third
/// option.
pub proof fn lemma_updates_keep_cursor_in_bounds(s: GameState, inputs: Seq<InputSnapshot>)
    requires
        s.cursor_in_bounds(),
    ensures
        s.after_updates(inputs).cursor_in_bounds(),
        s.after_updates(inputs).ui_phase == UIPhase::BattleActionSelect || s.after_updates(
            inputs,
        ).ui_phase == UIPhase::BattleItemSelect ==> s.after_updates(inputs).menu_selection_cursor
            <= 2,
    decreases inputs.len(),
{
    if inputs.len() > 0 {
        lemma_updates_keep_cursor_in_bounds(s, inputs.drop_last());
        lemma_update_keeps_cursor_in_bounds(s.after_updates(inputs.drop_last()), inputs.last());
    }
}

/// Whatever sequence of inputs arrives, if every tick stores values that fit, the
/// invariant of the game holds after the run.
pub proof fn lemma_updates_keep_wf(s: GameState, inputs: Seq<InputSnapshot>)
    requires
        s.wf(),
        s.updates_in_range(inputs),
    ensures
        s.after_updates(inputs).wf(),
    decreases inputs.len(),
{
    if inputs.len() > 0 {
        lemma_updates_keep_wf(s, inputs.drop_last());
        lemma_update_keeps_wf(s.after_updates(inputs.drop_last()), inputs.last());
    }
}

/// A tick changes only what belongs to the active phase: the overworld only on the
/// overworld, the battle statistics only in the target selection and in the enemy's
/// turn, and the dwell duration never. Whenever the phase changes, the cursor is back on
/// the first option.
pub proof fn lemma_update_touches_only_phase_state(s: GameState, input: InputSnapshot)
    ensures
        s.ui_phase != UIPhase::Overworld ==> s.after_update(input).overworld == s.overworld,
        s.ui_phase != UIPhase::BattleTargetSelect && s.ui_phase != UIPhase::BattleEnemyTurn
            ==> s.after_update(input).battle == s.battle,
        s.after_update(input).dwell_duration == s.dwell_duration,
        s.after_update(input).ui_phase != s.ui_phase ==> s.after_update(
            input,
        ).menu_selection_cursor == 0 && s.after_update(input).phase_entered_at == input.now,
        s.ui_phase == UIPhase::Victory ==> s.after_update(input) == s,
{
}

/// On the overworld only one direction is applied per tick. With up and right both held
/// the horizontal position is unchanged, and unless the battle starts the player moves
/// up by its speed.
pub proof fn lemma_up_wins_over_right(s: GameState, input: InputSnapshot)
    requires
        s.ui_phase == UIPhase::Overworld,
        input.up,
        input.right,
        s.update_in_range(input),
    ensures
        s.after_update(input).overworld.player_x == s.overworld.player_x,
        !s.overworld.hitboxes_collide() ==> s.after_update(input).overworld.player_y
            == s.overworld.player_y - s.overworld.player_overworld_speed,
        s.overworld.hitboxes_collide() ==> s.after_update(input).overworld.player_y
            == s.overworld.player_y,
{
}

/// On the overworld a tick moves the player along at most one axis.
pub proof fn lemma_movement_is_along_one_axis(s: GameState, input: InputSnapshot)
    requires
        s.ui_phase == UIPhase::Overworld,
        s.update_in_range(input),
    ensures
        s.after_update(input).overworld.player_x == s.overworld.player_x || s.after_update(
            input,
        ).overworld.player_y == s.overworld.player_y,
{
}

/// A collision on the overworld leads straight to the action menu with the cursor on the
/// first option, whatever keys are held.
pub proof fn lemma_collision_enters_battle(s: GameState, input: InputSnapshot)
    requires
        s.ui_phase == UIPhase::Overworld,
        s.overworld.hitboxes_collide(),
    ensures
        s.after_update(input) == s.shifted(UIPhase::BattleActionSelect, input.now),
        s.after_update(input).ui_phase == UIPhase::BattleActionSelect,
        s.after_update(input).menu_selection_cursor == 0,
{
}

/// A timed phase is held until its dwell has elapsed, and the keys are ignored in it:
/// two snapshots taken at the same time lead to the same state.
pub proof fn lemma_timed_phase_ignores_keys(s: GameState, a: InputSnapshot, b: InputSnapshot)
    requires
        s.ui_phase.is_timed(),
        a.now == b.now,
    ensures
        s.after_update(a) == s.after_update(b),
        !s.dwell_elapsed(a.now) ==> s.after_update(a) == s,
        s.dwell_elapsed(a.now) ==> s.after_update(a).ui_phase != s.ui_phase,
{
}

} // verus!
