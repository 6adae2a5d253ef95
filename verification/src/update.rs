//! The update dispatcher and the handlers of the seven phases.
//!
//! Each handler is specified by a function from the state before the tick and the input
//! snapshot to the state after it. Positions and hit points are held in `i32`, so a
//! handler asks that the values it is about to store fit; [`can_update`] decides that
//! for the dispatcher.

use vstd::prelude::*;
use crate::collision::has_hitbox_collision;
use crate::input::InputSnapshot;
use crate::phase::UIPhase;
use crate::state::{BattleState, GameState, OverworldState};

verus! {

/// Hit points left after a hit of the given power: the difference, but never below zero.
pub open spec fn hp_after_hit(hp: i32, power: i32) -> int {
    if hp - power < 0 {
        0
    } else {
        hp - power
    }
}

/// The cursor after a step up in a menu: one less, but never below zero.
pub open spec fn cursor_after_up(cursor: u32) -> u32 {
    if cursor > 0 {
        (cursor - 1) as u32
    } else {
        cursor
    }
}

/// The cursor after a step down in a menu of `item_count` options: one more, unless it
/// would pass the last option. There is no wraparound.
pub open spec fn cursor_after_down(cursor: u32, item_count: u32) -> u32 {
    if cursor + 1 < item_count {
        (cursor + 1) as u32
    } else {
        cursor
    }
}

impl GameState {
    /// The state after a transition to `new_phase` at time `now`: the phase is changed,
    /// the cursor is back on the first option and the dwell starts anew.
    pub open spec fn shifted(self, new_phase: UIPhase, now: u64) -> GameState {
        GameState {
            ui_phase: new_phase,
            menu_selection_cursor: 0,
            phase_entered_at: now,
            ..self
        }
    }

    /// The state with the cursor at `cursor` and nothing else changed.
    pub open spec fn with_cursor(self, cursor: u32) -> GameState {
        GameState { menu_selection_cursor: cursor, ..self }
    }

    /// The state with the player moved by `(dx, dy)` and nothing else changed.
    pub open spec fn displaced(self, dx: int, dy: int) -> GameState {
        GameState {
            overworld: OverworldState {
                player_x: (self.overworld.player_x + dx) as i32,
                player_y: (self.overworld.player_y + dy) as i32,
                ..self.overworld
            },
            ..self
        }
    }

    /// The player's movement for one tick. One direction is applied even if several
    /// keys are held: up comes before left, left before down, down before right.
    pub open spec fn displacement(self, input: InputSnapshot) -> (int, int) {
        let speed: int = self.overworld.player_overworld_speed as int;
        if input.up {
            (0, -speed)
        } else if input.left {
            (-speed, 0)
        } else if input.down {
            (0, speed)
        } else if input.right {
            (speed, 0)
        } else {
            (0, 0)
        }
    }

    /// The new position of a tick on the overworld fits in `i32`.
    pub open spec fn overworld_in_range(self, input: InputSnapshot) -> bool {
        let (dx, dy) = self.displacement(input);
        self.overworld.hitboxes_collide() || {
            &&& i32::MIN <= self.overworld.player_x + dx <= i32::MAX
            &&& i32::MIN <= self.overworld.player_y + dy <= i32::MAX
        }
    }

    /// One tick on the overworld. A collision starts the battle at once and the player
    /// does not move; otherwise the player moves by the displacement.
    pub open spec fn after_overworld(self, input: InputSnapshot) -> GameState {
        if self.overworld.hitboxes_collide() {
            self.shifted(UIPhase::BattleActionSelect, input.now)
        } else {
            let (dx, dy) = self.displacement(input);
            self.displaced(dx, dy)
        }
    }

    /// One tick in the action menu (Fight, Skills, Items). Up comes before down, down
    /// before confirm. Fight leads to the target selection; Skills and Items both lead
    /// to the item menu.
    pub open spec fn after_battle_action_select(self, input: InputSnapshot) -> GameState {
        let cursor = self.menu_selection_cursor;
        if input.up {
            self.with_cursor(cursor_after_up(cursor))
        } else if input.down {
            self.with_cursor(cursor_after_down(cursor, UIPhase::BattleActionSelect.item_count() as u32))
        } else if input.confirm && cursor == 0 {
            self.shifted(UIPhase::BattleTargetSelect, input.now)
        } else if input.confirm && (cursor == 1 || cursor == 2) {
            self.shifted(UIPhase::BattleItemSelect, input.now)
        } else {
            self
        }
    }

    /// The enemy's hit points after the player's hit fit in `i32`.
    pub open spec fn battle_target_select_in_range(self, input: InputSnapshot) -> bool {
        input.confirm ==> self.battle.enemy_hp - self.battle.player_power <= i32::MAX
    }

    /// One tick in the target selection. Confirm hits the enemy with the player's power
    /// and leads to the damage display.
    pub open spec fn after_battle_target_select(self, input: InputSnapshot) -> GameState {
        if input.confirm {
            GameState {
                battle: BattleState {
                    enemy_hp: hp_after_hit(self.battle.enemy_hp, self.battle.player_power) as i32,
                    ..self.battle
                },
                ..self
            }.shifted(UIPhase::BattleDamageDisplay, input.now)
        } else {
            self
        }
    }

    /// One tick in the item menu (Item A, Item B, Back). Up comes before down, down
    /// before confirm, confirm before cancel. Confirm on Back, and cancel, lead back to
    /// the action menu; confirm on an item does nothing.
    pub open spec fn after_battle_item_select(self, input: InputSnapshot) -> GameState {
        let cursor = self.menu_selection_cursor;
        if input.up {
            self.with_cursor(cursor_after_up(cursor))
        } else if input.down {
            self.with_cursor(cursor_after_down(cursor, UIPhase::BattleItemSelect.item_count() as u32))
        } else if input.confirm {
            if cursor == 2 {
                self.shifted(UIPhase::BattleActionSelect, input.now)
            } else {
                self
            }
        } else if input.cancel {
            self.shifted(UIPhase::BattleActionSelect, input.now)
        } else {
            self
        }
    }

    /// One tick in the damage display. Nothing happens until the dwell has elapsed; then
    /// the enemy takes its turn if it has hit points left, and the player has won if not.
    /// The keys are ignored.
    pub open spec fn after_battle_damage_display(self, input: InputSnapshot) -> GameState {
        if !self.dwell_elapsed(input.now) {
            self
        } else if self.battle.enemy_hp > 0 {
            self.shifted(UIPhase::BattleEnemyTurn, input.now)
        } else {
            self.shifted(UIPhase::Victory, input.now)
        }
    }

    /// The player's hit points after the enemy's hit fit in `i32`.
    pub open spec fn battle_enemy_turn_in_range(self, input: InputSnapshot) -> bool {
        self.dwell_elapsed(input.now) ==> self.battle.player_hp - self.battle.enemy_power
            <= i32::MAX
    }

    /// One tick in the enemy's turn. Nothing happens until the dwell has elapsed; then
    /// the enemy hits the player with its power and the action menu comes back. The keys
    /// are ignored.
    pub open spec fn after_battle_enemy_turn(self, input: InputSnapshot) -> GameState {
        if !self.dwell_elapsed(input.now) {
            self
        } else {
            GameState {
                battle: BattleState {
                    player_hp: hp_after_hit(self.battle.player_hp, self.battle.enemy_power) as i32,
                    ..self.battle
                },
                ..self
            }.shifted(UIPhase::BattleActionSelect, input.now)
        }
    }

    /// The values that the tick of the active phase stores fit in `i32`.
    pub open spec fn update_in_range(self, input: InputSnapshot) -> bool {
        match self.ui_phase {
            UIPhase::Overworld => self.overworld_in_range(input),
            UIPhase::BattleTargetSelect => self.battle_target_select_in_range(input),
            UIPhase::BattleEnemyTurn => self.battle_enemy_turn_in_range(input),
            _ => true,
        }
    }

    /// One tick of the game: the tick of the active phase. Victory is terminal.
    pub open spec fn after_update(self, input: InputSnapshot) -> GameState {
        match self.ui_phase {
            UIPhase::Overworld => self.after_overworld(input),
            UIPhase::BattleActionSelect => self.after_battle_action_select(input),
            UIPhase::BattleTargetSelect => self.after_battle_target_select(input),
            UIPhase::BattleItemSelect => self.after_battle_item_select(input),
            UIPhase::BattleDamageDisplay => self.after_battle_damage_display(input),
            UIPhase::BattleEnemyTurn => self.after_battle_enemy_turn(input),
            UIPhase::Victory => self,
        }
    }
}

/// Shifts to a new phase of the user interface at time `now`. Every change of phase goes
/// through here, so no menu opens with a stale cursor.
pub fn shift_battle_phase(game_state: &mut GameState, new_phase: UIPhase, now: u64)
    ensures
        *final(game_state) == old(game_state).shifted(new_phase, now),
        final(game_state).ui_phase == new_phase,
        final(game_state).menu_selection_cursor == 0,
        final(game_state).phase_entered_at == now,
        final(game_state).overworld == old(game_state).overworld,
        final(game_state).battle == old(game_state).battle,
        final(game_state).dwell_duration == old(game_state).dwell_duration,
{
    game_state.ui_phase = new_phase;
    game_state.menu_selection_cursor = 0;
    game_state.phase_entered_at = now;
}

/// Moves the menu cursor one option up, if there is room.
pub fn move_cursor_up(game_state: &mut GameState)
    ensures
        *final(game_state) == old(game_state).with_cursor(
            cursor_after_up(old(game_state).menu_selection_cursor),
        ),
        final(game_state).menu_selection_cursor <= old(game_state).menu_selection_cursor,
{
    if game_state.menu_selection_cursor > 0 {
        game_state.menu_selection_cursor -= 1;
    }
}

/// Moves the menu cursor one option down in a menu of `item_count` options, if there is
/// room.
pub fn move_cursor_down(game_state: &mut GameState, item_count: u32)
    ensures
        *final(game_state) == old(game_state).with_cursor(
            cursor_after_down(old(game_state).menu_selection_cursor, item_count),
        ),
        old(game_state).menu_selection_cursor < item_count
            ==> final(game_state).menu_selection_cursor < item_count,
{
    if game_state.menu_selection_cursor < u32::MAX && game_state.menu_selection_cursor + 1
        < item_count {
        game_state.menu_selection_cursor += 1;
    }
}

/// Hit points left after a hit of the given power, never below zero.
pub fn apply_hit(hp: i32, power: i32) -> (left: i32)
    requires
        hp - power <= i32::MAX,
    ensures
        left == hp_after_hit(hp, power),
        left >= 0,
{
    let difference: i64 = hp as i64 - power as i64;
    if difference < 0 {
        0
    } else {
        difference as i32
    }
}

/// Updates the state while the player is on the overworld.
pub fn update_state_overworld(game_state: &mut GameState, input: &InputSnapshot)
    requires
        old(game_state).overworld_in_range(*input),
    ensures
        *final(game_state) == old(game_state).after_overworld(*input),
        old(game_state).overworld.hitboxes_collide() ==> final(game_state).ui_phase
            == UIPhase::BattleActionSelect,
        old(game_state).overworld.hitboxes_collide() ==> final(game_state).menu_selection_cursor
            == 0,
        old(game_state).overworld.hitboxes_collide() ==> final(game_state).overworld
            == old(game_state).overworld,
        !old(game_state).overworld.hitboxes_collide() ==> final(game_state).overworld.player_x
            == old(game_state).overworld.player_x + old(game_state).displacement(*input).0,
        !old(game_state).overworld.hitboxes_collide() ==> final(game_state).overworld.player_y
            == old(game_state).overworld.player_y + old(game_state).displacement(*input).1,
        !old(game_state).overworld.hitboxes_collide() ==> final(game_state).ui_phase
            == old(game_state).ui_phase,
{
    if has_hitbox_collision(game_state) {
        shift_battle_phase(game_state, UIPhase::BattleActionSelect, input.now);
    } else if input.up {
        game_state.overworld.player_y -= game_state.overworld.player_overworld_speed;
    } else if input.left {
        game_state.overworld.player_x -= game_state.overworld.player_overworld_speed;
    } else if input.down {
        game_state.overworld.player_y += game_state.overworld.player_overworld_speed;
    } else if input.right {
        game_state.overworld.player_x += game_state.overworld.player_overworld_speed;
    }
}

/// Updates the state while the player is selecting a battle action.
pub fn update_state_battle_action_select(game_state: &mut GameState, input: &InputSnapshot)
    ensures
        *final(game_state) == old(game_state).after_battle_action_select(*input),
        old(game_state).menu_selection_cursor <= 2 ==> final(game_state).menu_selection_cursor
            <= 2,
        final(game_state).ui_phase != old(game_state).ui_phase
            ==> final(game_state).menu_selection_cursor == 0,
{
    let action_menu_items: u32 = UIPhase::BattleActionSelect.menu_item_count();
    if input.up {
        move_cursor_up(game_state);
    } else if input.down {
        move_cursor_down(game_state, action_menu_items);
    } else if input.confirm {
        if game_state.menu_selection_cursor == 0 {
            // fight selected
            shift_battle_phase(game_state, UIPhase::BattleTargetSelect, input.now);
        } else if game_state.menu_selection_cursor == 1 {
            // skills selected
            shift_battle_phase(game_state, UIPhase::BattleItemSelect, input.now);
        } else if game_state.menu_selection_cursor == 2 {
            // items selected
            shift_battle_phase(game_state, UIPhase::BattleItemSelect, input.now);
        }
    }
}

/// Updates the state while the player is selecting a target in battle.
pub fn update_state_battle_target_select(game_state: &mut GameState, input: &InputSnapshot)
    requires
        old(game_state).battle_target_select_in_range(*input),
    ensures
        *final(game_state) == old(game_state).after_battle_target_select(*input),
        input.confirm ==> final(game_state).battle.enemy_hp == hp_after_hit(
            old(game_state).battle.enemy_hp,
            old(game_state).battle.player_power,
        ),
        input.confirm ==> final(game_state).ui_phase == UIPhase::BattleDamageDisplay,
{
    if input.confirm {
        game_state.battle.enemy_hp = apply_hit(
            game_state.battle.enemy_hp,
            game_state.battle.player_power,
        );
        shift_battle_phase(game_state, UIPhase::BattleDamageDisplay, input.now);
    }
}

/// Updates the state while the player is selecting an item in battle.
pub fn update_state_battle_item_select(game_state: &mut GameState, input: &InputSnapshot)
    ensures
        *final(game_state) == old(game_state).after_battle_item_select(*input),
        old(game_state).menu_selection_cursor <= 2 ==> final(game_state).menu_selection_cursor
            <= 2,
        final(game_state).ui_phase != old(game_state).ui_phase
            ==> final(game_state).menu_selection_cursor == 0,
{
    let menu_items: u32 = UIPhase::BattleItemSelect.menu_item_count();
    if input.up {
        move_cursor_up(game_state);
    } else if input.down {
        move_cursor_down(game_state, menu_items);
    } else if input.confirm {
        if game_state.menu_selection_cursor == 0 {
            // item A selected: nothing to use yet
        } else if game_state.menu_selection_cursor == 1 {
            // item B selected: nothing to use yet
        } else if game_state.menu_selection_cursor == 2 {
            // back selected
            shift_battle_phase(game_state, UIPhase::BattleActionSelect, input.now);
        }
    } else if input.cancel {
        // go back
        shift_battle_phase(game_state, UIPhase::BattleActionSelect, input.now);
    }
}

/// Updates the state while the player is viewing the damage dealt in battle.
pub fn update_state_battle_damage_display(game_state: &mut GameState, input: &InputSnapshot)
    ensures
        *final(game_state) == old(game_state).after_battle_damage_display(*input),
        !old(game_state).dwell_elapsed(input.now) ==> *final(game_state) == *old(game_state),
        old(game_state).dwell_elapsed(input.now) && old(game_state).battle.enemy_hp > 0
            ==> final(game_state).ui_phase == UIPhase::BattleEnemyTurn,
        old(game_state).dwell_elapsed(input.now) && old(game_state).battle.enemy_hp <= 0
            ==> final(game_state).ui_phase == UIPhase::Victory,
        final(game_state).battle == old(game_state).battle,
{
    if game_state.has_dwelled(input.now) {
        if game_state.battle.enemy_hp > 0 {
            shift_battle_phase(game_state, UIPhase::BattleEnemyTurn, input.now);
        } else {
            shift_battle_phase(game_state, UIPhase::Victory, input.now);
        }
    }
}

/// Updates the state while the player is viewing the enemy's turn in battle.
pub fn update_state_battle_enemy_turn(game_state: &mut GameState, input: &InputSnapshot)
    requires
        old(game_state).battle_enemy_turn_in_range(*input),
    ensures
        *final(game_state) == old(game_state).after_battle_enemy_turn(*input),
        old(game_state).dwell_elapsed(input.now) ==> final(game_state).battle.player_hp
            == hp_after_hit(old(game_state).battle.player_hp, old(game_state).battle.enemy_power),
        old(game_state).dwell_elapsed(input.now) ==> final(game_state).ui_phase
            == UIPhase::BattleActionSelect,
        !old(game_state).dwell_elapsed(input.now) ==> *final(game_state) == *old(game_state),
{
    if game_state.has_dwelled(input.now) {
        game_state.battle.player_hp = apply_hit(
            game_state.battle.player_hp,
            game_state.battle.enemy_power,
        );
        shift_battle_phase(game_state, UIPhase::BattleActionSelect, input.now);
    }
}

/// Whether [`update_state`] can store what the tick computes: decides its precondition.
pub fn can_update(game_state: &GameState, input: &InputSnapshot) -> (in_range: bool)
    ensures
        in_range == game_state.update_in_range(*input),
{
    match game_state.ui_phase {
        UIPhase::Overworld => {
            if has_hitbox_collision(game_state) {
                true
            } else {
                let x: i64 = game_state.overworld.player_x as i64;
                let y: i64 = game_state.overworld.player_y as i64;
                let speed: i64 = game_state.overworld.player_overworld_speed as i64;
                if input.up {
                    fits_i32(y - speed)
                } else if input.left {
                    fits_i32(x - speed)
                } else if input.down {
                    fits_i32(y + speed)
                } else if input.right {
                    fits_i32(x + speed)
                } else {
                    true
                }
            }
        },
        UIPhase::BattleTargetSelect => {
            !input.confirm || game_state.battle.enemy_hp as i64
                - game_state.battle.player_power as i64 <= i32::MAX as i64
        },
        UIPhase::BattleEnemyTurn => {
            !game_state.has_dwelled(input.now) || game_state.battle.player_hp as i64
                - game_state.battle.enemy_power as i64 <= i32::MAX as i64
        },
        _ => true,
    }
}

fn fits_i32(value: i64) -> (fits: bool)
    ensures
        fits == (i32::MIN <= value <= i32::MAX),
{
    i32::MIN as i64 <= value && value <= i32::MAX as i64
}

/// Updates the game state for one tick, according to the phase the player is in.
pub fn update_state(game_state: &mut GameState, input: &InputSnapshot)
    requires
        old(game_state).update_in_range(*input),
    ensures
        *final(game_state) == old(game_state).after_update(*input),
        old(game_state).wf() ==> final(game_state).wf(),
        final(game_state).ui_phase != old(game_state).ui_phase
            ==> final(game_state).menu_selection_cursor == 0,
        old(game_state).ui_phase == UIPhase::Victory ==> *final(game_state) == *old(game_state),
{
    match game_state.ui_phase {
        UIPhase::Overworld => update_state_overworld(game_state, input),
        UIPhase::BattleActionSelect => update_state_battle_action_select(game_state, input),
        UIPhase::BattleTargetSelect => update_state_battle_target_select(game_state, input),
        UIPhase::BattleItemSelect => update_state_battle_item_select(game_state, input),
        UIPhase::BattleDamageDisplay => update_state_battle_damage_display(game_state, input),
        UIPhase::BattleEnemyTurn => update_state_battle_enemy_turn(game_state, input),
        UIPhase::Victory => (),
    }
}

} // verus!
