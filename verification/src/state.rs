//! The game state: overworld positions, battle statistics, menu cursor and phase.

use vstd::prelude::*;
use crate::phase::UIPhase;

verus! {

/// Positions and extents of the player and the enemy on the overworld, in pixels.
///
/// `player_x`, `player_y` and `enemy_x`, `enemy_y` are the top-left corners of the boxes
/// that enclose the player's head circle and the enemy's circle.
#[derive(Clone, Copy, Debug, PartialEq, Eq, Structural)]
pub struct OverworldState {
    pub player_x: i32,
    pub player_y: i32,
    pub player_width: i32,
    pub player_height: i32,
    pub player_head_radius: i32,
    pub enemy_x: i32,
    pub enemy_y: i32,
    pub enemy_radius: i32,
    /// Pixels that the player moves per update tick.
    pub player_overworld_speed: i32,
}

/// Hit points, skill points and attack power of the two fighters.
#[derive(Clone, Copy, Debug, PartialEq, Eq, Structural)]
pub struct BattleState {
    pub player_hp: i32,
    pub player_sp: i32,
    pub player_power: i32,
    pub enemy_hp: i32,
    pub enemy_power: i32,
}

/// The whole state of a game. It is owned by the frame loop and handed to the update and
/// render dispatchers once per frame.
#[derive(Clone, Copy, Debug, PartialEq, Eq, Structural)]
pub struct GameState {
    pub ui_phase: UIPhase,
    pub overworld: OverworldState,
    pub battle: BattleState,
    /// Index of the highlighted option in the menu of the active phase.
    pub menu_selection_cursor: u32,
    /// Reading of the frame clock at which the active phase was entered.
    pub phase_entered_at: u64,
    /// Time units for which a display-only phase is held before it evaluates its exit.
    pub dwell_duration: u64,
}

impl OverworldState {
    /// The overworld at startup.
    pub open spec fn initial() -> OverworldState {
        OverworldState {
            player_x: 200,
            player_y: 150,
            player_width: 30,
            player_height: 100,
            player_head_radius: 15,
            enemy_x: 575,
            enemy_y: 225,
            enemy_radius: 50,
            player_overworld_speed: 3,
        }
    }

    /// Horizontal centre of the player's head circle.
    pub open spec fn head_center_x(self) -> int {
        self.player_x + self.player_head_radius
    }

    /// Vertical centre of the player's head circle.
    pub open spec fn head_center_y(self) -> int {
        self.player_y + self.player_head_radius
    }

    /// Horizontal centre of the enemy's circle.
    pub open spec fn enemy_center_x(self) -> int {
        self.enemy_x + self.enemy_radius
    }

    /// Vertical centre of the enemy's circle.
    pub open spec fn enemy_center_y(self) -> int {
        self.enemy_y + self.enemy_radius
    }

    /// The overworld at startup.
    pub fn new() -> (overworld: OverworldState)
        ensures
            overworld == OverworldState::initial(),
    {
        OverworldState {
            player_x: 200,
            player_y: 150,
            player_width: 30,
            player_height: 100,
            player_head_radius: 15,
            enemy_x: 575,
            enemy_y: 225,
            enemy_radius: 50,
            player_overworld_speed: 3,
        }
    }
}

impl BattleState {
    /// The battle statistics at startup.
    pub open spec fn initial() -> BattleState {
        BattleState { player_hp: 100, player_sp: 20, player_power: 30, enemy_hp: 60, enemy_power: 20 }
    }

    /// Hit points never go below zero.
    pub open spec fn hp_non_negative(self) -> bool {
        self.player_hp >= 0 && self.enemy_hp >= 0
    }

    /// The battle statistics at startup.
    pub fn new() -> (battle: BattleState)
        ensures
            battle == BattleState::initial(),
            battle.hp_non_negative(),
    {
        BattleState { player_hp: 100, player_sp: 20, player_power: 30, enemy_hp: 60, enemy_power: 20 }
    }
}

impl GameState {
    /// The game at startup: on the overworld, with the cursor on the first option.
    pub open spec fn initial(dwell_duration: u64) -> GameState {
        GameState {
            ui_phase: UIPhase::Overworld,
            overworld: OverworldState::initial(),
            battle: BattleState::initial(),
            menu_selection_cursor: 0,
            phase_entered_at: 0,
            dwell_duration,
        }
    }

    /// The cursor points at an option of the active menu. Where the active phase shows
    /// no menu, the cursor rests at zero.
    pub open spec fn cursor_in_bounds(self) -> bool {
        self.menu_selection_cursor == 0 || self.menu_selection_cursor < self.ui_phase.item_count()
    }

    /// The invariant of a game: the cursor is in bounds and no hit points are negative.
    pub open spec fn wf(self) -> bool {
        self.cursor_in_bounds() && self.battle.hp_non_negative()
    }

    /// Time units spent in the active phase when the clock reads `now`; zero if the clock
    /// reads less than it did when the phase was entered.
    pub open spec fn time_in_phase(self, now: u64) -> nat {
        if now >= self.phase_entered_at {
            (now - self.phase_entered_at) as nat
        } else {
            0
        }
    }

    /// Whether the active phase has been held for the dwell duration when the clock reads
    /// `now`.
    pub open spec fn dwell_elapsed(self, now: u64) -> bool {
        self.time_in_phase(now) >= self.dwell_duration
    }

    /// The game at startup, with the given dwell duration for display-only phases.
    pub fn new(dwell_duration: u64) -> (game_state: GameState)
        ensures
            game_state == GameState::initial(dwell_duration),
            game_state.wf(),
    {
        GameState {
            ui_phase: UIPhase::Overworld,
            overworld: OverworldState::new(),
            battle: BattleState::new(),
            menu_selection_cursor: 0,
            phase_entered_at: 0,
            dwell_duration,
        }
    }

    /// Whether the active phase has been held for the dwell duration when the clock reads
    /// `now`.
    pub fn has_dwelled(&self, now: u64) -> (elapsed: bool)
        ensures
            elapsed == self.dwell_elapsed(now),
    {
        if now >= self.phase_entered_at {
            now - self.phase_entered_at >= self.dwell_duration
        } else {
            self.dwell_duration == 0
        }
    }
}

} // verus!
