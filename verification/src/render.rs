//! The render dispatcher.
//!
//! Rendering computes a frame: the list of drawing commands for the active phase, in
//! the order in which they are to be performed. Performing them on a drawing surface is
//! left to the caller. Coordinates are computed in `i64`, where no sum of the positions
//! and radii of the state overflows.

use vstd::prelude::*;
use crate::phase::UIPhase;
use crate::state::{GameState, OverworldState};

verus! {

/// The colors that the game draws with.
#[derive(Clone, Copy, Debug, PartialEq, Eq, Structural)]
pub enum Color {
    Black,
    Green,
    Gray,
    Red,
    Orange,
    Purple,
    Gold,
}

/// One primitive drawing operation.
#[derive(Clone, Copy, Debug, PartialEq, Eq, Structural)]
pub enum DrawCommand {
    /// Fill the whole surface with a color.
    ClearBackground { color: Color },
    /// A color-filled circle.
    FilledCircle { center_x: i64, center_y: i64, radius: i32, color: Color },
    /// The outline of a circle.
    CircleOutline { center_x: i64, center_y: i64, radius: i32, color: Color },
    /// A line segment.
    Line { start_x: i64, start_y: i64, end_x: i64, end_y: i64, color: Color },
}

/// The quotient of `a` by a positive `b`, rounded toward zero.
pub open spec fn quotient_toward_zero(a: int, b: int) -> int {
    if a >= 0 {
        a / b
    } else {
        -((-a) / b)
    }
}

/// The background color of a phase. No two phases share one, so the background alone
/// tells which phase is on screen.
pub open spec fn background_of(phase: UIPhase) -> Color {
    match phase {
        UIPhase::Overworld => Color::Green,
        UIPhase::BattleActionSelect => Color::Gray,
        UIPhase::BattleTargetSelect => Color::Red,
        UIPhase::BattleItemSelect => Color::Black,
        UIPhase::BattleDamageDisplay => Color::Orange,
        UIPhase::BattleEnemyTurn => Color::Purple,
        UIPhase::Victory => Color::Gold,
    }
}

/// The frame of a phase that has no visuals of its own: its background and nothing else.
pub open spec fn backdrop_of(phase: UIPhase) -> Seq<DrawCommand> {
    seq![DrawCommand::ClearBackground { color: background_of(phase) }]
}

impl OverworldState {
    /// The player's avatar: its head, a black disc.
    pub open spec fn player_shape(self) -> Seq<DrawCommand> {
        seq![
            DrawCommand::FilledCircle {
                center_x: self.head_center_x() as i64,
                center_y: self.head_center_y() as i64,
                radius: self.player_head_radius,
                color: Color::Black,
            },
        ]
    }

    /// Horizontal position of the enemy's left eye: two thirds of a radius from the left.
    pub open spec fn left_eye_x(self) -> int {
        self.enemy_x + quotient_toward_zero(2 * self.enemy_radius, 3)
    }

    /// Horizontal position of the enemy's right eye: four thirds of a radius from the
    /// left.
    pub open spec fn right_eye_x(self) -> int {
        self.enemy_x + quotient_toward_zero(4 * self.enemy_radius, 3)
    }

    /// Upper end of the enemy's eyes: half a radius from the top.
    pub open spec fn eye_top_y(self) -> int {
        self.enemy_y + quotient_toward_zero(self.enemy_radius as int, 2)
    }

    /// Lower end of the enemy's eyes: three quarters of a radius from the top.
    pub open spec fn eye_bottom_y(self) -> int {
        self.enemy_y + quotient_toward_zero(3 * self.enemy_radius, 4)
    }

    /// The enemy: a red circle outline with two short vertical lines for eyes.
    pub open spec fn enemy_shape(self) -> Seq<DrawCommand> {
        seq![
            DrawCommand::CircleOutline {
                center_x: self.enemy_center_x() as i64,
                center_y: self.enemy_center_y() as i64,
                radius: self.enemy_radius,
                color: Color::Red,
            },
            DrawCommand::Line {
                start_x: self.left_eye_x() as i64,
                start_y: self.eye_top_y() as i64,
                end_x: self.left_eye_x() as i64,
                end_y: self.eye_bottom_y() as i64,
                color: Color::Red,
            },
            DrawCommand::Line {
                start_x: self.right_eye_x() as i64,
                start_y: self.eye_top_y() as i64,
                end_x: self.right_eye_x() as i64,
                end_y: self.eye_bottom_y() as i64,
                color: Color::Red,
            },
        ]
    }
}

impl GameState {
    /// The frame of the state: the background of the active phase and, on the overworld,
    /// the player and the enemy on top of it.
    pub open spec fn frame(self) -> Seq<DrawCommand> {
        if self.ui_phase == UIPhase::Overworld {
            backdrop_of(self.ui_phase) + self.overworld.player_shape()
                + self.overworld.enemy_shape()
        } else {
            backdrop_of(self.ui_phase)
        }
    }
}

/// The background color of a phase.
pub fn background_color(phase: UIPhase) -> (color: Color)
    ensures
        color == background_of(phase),
{
    match phase {
        UIPhase::Overworld => Color::Green,
        UIPhase::BattleActionSelect => Color::Gray,
        UIPhase::BattleTargetSelect => Color::Red,
        UIPhase::BattleItemSelect => Color::Black,
        UIPhase::BattleDamageDisplay => Color::Orange,
        UIPhase::BattleEnemyTurn => Color::Purple,
        UIPhase::Victory => Color::Gold,
    }
}

/// Draws the placeholder of a phase that has no visuals of its own yet: its background.
pub fn draw_stub(phase: UIPhase, scene: &mut Vec<DrawCommand>)
    ensures
        final(scene)@ == old(scene)@ + backdrop_of(phase),
{
    scene.push(DrawCommand::ClearBackground { color: background_color(phase) });
}

/// Draws the player on the overworld.
pub fn draw_player(game_state: &GameState, scene: &mut Vec<DrawCommand>)
    ensures
        final(scene)@ == old(scene)@ + game_state.overworld.player_shape(),
{
    let head_radius: i64 = game_state.overworld.player_head_radius as i64;
    // draw head
    scene.push(
        DrawCommand::FilledCircle {
            center_x: game_state.overworld.player_x as i64 + head_radius,
            center_y: game_state.overworld.player_y as i64 + head_radius,
            radius: game_state.overworld.player_head_radius,
            color: Color::Black,
        },
    );
}

/// Draws the enemy on the overworld.
pub fn draw_enemy(game_state: &GameState, scene: &mut Vec<DrawCommand>)
    ensures
        final(scene)@ == old(scene)@ + game_state.overworld.enemy_shape(),
{
    let enemy_x: i64 = game_state.overworld.enemy_x as i64;
    let enemy_y: i64 = game_state.overworld.enemy_y as i64;
    let enemy_radius: i64 = game_state.overworld.enemy_radius as i64;

    // draw enemy outline
    scene.push(
        DrawCommand::CircleOutline {
            center_x: enemy_x + enemy_radius,
            center_y: enemy_y + enemy_radius,
            radius: game_state.overworld.enemy_radius,
            color: Color::Red,
        },
    );

    // draw eyes
    scene.push(
        DrawCommand::Line {
            start_x: enemy_x + 2 * enemy_radius / 3,
            start_y: enemy_y + enemy_radius / 2,
            end_x: enemy_x + 2 * enemy_radius / 3,
            end_y: enemy_y + 3 * enemy_radius / 4,
            color: Color::Red,
        },
    );
    scene.push(
        DrawCommand::Line {
            start_x: enemy_x + 4 * enemy_radius / 3,
            start_y: enemy_y + enemy_radius / 2,
            end_x: enemy_x + 4 * enemy_radius / 3,
            end_y: enemy_y + 3 * enemy_radius / 4,
            color: Color::Red,
        },
    );
}

/// Draws the overworld scene: the grassy background, the player and the enemy.
pub fn draw_overworld(game_state: &GameState, scene: &mut Vec<DrawCommand>)
    ensures
        final(scene)@ == old(scene)@ + backdrop_of(UIPhase::Overworld)
            + game_state.overworld.player_shape() + game_state.overworld.enemy_shape(),
{
    scene.push(DrawCommand::ClearBackground { color: background_color(UIPhase::Overworld) });
    draw_player(game_state, scene);
    draw_enemy(game_state, scene);
}

/// Draws the action select phase of the battle interface.
pub fn draw_battle_action_select(scene: &mut Vec<DrawCommand>)
    ensures
        final(scene)@ == old(scene)@ + backdrop_of(UIPhase::BattleActionSelect),
{
    scene.push(
        DrawCommand::ClearBackground { color: background_color(UIPhase::BattleActionSelect) },
    );
}

/// Draws the target select phase of the battle interface.
pub fn draw_battle_target_select(scene: &mut Vec<DrawCommand>)
    ensures
        final(scene)@ == old(scene)@ + backdrop_of(UIPhase::BattleTargetSelect),
{
    scene.push(
        DrawCommand::ClearBackground { color: background_color(UIPhase::BattleTargetSelect) },
    );
}

/// Draws the item select phase of the battle interface: the placeholder, for now.
pub fn draw_battle_item_select(scene: &mut Vec<DrawCommand>)
    ensures
        final(scene)@ == old(scene)@ + backdrop_of(UIPhase::BattleItemSelect),
{
    draw_stub(UIPhase::BattleItemSelect, scene);
}

/// Draws the damage display phase of the battle interface: the placeholder, for now.
pub fn draw_battle_damage_display(scene: &mut Vec<DrawCommand>)
    ensures
        final(scene)@ == old(scene)@ + backdrop_of(UIPhase::BattleDamageDisplay),
{
    draw_stub(UIPhase::BattleDamageDisplay, scene);
}

/// Draws the enemy turn phase of the battle interface: the placeholder, for now.
pub fn draw_battle_enemy_turn(scene: &mut Vec<DrawCommand>)
    ensures
        final(scene)@ == old(scene)@ + backdrop_of(UIPhase::BattleEnemyTurn),
{
    draw_stub(UIPhase::BattleEnemyTurn, scene);
}

/// Draws the victory screen.
pub fn draw_victory(scene: &mut Vec<DrawCommand>)
    ensures
        final(scene)@ == old(scene)@ + backdrop_of(UIPhase::Victory),
{
    scene.push(DrawCommand::ClearBackground { color: background_color(UIPhase::Victory) });
}

/// Computes the frame of the game for the phase the player is in.
pub fn draw_graphics(game_state: &GameState) -> (scene: Vec<DrawCommand>)
    ensures
        scene@ == game_state.frame(),
{
    let mut scene: Vec<DrawCommand> = Vec::new();
    match game_state.ui_phase {
        UIPhase::Overworld => draw_overworld(game_state, &mut scene),
        UIPhase::BattleActionSelect => draw_battle_action_select(&mut scene),
        UIPhase::BattleTargetSelect => draw_battle_target_select(&mut scene),
        UIPhase::BattleItemSelect => draw_battle_item_select(&mut scene),
        UIPhase::BattleDamageDisplay => draw_battle_damage_display(&mut scene),
        UIPhase::BattleEnemyTurn => draw_battle_enemy_turn(&mut scene),
        UIPhase::Victory => draw_victory(&mut scene),
    }
    scene
}

/// The background tells the phase: two phases have the same background color only if
/// they are the same phase.
pub proof fn lemma_background_distinguishes_phase(p: UIPhase, q: UIPhase)
    ensures
        background_of(p) == background_of(q) <==> p == q,
{
}

/// The frames of two states in different phases differ.
pub proof fn lemma_frame_distinguishes_phase(s: GameState, t: GameState)
    requires
        s.ui_phase != t.ui_phase,
    ensures
        s.frame() != t.frame(),
{
    lemma_every_phase_has_a_frame(s);
    lemma_every_phase_has_a_frame(t);
    lemma_background_distinguishes_phase(s.ui_phase, t.ui_phase);
    assert(s.frame()[0] != t.frame()[0]);
}

/// Every phase has a frame, and each frame starts by clearing the background to the
/// color of the phase and clears it only once. Only the overworld draws more.
pub proof fn lemma_every_phase_has_a_frame(s: GameState)
    ensures
        s.frame().len() >= 1,
        s.frame()[0] == (DrawCommand::ClearBackground { color: background_of(s.ui_phase) }),
        forall|i: int| 1 <= i < s.frame().len() ==> !(#[trigger] s.frame()[i] is ClearBackground),
        s.ui_phase == UIPhase::Overworld ==> s.frame().len() == 5,
        s.ui_phase != UIPhase::Overworld ==> s.frame().len() == 1,
{
}

/// The frame depends on nothing but the phase and the overworld.
pub proof fn lemma_frame_reads_phase_and_overworld(s: GameState, t: GameState)
    requires
        s.ui_phase == t.ui_phase,
        s.overworld == t.overworld,
    ensures
        s.frame() == t.frame(),
{
}

} // verus!
