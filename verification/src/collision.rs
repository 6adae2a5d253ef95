//! Hitbox collision between the player and the enemy on the overworld.

use vstd::prelude::*;
use crate::state::{GameState, OverworldState};

verus! {

impl OverworldState {
    /// Square of the Euclidean distance between the centre of the player's head circle
    /// and the centre of the enemy's circle.
    pub open spec fn center_distance_squared(self) -> int {
        let dx = self.head_center_x() - self.enemy_center_x();
        let dy = self.head_center_y() - self.enemy_center_y();
        dx * dx + dy * dy
    }

    /// Sum of the two radii: the largest distance between the centres at which the
    /// circles still touch.
    pub open spec fn reach(self) -> int {
        self.player_head_radius + self.enemy_radius
    }

    /// Circle-circle overlap: the distance between the centres is at most the sum of the
    /// radii. Stated over squares, which is the same for a distance and a sum that are
    /// not negative; no distance is at most a negative sum.
    pub open spec fn head_touches_enemy(self) -> bool {
        self.reach() >= 0 && self.center_distance_squared() <= self.reach() * self.reach()
    }

    /// Overlap of the player's body rectangle with the enemy's circle. The body has no
    /// hitbox yet, so it never touches.
    pub open spec fn body_touches_enemy(self) -> bool {
        false
    }

    /// The player's hitbox collides with the enemy's: the head or the body touches it.
    pub open spec fn hitboxes_collide(self) -> bool {
        self.head_touches_enemy() || self.body_touches_enemy()
    }
}

proof fn lemma_square_bounds(d: int, bound: int)
    by (nonlinear_arith)
    requires
        -bound <= d <= bound,
    ensures
        0 <= d * d <= bound * bound,
{
}

/// Whether the circle of the player's head overlaps the enemy's circle.
fn head_collides(overworld: &OverworldState) -> (collides: bool)
    ensures
        collides == overworld.head_touches_enemy(),
{
    let head_radius: i64 = overworld.player_head_radius as i64;
    let enemy_radius: i64 = overworld.enemy_radius as i64;
    let reach: i64 = head_radius + enemy_radius;
    if reach < 0 {
        return false;
    }
    let dx: i64 = (overworld.player_x as i64 + head_radius) - (overworld.enemy_x as i64
        + enemy_radius);
    let dy: i64 = (overworld.player_y as i64 + head_radius) - (overworld.enemy_y as i64
        + enemy_radius);
    proof {
        lemma_square_bounds(dx as int, 0x2_0000_0000);
        lemma_square_bounds(dy as int, 0x2_0000_0000);
        lemma_square_bounds(reach as int, 0x1_0000_0000);
    }
    let distance_squared: i128 = (dx as i128) * (dx as i128) + (dy as i128) * (dy as i128);
    distance_squared <= (reach as i128) * (reach as i128)
}

/// Whether the player's hitbox collides with the enemy's.
///
/// Only the player's head is tested. The player's body never collides.
pub fn has_hitbox_collision(game_state: &GameState) -> (collides: bool)
    ensures
        collides == game_state.overworld.hitboxes_collide(),
        collides == game_state.overworld.head_touches_enemy(),
{
    // check if the player's head collides with the enemy
    if head_collides(&game_state.overworld) {
        return true;
    }
    // the player's body has no hitbox yet

    false
}

/// Two circles with the same centre and positive radii collide.
pub proof fn lemma_shared_center_collides(overworld: OverworldState)
    requires
        overworld.head_center_x() == overworld.enemy_center_x(),
        overworld.head_center_y() == overworld.enemy_center_y(),
        overworld.player_head_radius > 0,
        overworld.enemy_radius > 0,
    ensures
        overworld.hitboxes_collide(),
{
    lemma_square_bounds(overworld.reach(), overworld.reach());
}

/// The boundary is inclusive: two circles whose centres are exactly the sum of their
/// radii apart collide.
pub proof fn lemma_tangent_circles_collide(overworld: OverworldState)
    requires
        overworld.reach() >= 0,
        overworld.center_distance_squared() == overworld.reach() * overworld.reach(),
    ensures
        overworld.hitboxes_collide(),
{
}

/// Circles whose centres are further apart along one axis than the sum of their radii
/// do not collide.
pub proof fn lemma_far_apart_do_not_collide(overworld: OverworldState)
    requires
        overworld.reach() >= 0,
        overworld.head_center_x() - overworld.enemy_center_x() > overworld.reach()
            || overworld.enemy_center_x() - overworld.head_center_x() > overworld.reach()
            || overworld.head_center_y() - overworld.enemy_center_y() > overworld.reach()
            || overworld.enemy_center_y() - overworld.head_center_y() > overworld.reach(),
    ensures
        !overworld.hitboxes_collide(),
{
    let dx = overworld.head_center_x() - overworld.enemy_center_x();
    let dy = overworld.head_center_y() - overworld.enemy_center_y();
    let r = overworld.reach();
    assert(dx * dx + dy * dy > r * r) by (nonlinear_arith)
        requires
            r >= 0,
            dx > r || -dx > r || dy > r || -dy > r,
    ;
}

} // verus!
