//! The interaction phases of the game.

use vstd::prelude::*;

verus! {

/// The discrete mode of interaction that gates which update and render logic runs.
///
/// The enumeration is closed: a game is in exactly one of these phases at any time, and
/// both the update and the render dispatcher handle every one of them.
#[derive(Clone, Copy, Debug, PartialEq, Eq, Structural)]
pub enum UIPhase {
    /// Free movement on the overworld map.
    Overworld,
    /// The battle menu that offers Fight, Skills and Items.
    BattleActionSelect,
    /// Choice of the enemy to hit. There is a single enemy.
    BattleTargetSelect,
    /// The battle menu that offers Item A, Item B and Back.
    BattleItemSelect,
    /// Display of the damage that the player dealt.
    BattleDamageDisplay,
    /// The enemy strikes back.
    BattleEnemyTurn,
    /// Terminal display after the enemy is defeated.
    Victory,
}

impl UIPhase {
    /// Position of the phase in declaration order.
    pub open spec fn ordinal(self) -> nat {
        match self {
            UIPhase::Overworld => 0,
            UIPhase::BattleActionSelect => 1,
            UIPhase::BattleTargetSelect => 2,
            UIPhase::BattleItemSelect => 3,
            UIPhase::BattleDamageDisplay => 4,
            UIPhase::BattleEnemyTurn => 5,
            UIPhase::Victory => 6,
        }
    }

    /// Number of options in the menu that the phase shows, zero where it shows none.
    pub open spec fn item_count(self) -> nat {
        match self {
            UIPhase::BattleActionSelect => 3,
            UIPhase::BattleItemSelect => 3,
            UIPhase::BattleTargetSelect => 1,
            _ => 0,
        }
    }

    /// Whether the phase holds its exit back until the dwell duration has passed.
    pub open spec fn is_timed(self) -> bool {
        self == UIPhase::BattleDamageDisplay || self == UIPhase::BattleEnemyTurn
    }

    /// Number of options in the menu that the phase shows, zero where it shows none.
    pub fn menu_item_count(self) -> (count: u32)
        ensures
            count == self.item_count(),
    {
        match self {
            UIPhase::BattleActionSelect => 3,
            UIPhase::BattleItemSelect => 3,
            UIPhase::BattleTargetSelect => 1,
            _ => 0,
        }
    }
}

/// Every phase is exactly one of the seven variants: it has an ordinal below seven, and
/// two phases with the same ordinal are the same phase.
pub proof fn lemma_phase_is_exactly_one(p: UIPhase, q: UIPhase)
    ensures
        p.ordinal() < 7,
        p.ordinal() == q.ordinal() <==> p == q,
        (p == UIPhase::Overworld) || (p == UIPhase::BattleActionSelect) || (p
            == UIPhase::BattleTargetSelect) || (p == UIPhase::BattleItemSelect) || (p
            == UIPhase::BattleDamageDisplay) || (p == UIPhase::BattleEnemyTurn) || (p
            == UIPhase::Victory),
{
}

} // verus!
