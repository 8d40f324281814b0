use vstd::prelude::*;

use crate::common::{add_clamped, clamp_i32, Hp};

verus! {

/// The health with which the player sets out.
pub const STARTING_PLAYER_HP: i32 = 10;

/// What the player has gained for the length of one battle.
#[derive(Clone, Copy, Debug, PartialEq, Eq, Structural)]
pub struct PlayerStats {
    /// Taken off every blow of the enemy.
    pub sea_legs: i32,
}

impl Default for PlayerStats {
    fn default() -> (stats: Self)
        ensures
            stats == (PlayerStats { sea_legs: 0 }),
    {
        PlayerStats { sea_legs: 0 }
    }
}

impl PlayerStats {
    /// The stats a turn later: sea legs wear off by one, down to none.
    pub open spec fn decayed(self) -> PlayerStats {
        PlayerStats {
            sea_legs: if self.sea_legs > 1 {
                (self.sea_legs - 1) as i32
            } else {
                0
            },
        }
    }

    /// The stats after an item has given `amount` of sea legs.
    pub open spec fn steadied(self, amount: i32) -> PlayerStats {
        PlayerStats { sea_legs: clamp_i32(self.sea_legs + amount) }
    }
}

/// The player: health that lasts from battle to battle, and stats that
/// last for one.
#[derive(Clone, Copy, Debug, PartialEq, Eq, Structural)]
pub struct Player {
    pub hp: Hp,
    pub stats: PlayerStats,
}

impl Default for Player {
    fn default() -> (player: Self)
        ensures
            player == (Player {
                hp: Hp { max: STARTING_PLAYER_HP, current: STARTING_PLAYER_HP },
                stats: PlayerStats { sea_legs: 0 },
            }),
    {
        Player { hp: Hp::new(STARTING_PLAYER_HP), stats: PlayerStats { sea_legs: 0 } }
    }
}

impl Player {
    /// Sets the stats back to none, as at either end of a battle.
    pub fn reset_stats(&mut self)
        ensures
            *final(self) == (Player { hp: old(self).hp, stats: PlayerStats { sea_legs: 0 } }),
    {
        self.stats = PlayerStats { sea_legs: 0 };
    }

    /// Lets the stats wear off, as at the start of each turn of the player.
    pub fn update_stats(&mut self)
        ensures
            *final(self) == (Player { hp: old(self).hp, stats: old(self).stats.decayed() }),
            final(self).stats.sea_legs >= 0,
    {
        if self.stats.sea_legs > 1 {
            self.stats.sea_legs = self.stats.sea_legs - 1;
        } else {
            self.stats.sea_legs = 0;
        }
    }

    /// Adds `amount` of sea legs; there is no cap.
    pub fn gain_sea_legs(&mut self, amount: i32)
        ensures
            *final(self) == (Player { hp: old(self).hp, stats: old(self).stats.steadied(amount) }),
    {
        self.stats.sea_legs = add_clamped(self.stats.sea_legs, amount);
    }
}

} // verus!
