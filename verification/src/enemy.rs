use vstd::prelude::*;

use crate::common::Hp;
use crate::items::abilities::{Ability, AbilityView, Damage};

verus! {

/// The enemy of one battle: its health and the blow it deals each turn.
#[derive(Debug)]
pub struct Enemy {
    pub hp: Hp,
    pub damage: Damage,
}

pub struct EnemyView {
    pub hp: Hp,
    pub damage: AbilityView,
}

impl View for Enemy {
    type V = EnemyView;

    open spec fn view(&self) -> EnemyView {
        EnemyView { hp: self.hp, damage: self.damage@ }
    }
}

impl EnemyView {
    /// What a blow of the enemy takes from a player with `sea_legs`: the
    /// enemy's damage less the sea legs, and never less than nothing.
    pub open spec fn blow(self, sea_legs: i32) -> i32 {
        let raw = self.damage.amount() - sea_legs;
        if raw < 0 {
            0
        } else if raw > i32::MAX {
            i32::MAX
        } else {
            raw as i32
        }
    }

    /// The enemy after it has been hurt by `amount`.
    pub open spec fn hurt(self, amount: i32) -> EnemyView {
        EnemyView { hp: self.hp.decreased(amount), damage: self.damage }
    }
}

impl Enemy {
    /// An enemy in full health.
    pub fn new(hp: i32, damage: i32) -> (enemy: Self)
        ensures
            enemy@ == (EnemyView {
                hp: Hp { max: hp, current: hp },
                damage: AbilityView { base: damage, modifier: Seq::empty() },
            }),
    {
        Enemy { hp: Hp::new(hp), damage: Damage::new(damage) }
    }

    /// What a blow of the enemy takes from a player with `sea_legs`.
    pub fn blow(&self, sea_legs: i32) -> (damage: i32)
        ensures
            damage == self@.blow(sea_legs),
            damage >= 0,
    {
        let raw: i64 = self.damage.amount() as i64 - sea_legs as i64;
        if raw < 0 {
            0
        } else if raw > i32::MAX as i64 {
            i32::MAX
        } else {
            raw as i32
        }
    }
}

} // verus!
