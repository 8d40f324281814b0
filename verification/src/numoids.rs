use vstd::prelude::*;
use vstd::string::StringExecFns;

use crate::battle::BattleEvent;
use crate::common::{clamp_i32, sub_clamped};
use crate::text::{append_decimal, append_signed, decimal, signed_decimal};

verus! {

/// The combatant over whose head a number floats.
#[derive(Clone, Copy, Debug, PartialEq, Eq, Structural)]
pub enum NumoidSide {
    Player,
    Enemy,
}

/// A number that floats up from a combatant: what it gained, or, below
/// zero, what it lost.
#[derive(Clone, Copy, Debug, PartialEq, Eq, Structural)]
pub struct Numoid {
    pub number: i32,
    pub side: NumoidSide,
}

/// The number that an event of the battle lets float, if any: a hurt as a
/// loss, a healing as a gain.
pub open spec fn numoid_of(event: BattleEvent) -> Option<Numoid> {
    match event {
        BattleEvent::PlayerHurt(amount) => Some(
            Numoid { number: clamp_i32(-amount), side: NumoidSide::Player },
        ),
        BattleEvent::EnemyHurt(amount) => Some(
            Numoid { number: clamp_i32(-amount), side: NumoidSide::Enemy },
        ),
        BattleEvent::PlayerHeal(amount) => Some(Numoid { number: amount, side: NumoidSide::Player }),
        BattleEvent::EnemyAttack => None,
    }
}

/// How a floating number is written: always with its sign, and nothing
/// counts as a loss.
pub open spec fn numoid_text(number: i32) -> Seq<char> {
    if number == 0 {
        "-0"@
    } else if number > 0 {
        "+"@ + decimal(number as nat)
    } else {
        signed_decimal(number as int)
    }
}

impl Numoid {
    /// The number that an event of the battle lets float, if any.
    pub fn for_event(event: &BattleEvent) -> (numoid: Option<Numoid>)
        ensures
            numoid == numoid_of(*event),
    {
        match event {
            BattleEvent::PlayerHurt(amount) => Some(
                Numoid { number: sub_clamped(0, *amount), side: NumoidSide::Player },
            ),
            BattleEvent::EnemyHurt(amount) => Some(
                Numoid { number: sub_clamped(0, *amount), side: NumoidSide::Enemy },
            ),
            BattleEvent::PlayerHeal(amount) => Some(
                Numoid { number: *amount, side: NumoidSide::Player },
            ),
            BattleEvent::EnemyAttack => None,
        }
    }

    /// Whether the number is shown as a gain.
    pub fn is_gain(&self) -> (gain: bool)
        ensures
            gain == (self.number > 0),
    {
        self.number > 0
    }

    /// The number as it is written.
    pub fn label(&self) -> (text: String)
        ensures
            text@ == numoid_text(self.number),
    {
        if self.number == 0 {
            String::from_str("-0")
        } else if self.number > 0 {
            let mut text = String::from_str("+");
            append_decimal(&mut text, self.number as u64);
            text
        } else {
            let mut text = String::new();
            append_signed(&mut text, self.number as i64);
            assert(text@ =~= signed_decimal(self.number as int));
            text
        }
    }
}

} // verus!
