use vstd::prelude::*;

verus! {

/// The integer `x` held to the range of `i32`: every quantity of the game is
/// an `i32`, and a sum that would leave that range stops at its nearest end.
pub open spec fn clamp_i32(x: int) -> i32 {
    if x < i32::MIN as int {
        i32::MIN
    } else if x > i32::MAX as int {
        i32::MAX
    } else {
        x as i32
    }
}

/// `a + b`, stopping at the ends of the `i32` range.
pub fn add_clamped(a: i32, b: i32) -> (r: i32)
    ensures
        r == clamp_i32(a + b),
{
    let wide: i64 = a as i64 + b as i64;
    if wide < i32::MIN as i64 {
        i32::MIN
    } else if wide > i32::MAX as i64 {
        i32::MAX
    } else {
        wide as i32
    }
}

/// `a - b`, stopping at the ends of the `i32` range.
pub fn sub_clamped(a: i32, b: i32) -> (r: i32)
    ensures
        r == clamp_i32(a - b),
{
    let wide: i64 = a as i64 - b as i64;
    if wide < i32::MIN as i64 {
        i32::MIN
    } else if wide > i32::MAX as i64 {
        i32::MAX
    } else {
        wide as i32
    }
}

/// The display name of an item.
#[derive(Debug)]
pub struct Name(pub String);

impl View for Name {
    type V = Seq<char>;

    open spec fn view(&self) -> Seq<char> {
        self.0@
    }
}

/// Hit points of a combatant. `current` may fall below zero; a combatant is
/// dead as soon as it is not positive.
#[derive(Clone, Copy, Debug, PartialEq, Eq, Structural)]
pub struct Hp {
    pub max: i32,
    pub current: i32,
}

impl Hp {
    /// A combatant is dead when its health is not positive.
    pub open spec fn dead(self) -> bool {
        self.current <= 0
    }

    /// What `increase` leaves: `amount` more, but no more than `max`.
    pub open spec fn increased(self, amount: i32) -> Hp {
        let raised = clamp_i32(self.current + amount);
        Hp { max: self.max, current: if raised < self.max { raised } else { self.max } }
    }

    /// What `decrease` leaves: `amount` less, with no floor at zero.
    pub open spec fn decreased(self, amount: i32) -> Hp {
        Hp { max: self.max, current: clamp_i32(self.current - amount) }
    }

    /// What `max_increase` leaves: the maximum moved by `amount`, and
    /// `current` held under the new maximum.
    pub open spec fn max_increased(self, amount: i32) -> Hp {
        let max = clamp_i32(self.max + amount);
        Hp { max, current: if self.current < max { self.current } else { max } }
    }

    pub fn new(max: i32) -> (hp: Hp)
        ensures
            hp == (Hp { max, current: max }),
    {
        Hp { max, current: max }
    }

    pub fn is_dead(&self) -> (dead: bool)
        ensures
            dead == self.dead(),
            dead == (self.current <= 0),
    {
        self.current <= 0
    }

    pub fn increase(&mut self, amount: i32)
        ensures
            *final(self) == old(self).increased(amount),
            final(self).current <= final(self).max,
    {
        let raised = add_clamped(self.current, amount);
        self.current = if raised < self.max { raised } else { self.max };
    }

    pub fn decrease(&mut self, amount: i32)
        ensures
            *final(self) == old(self).decreased(amount),
    {
        self.current = sub_clamped(self.current, amount);
    }

    pub fn max_increase(&mut self, amount: i32)
        ensures
            *final(self) == old(self).max_increased(amount),
            final(self).current <= final(self).max,
    {
        self.max = add_clamped(self.max, amount);
        if self.current > self.max {
            self.current = self.max;
        }
    }
}

/// A combatant that is hurt is dead exactly when the hurt is no less than
/// the health it had: that health is held to the range of `i32` changes
/// nothing in this.
pub proof fn lemma_hurt_to_death(hp: Hp, amount: i32)
    ensures
        hp.decreased(amount).dead() == (hp.current - amount <= 0),
{
}

/// Healing and a raised maximum never leave more health than the maximum.
pub proof fn lemma_health_within_max(hp: Hp, amount: i32)
    ensures
        hp.increased(amount).current <= hp.increased(amount).max,
        hp.max_increased(amount).current <= hp.max_increased(amount).max,
{
}

} // verus!
