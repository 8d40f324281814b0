use vstd::prelude::*;

use crate::items::abilities::{AbilityTarget, AbilityTargetView};

verus! {

/// The tag of blades.
pub const POINTY: &'static str = "Pointy";

/// The tag of guns.
pub const FLINTLOCK: &'static str = "Flintlock";

/// The tag of pellets, and the kind of ammunition that guns take.
pub const PELLETS: &'static str = "Pellets";

/// The tag of cannonballs. They go by the name of pellets: every gun takes
/// either.
pub const CANNONBALL: &'static str = "Pellets";

/// Whether `needle` stands somewhere in `haystack` as a run of consecutive
/// characters. The empty string stands in every string.
pub open spec fn is_substring(needle: Seq<char>, haystack: Seq<char>) -> bool {
    exists|start: int|
        0 <= start && start + needle.len() <= haystack.len() && #[trigger] haystack.subrange(
            start,
            start + needle.len(),
        ) == needle
}

/// `str::contains` of std, with a string slice as the pattern: whether
/// `needle` occurs in `haystack`. Both are valid UTF-8, so an occurrence
/// among the bytes is an occurrence among the characters.
#[verifier::external_body]
pub(crate) fn str_contains(haystack: &str, needle: &str) -> (found: bool)
    ensures
        found == is_substring(needle@, haystack@),
{
    haystack.contains(needle)
}

/// A tag on an item, by which area abilities choose their targets.
pub trait Attribute {
    spec fn spec_name(&self) -> Seq<char>;

    fn name(&self) -> (name: &'static str)
        ensures
            name@ == self.spec_name(),
    ;
}

#[derive(Clone, Copy, Debug, PartialEq, Eq, Structural)]
pub struct Pointy;

impl Attribute for Pointy {
    open spec fn spec_name(&self) -> Seq<char> {
        "Pointy"@
    }

    fn name(&self) -> (name: &'static str) {
        POINTY
    }
}

/// A gun: it holds up to `capacity` shots of one kind of ammunition, and
/// each shot fired leaves one less.
#[derive(Debug)]
pub struct Flintlock {
    ammo: String,
    capacity: usize,
    loaded: usize,
}

pub struct FlintlockView {
    pub ammo: Seq<char>,
    pub capacity: usize,
    pub loaded: usize,
}

impl FlintlockView {
    /// A gun never holds more than its capacity.
    pub open spec fn wf(self) -> bool {
        self.loaded <= self.capacity
    }

    /// Whether ammunition of the name `ammo` fits: the name holds the kind
    /// that the gun takes.
    pub open spec fn can_load(self, ammo: Seq<char>) -> bool {
        is_substring(self.ammo, ammo)
    }

    /// The gun after `amount` shots are put in: full at most.
    pub open spec fn loaded_with(self, amount: usize) -> FlintlockView {
        FlintlockView {
            ammo: self.ammo,
            capacity: self.capacity,
            loaded: if self.loaded + amount < self.capacity {
                (self.loaded + amount) as usize
            } else {
                self.capacity
            },
        }
    }

    /// The gun after the trigger is pulled: one shot less, unless it was
    /// empty.
    pub open spec fn fired(self) -> FlintlockView {
        FlintlockView {
            ammo: self.ammo,
            capacity: self.capacity,
            loaded: if self.loaded == 0 {
                0
            } else {
                (self.loaded - 1) as usize
            },
        }
    }
}

impl View for Flintlock {
    type V = FlintlockView;

    closed spec fn view(&self) -> FlintlockView {
        FlintlockView { ammo: self.ammo@, capacity: self.capacity, loaded: self.loaded }
    }
}

impl Clone for Flintlock {
    fn clone(&self) -> (copy: Self)
        ensures
            copy@ == self@,
    {
        Flintlock { ammo: self.ammo.clone(), capacity: self.capacity, loaded: self.loaded }
    }
}

impl Flintlock {
    pub fn empty(ammo: String, capacity: usize) -> (gun: Self)
        ensures
            gun@ == (FlintlockView { ammo: ammo@, capacity, loaded: 0 }),
            gun@.wf(),
    {
        Flintlock { ammo, capacity, loaded: 0 }
    }

    pub fn ammo(&self) -> (ammo: &String)
        ensures
            ammo@ == self@.ammo,
    {
        &self.ammo
    }

    pub fn capacity(&self) -> (capacity: usize)
        ensures
            capacity == self@.capacity,
    {
        self.capacity
    }

    pub fn loaded(&self) -> (loaded: usize)
        ensures
            loaded == self@.loaded,
    {
        self.loaded
    }

    pub fn can_load(&self, ammo: &String) -> (fits: bool)
        ensures
            fits == self@.can_load(ammo@),
    {
        str_contains(ammo.as_str(), self.ammo.as_str())
    }

    pub fn full(&self) -> (full: bool)
        ensures
            full == (self@.loaded >= self@.capacity),
    {
        self.loaded >= self.capacity
    }

    /// Puts `amount` shots in. What does not fit is lost.
    pub fn load(&mut self, amount: usize)
        ensures
            final(self)@ == old(self)@.loaded_with(amount),
            final(self)@.loaded <= final(self)@.capacity,
    {
        if self.loaded < self.capacity && amount < self.capacity - self.loaded {
            self.loaded = self.loaded + amount;
        } else {
            self.loaded = self.capacity;
        }
    }

    /// Pulls the trigger: `true` and one shot less, or `false` and nothing
    /// changed where the gun was empty.
    pub fn fire(&mut self) -> (fired: bool)
        ensures
            fired == (old(self)@.loaded > 0),
            final(self)@ == old(self)@.fired(),
            !fired ==> final(self)@ == old(self)@ && final(self)@.loaded == 0,
            old(self)@.wf() ==> final(self)@.wf(),
    {
        if self.loaded == 0 {
            return false;
        }
        self.loaded -= 1;
        true
    }
}

impl Attribute for Flintlock {
    open spec fn spec_name(&self) -> Seq<char> {
        "Flintlock"@
    }

    fn name(&self) -> (name: &'static str) {
        FLINTLOCK
    }
}

/// Ammunition that loads the guns it aims at.
pub struct AmmoView {
    pub load_amount: usize,
    pub target: AbilityTargetView,
}

#[derive(Debug)]
pub struct Pellets {
    pub load_amount: usize,
    pub target: AbilityTarget,
}

impl View for Pellets {
    type V = AmmoView;

    open spec fn view(&self) -> AmmoView {
        AmmoView { load_amount: self.load_amount, target: self.target@ }
    }
}

impl Attribute for Pellets {
    open spec fn spec_name(&self) -> Seq<char> {
        "Pellets"@
    }

    fn name(&self) -> (name: &'static str) {
        PELLETS
    }
}

#[derive(Debug)]
pub struct Cannonball {
    pub load_amount: usize,
    pub target: AbilityTarget,
}

impl View for Cannonball {
    type V = AmmoView;

    open spec fn view(&self) -> AmmoView {
        AmmoView { load_amount: self.load_amount, target: self.target@ }
    }
}

impl Attribute for Cannonball {
    open spec fn spec_name(&self) -> Seq<char> {
        "Pellets"@
    }

    fn name(&self) -> (name: &'static str) {
        CANNONBALL
    }
}

/// However much is put into a gun, and however often, it never holds more
/// than its capacity; and the trigger of an empty gun changes nothing.
pub proof fn lemma_gun_within_capacity(gun: FlintlockView, amount: usize)
    ensures
        gun.loaded_with(amount).loaded <= gun.capacity,
        gun.loaded_with(amount).capacity == gun.capacity,
        gun.wf() ==> gun.fired().wf(),
        gun.loaded == 0 ==> gun.fired() == gun,
{
}

} // verus!
