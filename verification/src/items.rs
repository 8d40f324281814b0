pub mod abilities;
pub mod attributes;

use vstd::prelude::*;
use vstd::string::StringExecFns;

use crate::common::Name;
use crate::rng::{random_below, Rng};
use crate::items::abilities::{
    AbilityTarget, AbilityTargetView, AbilityView, AreaAbilityView, Cursed, Damage, Hearties,
    Heave, Jolly, SeaLegs, Swashbuckle, TargetFilter, Vitality,
};
use crate::items::attributes::{
    is_substring, str_contains, AmmoView, Attribute, Cannonball, Flintlock, FlintlockView,
    Pellets, Pointy, CANNONBALL, FLINTLOCK, PELLETS, POINTY,
};

verus! {

/// How many uses an item has left. An item that reaches zero leaves the
/// scroll.
#[derive(Clone, Copy, Debug, PartialEq, Eq, Structural)]
pub struct Consumable(pub i32);

impl Consumable {
    /// The counter after one use: one less, and never below zero.
    pub open spec fn used(self) -> Consumable {
        Consumable(
            if self.0 > 1 {
                (self.0 - 1) as i32
            } else {
                0
            },
        )
    }

    /// Counts one use, and says whether that was the last.
    pub fn use_once(&mut self) -> (consumed: bool)
        ensures
            *final(self) == old(self).used(),
            consumed == (final(self).0 == 0),
            final(self).0 >= 0,
    {
        if self.0 > 1 {
            self.0 = self.0 - 1;
        } else {
            self.0 = 0;
        }
        self.0 == 0
    }
}

/// How rare a kind of item is among the rewards.
#[derive(Clone, Copy, Debug, PartialEq, Eq, Structural)]
pub enum Rarity {
    Mundane,
    Scarce,
    Precious,
    Mythic,
}

/// The kinds of item.
#[derive(Clone, Copy, Debug, PartialEq, Eq, Structural)]
pub enum ItemType {
    WoodenSword,
    IronSword,
    BlessedSword,
    CursedSword,
    IronCutlass,
    BlessedCutlass,
    CursedCutlass,
    Flag,
    Spyglass,
    Grog,
    JewelOfTheSea,
    JewelOfLife,
    JewelOfTheEarth,
    CursedJewel,
    Orange,
    BagOfBeans,
    MurkyBroth,
    Blunderbuss,
    BagOfPellets,
    Cannon,
    Cannonball,
    ChainShot,
    CursedVial,
    VialOfLife,
    VialOfTheSea,
    VialOfTheEarth,
}

fn list_has(list: &Vec<ItemType>, kind: ItemType) -> (found: bool)
    ensures
        found == list@.contains(kind),
{
    let mut i: usize = 0;
    while i < list.len()
        invariant
            i <= list.len(),
            forall|k: int| 0 <= k < i ==> list@[k] != kind,
        decreases list.len() - i,
    {
        if list[i] == kind {
            return true;
        }
        i += 1;
    }
    false
}

impl Rarity {
    /// The kinds of this rarity, in the order in which a roll counts them.
    pub open spec fn spec_items(self) -> Seq<ItemType> {
        match self {
            Rarity::Mundane => seq![
                ItemType::BagOfPellets,
                ItemType::Orange,
                ItemType::Grog,
                ItemType::WoodenSword,
            ],
            Rarity::Scarce => seq![
                ItemType::IronSword,
                ItemType::IronCutlass,
                ItemType::Flag,
                ItemType::Spyglass,
                ItemType::Blunderbuss,
            ],
            Rarity::Precious => seq![
                ItemType::BlessedSword,
                ItemType::BlessedCutlass,
                ItemType::CursedSword,
                ItemType::CursedCutlass,
            ],
            Rarity::Mythic => seq![
                ItemType::JewelOfTheSea,
                ItemType::JewelOfTheEarth,
                ItemType::JewelOfLife,
                ItemType::CursedJewel,
            ],
        }
    }

    pub open spec fn spec_name(self) -> Seq<char> {
        match self {
            Rarity::Mundane => "Mundane"@,
            Rarity::Scarce => "Scarce"@,
            Rarity::Precious => "Precious"@,
            Rarity::Mythic => "Mythic"@,
        }
    }

    pub fn items(&self) -> (items: Vec<ItemType>)
        ensures
            items@ == self.spec_items(),
            items@.len() > 0,
    {
        let items = match self {
            Rarity::Mundane => vec![
                ItemType::BagOfPellets,
                ItemType::Orange,
                ItemType::Grog,
                ItemType::WoodenSword,
            ],
            Rarity::Scarce => vec![
                ItemType::IronSword,
                ItemType::IronCutlass,
                ItemType::Flag,
                ItemType::Spyglass,
                ItemType::Blunderbuss,
            ],
            Rarity::Precious => vec![
                ItemType::BlessedSword,
                ItemType::BlessedCutlass,
                ItemType::CursedSword,
                ItemType::CursedCutlass,
            ],
            Rarity::Mythic => vec![
                ItemType::JewelOfTheSea,
                ItemType::JewelOfTheEarth,
                ItemType::JewelOfLife,
                ItemType::CursedJewel,
            ],
        };
        assert(items@ =~= self.spec_items());
        items
    }

    /// The kind that a roll of `roll` picks, where the roll is in range.
    pub fn item_at(&self, roll: usize) -> (kind: Option<ItemType>)
        ensures
            kind == if roll < self.spec_items().len() {
                Some(self.spec_items()[roll as int])
            } else {
                None
            },
    {
        let items = self.items();
        if roll < items.len() {
            Some(items[roll])
        } else {
            None
        }
    }

    /// Draws a kind of this rarity, each as likely as any other.
    pub fn rand_item(&self, rng: &mut Rng) -> (kind: ItemType)
        ensures
            self.spec_items().contains(kind),
    {
        let items = self.items();
        let roll = random_below(&mut rng.0, items.len());
        items[roll]
    }

    pub fn name(&self) -> (name: String)
        ensures
            name@ == self.spec_name(),
    {
        match self {
            Rarity::Mundane => String::from_str("Mundane"),
            Rarity::Scarce => String::from_str("Scarce"),
            Rarity::Precious => String::from_str("Precious"),
            Rarity::Mythic => String::from_str("Mythic"),
        }
    }
}

/// One slot of a scroll: an item with whatever abilities and tags it
/// carries, each at most once.
#[derive(Debug)]
pub struct Item {
    pub id: u64,
    pub name: Name,
    pub rarity: Rarity,
    pub damage: Option<Damage>,
    pub hearties: Option<Hearties>,
    pub cursed: Option<Cursed>,
    pub heave: Option<Heave>,
    pub sea_legs: Option<SeaLegs>,
    pub swashbuckle: Option<Swashbuckle>,
    pub jolly: Option<Jolly>,
    pub vitality: Option<Vitality>,
    pub pointy: Option<Pointy>,
    pub flintlock: Option<Flintlock>,
    pub pellets: Option<Pellets>,
    pub cannonball: Option<Cannonball>,
    pub consumable: Option<Consumable>,
}

pub struct ItemView {
    pub id: u64,
    pub name: Seq<char>,
    pub rarity: Rarity,
    pub damage: Option<AbilityView>,
    pub hearties: Option<AbilityView>,
    pub cursed: Option<AbilityView>,
    pub heave: Option<AreaAbilityView>,
    pub sea_legs: Option<AbilityView>,
    pub swashbuckle: Option<AreaAbilityView>,
    pub jolly: Option<AreaAbilityView>,
    pub vitality: Option<AbilityView>,
    pub pointy: bool,
    pub flintlock: Option<FlintlockView>,
    pub pellets: Option<AmmoView>,
    pub cannonball: Option<AmmoView>,
    pub consumable: Option<Consumable>,
}

/// The view of a part that an item may or may not carry.
pub open spec fn view_of<T: View>(part: Option<T>) -> Option<T::V> {
    match part {
        Some(p) => Some(p@),
        None => None,
    }
}

/// The ability without its bonuses, where there is one.
pub open spec fn cleared(ability: Option<AbilityView>) -> Option<AbilityView> {
    match ability {
        Some(a) => Some(a.cleared()),
        None => None,
    }
}

/// The area ability without its bonuses, where there is one.
pub open spec fn area_cleared(ability: Option<AreaAbilityView>) -> Option<AreaAbilityView> {
    match ability {
        Some(a) => Some(a.cleared()),
        None => None,
    }
}

impl View for Item {
    type V = ItemView;

    open spec fn view(&self) -> ItemView {
        ItemView {
            id: self.id,
            name: self.name@,
            rarity: self.rarity,
            damage: view_of(self.damage),
            hearties: view_of(self.hearties),
            cursed: view_of(self.cursed),
            heave: view_of(self.heave),
            sea_legs: view_of(self.sea_legs),
            swashbuckle: view_of(self.swashbuckle),
            jolly: view_of(self.jolly),
            vitality: view_of(self.vitality),
            pointy: self.pointy is Some,
            flintlock: view_of(self.flintlock),
            pellets: view_of(self.pellets),
            cannonball: view_of(self.cannonball),
            consumable: self.consumable,
        }
    }
}

impl ItemView {
    /// An item that carries nothing yet.
    pub open spec fn bare(id: u64, name: Seq<char>, rarity: Rarity) -> ItemView {
        ItemView {
            id,
            name,
            rarity,
            damage: None,
            hearties: None,
            cursed: None,
            heave: None,
            sea_legs: None,
            swashbuckle: None,
            jolly: None,
            vitality: None,
            pointy: false,
            flintlock: None,
            pellets: None,
            cannonball: None,
            consumable: None,
        }
    }

    /// A gun on the item never holds more than its capacity.
    pub open spec fn wf(self) -> bool {
        self.flintlock matches Some(gun) ==> gun.wf()
    }

    /// Whether the item carries any tag at all.
    pub open spec fn tagged(self) -> bool {
        self.pointy || self.flintlock is Some || self.pellets is Some || self.cannonball is Some
    }

    /// Whether the item answers to `tag`: one of its tags holds `tag`, or it
    /// has no tags and none is asked for.
    pub open spec fn carries(self, tag: Seq<char>) -> bool {
        if self.tagged() {
            ||| self.pointy && is_substring(tag, "Pointy"@)
            ||| self.flintlock is Some && is_substring(tag, "Flintlock"@)
            ||| self.pellets is Some && is_substring(tag, "Pellets"@)
            ||| self.cannonball is Some && is_substring(tag, "Pellets"@)
        } else {
            tag.len() == 0
        }
    }

    /// The item after `source` heaves at it: a bonus of `amount` on its
    /// damage, where it deals damage and answers to `tag`.
    pub open spec fn heaved(self, source: u64, amount: i32, tag: Seq<char>) -> ItemView {
        match self.damage {
            Some(damage) if self.carries(tag) => ItemView {
                damage: Some(damage.modified(source, amount)),
                ..self
            },
            _ => self,
        }
    }

    /// The item after `source` swashbuckles at it: a bonus of `amount` on
    /// its sea legs, where it has them and answers to `tag`.
    pub open spec fn swashbuckled(self, source: u64, amount: i32, tag: Seq<char>) -> ItemView {
        match self.sea_legs {
            Some(sea_legs) if self.carries(tag) => ItemView {
                sea_legs: Some(sea_legs.modified(source, amount)),
                ..self
            },
            _ => self,
        }
    }

    /// The item after `source` is jolly at it: a bonus of `amount` on its
    /// healing, where it heals and answers to `tag`.
    pub open spec fn jollied(self, source: u64, amount: i32, tag: Seq<char>) -> ItemView {
        match self.hearties {
            Some(hearties) if self.carries(tag) => ItemView {
                hearties: Some(hearties.modified(source, amount)),
                ..self
            },
            _ => self,
        }
    }

    /// The item after `amount` shots of the ammunition named `ammo` are
    /// offered to it: loaded, where it is a gun that takes them and answers
    /// to `tag`.
    pub open spec fn supplied(self, ammo: Seq<char>, amount: usize, tag: Seq<char>) -> ItemView {
        match self.flintlock {
            Some(gun) if self.carries(tag) && gun.can_load(ammo) => ItemView {
                flintlock: Some(gun.loaded_with(amount)),
                ..self
            },
            _ => self,
        }
    }

    /// The item with every bonus taken off its abilities.
    pub open spec fn cleared(self) -> ItemView {
        ItemView {
            damage: cleared(self.damage),
            hearties: cleared(self.hearties),
            cursed: cleared(self.cursed),
            heave: area_cleared(self.heave),
            sea_legs: cleared(self.sea_legs),
            swashbuckle: area_cleared(self.swashbuckle),
            jolly: area_cleared(self.jolly),
            vitality: cleared(self.vitality),
            ..self
        }
    }
}

/// What an area ability does to one slot that it aims at.
#[derive(Debug)]
pub enum Effect {
    /// A bonus on the slot's damage.
    Heave { source: u64, amount: i32, tag: String },
    /// A bonus on the slot's sea legs.
    Swashbuckle { source: u64, amount: i32, tag: String },
    /// A bonus on the slot's healing.
    Jolly { source: u64, amount: i32, tag: String },
    /// Shots for the slot's gun.
    Supply { ammo: String, shots: usize, tag: String },
}

pub enum EffectView {
    Heave { source: u64, amount: i32, tag: Seq<char> },
    Swashbuckle { source: u64, amount: i32, tag: Seq<char> },
    Jolly { source: u64, amount: i32, tag: Seq<char> },
    Supply { ammo: Seq<char>, shots: usize, tag: Seq<char> },
}

impl View for Effect {
    type V = EffectView;

    open spec fn view(&self) -> EffectView {
        match *self {
            Effect::Heave { source, amount, tag } => EffectView::Heave { source, amount, tag: tag@ },
            Effect::Swashbuckle { source, amount, tag } => EffectView::Swashbuckle {
                source,
                amount,
                tag: tag@,
            },
            Effect::Jolly { source, amount, tag } => EffectView::Jolly { source, amount, tag: tag@ },
            Effect::Supply { ammo, shots, tag } => EffectView::Supply {
                ammo: ammo@,
                shots,
                tag: tag@,
            },
        }
    }
}

impl ItemView {
    /// The item after an area ability has reached it.
    pub open spec fn affected(self, effect: EffectView) -> ItemView {
        match effect {
            EffectView::Heave { source, amount, tag } => self.heaved(source, amount, tag),
            EffectView::Swashbuckle { source, amount, tag } => self.swashbuckled(
                source,
                amount,
                tag,
            ),
            EffectView::Jolly { source, amount, tag } => self.jollied(source, amount, tag),
            EffectView::Supply { ammo, shots, tag } => self.supplied(ammo, shots, tag),
        }
    }
}

impl Item {
    /// Takes what an area ability does to a slot it aims at.
    pub fn receive(&mut self, effect: &Effect)
        ensures
            final(self)@ == old(self)@.affected(effect@),
            final(self)@.id == old(self)@.id,
            old(self)@.wf() ==> final(self)@.wf(),
    {
        match effect {
            Effect::Heave { source, amount, tag } => self.receive_heave(*source, *amount, tag),
            Effect::Swashbuckle { source, amount, tag } => self.receive_swashbuckle(
                *source,
                *amount,
                tag,
            ),
            Effect::Jolly { source, amount, tag } => self.receive_jolly(*source, *amount, tag),
            Effect::Supply { ammo, shots, tag } => self.receive_ammo(ammo, *shots, tag),
        }
    }

    /// An item that carries nothing yet.
    pub fn new(id: u64, name: Name, rarity: Rarity) -> (item: Self)
        ensures
            item@ == ItemView::bare(id, name@, rarity),
    {
        Item {
            id,
            name,
            rarity,
            damage: None,
            hearties: None,
            cursed: None,
            heave: None,
            sea_legs: None,
            swashbuckle: None,
            jolly: None,
            vitality: None,
            pointy: None,
            flintlock: None,
            pellets: None,
            cannonball: None,
            consumable: None,
        }
    }

    /// Whether the item is in order.
    pub fn in_order(&self) -> (ok: bool)
        ensures
            ok == self@.wf(),
    {
        match &self.flintlock {
            Some(gun) => gun.loaded() <= gun.capacity(),
            None => true,
        }
    }

    /// Whether the item answers to `tag`.
    pub fn carries(&self, tag: &String) -> (found: bool)
        ensures
            found == self@.carries(tag@),
    {
        let tag = tag.as_str();
        if self.pointy.is_some() || self.flintlock.is_some() || self.pellets.is_some()
            || self.cannonball.is_some() {
            let pointy = match &self.pointy {
                Some(p) => str_contains(p.name(), tag),
                None => false,
            };
            let flintlock = match &self.flintlock {
                Some(f) => str_contains(f.name(), tag),
                None => false,
            };
            let pellets = match &self.pellets {
                Some(p) => str_contains(p.name(), tag),
                None => false,
            };
            let cannonball = match &self.cannonball {
                Some(c) => str_contains(c.name(), tag),
                None => false,
            };
            pointy || flintlock || pellets || cannonball
        } else {
            tag.is_empty()
        }
    }

    /// Takes a heave from `source`.
    pub fn receive_heave(&mut self, source: u64, amount: i32, tag: &String)
        ensures
            final(self)@ == old(self)@.heaved(source, amount, tag@),
    {
        if self.carries(tag) {
            match &mut self.damage {
                Some(damage) => {
                    damage.modifier.set(source, amount);
                },
                None => {},
            }
        }
    }

    /// Takes a swashbuckle from `source`.
    pub fn receive_swashbuckle(&mut self, source: u64, amount: i32, tag: &String)
        ensures
            final(self)@ == old(self)@.swashbuckled(source, amount, tag@),
    {
        if self.carries(tag) {
            match &mut self.sea_legs {
                Some(sea_legs) => {
                    sea_legs.modifier.set(source, amount);
                },
                None => {},
            }
        }
    }

    /// Takes a jolly from `source`.
    pub fn receive_jolly(&mut self, source: u64, amount: i32, tag: &String)
        ensures
            final(self)@ == old(self)@.jollied(source, amount, tag@),
    {
        if self.carries(tag) {
            match &mut self.hearties {
                Some(hearties) => {
                    hearties.modifier.set(source, amount);
                },
                None => {},
            }
        }
    }

    /// Takes `amount` shots of the ammunition named `ammo`, where the item
    /// is a gun for them and answers to `tag`.
    pub fn receive_ammo(&mut self, ammo: &String, amount: usize, tag: &String)
        ensures
            final(self)@ == old(self)@.supplied(ammo@, amount, tag@),
            old(self)@.wf() ==> final(self)@.wf(),
    {
        if self.carries(tag) {
            match &mut self.flintlock {
                Some(gun) => {
                    if gun.can_load(ammo) {
                        gun.load(amount);
                    }
                },
                None => {},
            }
        }
    }

    /// Takes every bonus off the item's abilities.
    pub fn clear_modifiers(&mut self)
        ensures
            final(self)@ == old(self)@.cleared(),
    {
        match &mut self.damage {
            Some(a) => {
                a.modifier.clear();
            },
            None => {},
        }
        match &mut self.hearties {
            Some(a) => {
                a.modifier.clear();
            },
            None => {},
        }
        match &mut self.cursed {
            Some(a) => {
                a.modifier.clear();
            },
            None => {},
        }
        match &mut self.heave {
            Some(a) => {
                a.modifier.clear();
            },
            None => {},
        }
        match &mut self.sea_legs {
            Some(a) => {
                a.modifier.clear();
            },
            None => {},
        }
        match &mut self.swashbuckle {
            Some(a) => {
                a.modifier.clear();
            },
            None => {},
        }
        match &mut self.jolly {
            Some(a) => {
                a.modifier.clear();
            },
            None => {},
        }
        match &mut self.vitality {
            Some(a) => {
                a.modifier.clear();
            },
            None => {},
        }
    }
}

/// A plain ability without bonuses.
pub open spec fn plain(base: i32) -> AbilityView {
    AbilityView { base, modifier: Seq::empty() }
}

/// An area ability without bonuses.
pub open spec fn area(base: i32, filter: TargetFilter, attribute: Seq<char>) -> AreaAbilityView {
    AreaAbilityView {
        base,
        modifier: Seq::empty(),
        target: AbilityTargetView { filter, attribute },
    }
}

/// An empty gun.
pub open spec fn gun(ammo: Seq<char>, capacity: usize) -> FlintlockView {
    FlintlockView { ammo, capacity, loaded: 0 }
}

/// Ammunition for the guns that a rule picks.
pub open spec fn shot(load_amount: usize, filter: TargetFilter, attribute: Seq<char>) -> AmmoView {
    AmmoView { load_amount, target: AbilityTargetView { filter, attribute } }
}

fn target_of(filter: TargetFilter, attribute: &str) -> (target: AbilityTarget)
    ensures
        target@ == (AbilityTargetView { filter, attribute: attribute@ }),
{
    AbilityTarget { filter, attribute: String::from_str(attribute) }
}

impl ItemType {
    /// The tile of the kind's picture on the sheet of items.
    pub open spec fn spec_image_index(self) -> usize {
        match self {
            ItemType::WoodenSword => 0,
            ItemType::IronSword => 1,
            ItemType::BlessedSword => 2,
            ItemType::CursedSword => 3,
            ItemType::IronCutlass => 4,
            ItemType::BlessedCutlass => 5,
            ItemType::CursedCutlass => 6,
            ItemType::Flag => 31,
            ItemType::Spyglass => 23,
            ItemType::Grog => 33,
            ItemType::JewelOfTheSea => 36,
            ItemType::JewelOfLife => 35,
            ItemType::JewelOfTheEarth => 37,
            ItemType::CursedJewel => 34,
            ItemType::Orange => 16,
            ItemType::BagOfBeans => 17,
            ItemType::MurkyBroth => 18,
            ItemType::Blunderbuss => 8,
            ItemType::BagOfPellets => 9,
            ItemType::Cannon => 13,
            ItemType::Cannonball => 14,
            ItemType::ChainShot => 15,
            ItemType::CursedVial => 26,
            ItemType::VialOfLife => 27,
            ItemType::VialOfTheSea => 28,
            ItemType::VialOfTheEarth => 29,
        }
    }

    pub open spec fn spec_name(self) -> Seq<char> {
        match self {
            ItemType::WoodenSword => "Wooden Sword"@,
            ItemType::IronSword => "Iron Sword"@,
            ItemType::BlessedSword => "Blessed Sword"@,
            ItemType::CursedSword => "Cursed Sword"@,
            ItemType::IronCutlass => "Iron Cutlass"@,
            ItemType::BlessedCutlass => "Blessed Cutlass"@,
            ItemType::CursedCutlass => "Cursed Cutlass"@,
            ItemType::Flag => "Flag"@,
            ItemType::Spyglass => "Spyglass"@,
            ItemType::Grog => "Grog"@,
            ItemType::JewelOfTheSea => "Jewel of the Sea"@,
            ItemType::JewelOfLife => "Jewel of Life"@,
            ItemType::JewelOfTheEarth => "Jewel of the Earth"@,
            ItemType::CursedJewel => "Cursed Jewel"@,
            ItemType::Orange => "Orange"@,
            ItemType::BagOfBeans => "Bag Of Beans"@,
            ItemType::MurkyBroth => "Murky Broth"@,
            ItemType::Blunderbuss => "Blunderbuss"@,
            ItemType::BagOfPellets => "Bag Of Pellets"@,
            ItemType::Cannon => "Cannon"@,
            ItemType::Cannonball => "Cannonball"@,
            ItemType::ChainShot => "Chain Shot"@,
            ItemType::CursedVial => "Cursed Vial"@,
            ItemType::VialOfLife => "Vial Of Life"@,
            ItemType::VialOfTheSea => "Vial Of The Sea"@,
            ItemType::VialOfTheEarth => "Vial Of The Earth"@,
        }
    }

    /// The rarity under which the kind is listed, if it is listed at all.
    pub open spec fn spec_rarity(self) -> Option<Rarity> {
        if Rarity::Mundane.spec_items().contains(self) {
            Some(Rarity::Mundane)
        } else if Rarity::Scarce.spec_items().contains(self) {
            Some(Rarity::Scarce)
        } else if Rarity::Precious.spec_items().contains(self) {
            Some(Rarity::Precious)
        } else if Rarity::Mythic.spec_items().contains(self) {
            Some(Rarity::Mythic)
        } else {
            None
        }
    }

    /// What an item carries once it is made one of this kind: the kind's
    /// abilities and tags in place of any it had of the same sort. Nothing
    /// is laid down for the Jewel of the Earth.
    pub open spec fn inserted(self, item: ItemView) -> ItemView {
        match self {
            ItemType::WoodenSword => ItemView { damage: Some(plain(3)), pointy: true, ..item },
            ItemType::IronSword => ItemView { damage: Some(plain(5)), pointy: true, ..item },
            ItemType::BlessedSword => ItemView {
                damage: Some(plain(4)),
                hearties: Some(plain(2)),
                pointy: true,
                ..item
            },
            ItemType::CursedSword => ItemView {
                damage: Some(plain(8)),
                cursed: Some(plain(2)),
                pointy: true,
                ..item
            },
            ItemType::IronCutlass => ItemView {
                damage: Some(plain(3)),
                sea_legs: Some(plain(1)),
                pointy: true,
                ..item
            },
            ItemType::BlessedCutlass => ItemView {
                damage: Some(plain(2)),
                sea_legs: Some(plain(1)),
                hearties: Some(plain(1)),
                pointy: true,
                ..item
            },
            ItemType::CursedCutlass => ItemView {
                damage: Some(plain(5)),
                sea_legs: Some(plain(2)),
                cursed: Some(plain(2)),
                pointy: true,
                ..item
            },
            ItemType::Flag => ItemView {
                heave: Some(area(2, TargetFilter::Neighbours, "Pointy"@)),
                ..item
            },
            ItemType::Spyglass => ItemView {
                heave: Some(area(1, TargetFilter::Next(3), "Pointy"@)),
                ..item
            },
            ItemType::Grog => ItemView {
                sea_legs: Some(plain(3)),
                consumable: Some(Consumable(3)),
                ..item
            },
            ItemType::JewelOfTheSea => ItemView {
                swashbuckle: Some(area(1, TargetFilter::All, Seq::empty())),
                ..item
            },
            ItemType::JewelOfLife => ItemView {
                jolly: Some(area(1, TargetFilter::All, Seq::empty())),
                ..item
            },
            ItemType::JewelOfTheEarth => item,
            ItemType::CursedJewel => ItemView {
                cursed: Some(plain(2)),
                heave: Some(area(1, TargetFilter::All, Seq::empty())),
                ..item
            },
            ItemType::Orange => ItemView {
                hearties: Some(plain(7)),
                consumable: Some(Consumable(1)),
                ..item
            },
            ItemType::BagOfBeans => ItemView {
                hearties: Some(plain(4)),
                consumable: Some(Consumable(2)),
                ..item
            },
            ItemType::MurkyBroth => ItemView {
                hearties: Some(plain(3)),
                sea_legs: Some(plain(1)),
                consumable: Some(Consumable(2)),
                ..item
            },
            ItemType::Blunderbuss => ItemView {
                flintlock: Some(gun("Pellets"@, 8)),
                damage: Some(plain(15)),
                ..item
            },
            ItemType::BagOfPellets => ItemView {
                pellets: Some(shot(2, TargetFilter::AllNext, "Flintlock"@)),
                consumable: Some(Consumable(6)),
                ..item
            },
            ItemType::Cannon => ItemView {
                flintlock: Some(gun("Pellets"@, 27)),
                damage: Some(plain(5)),
                ..item
            },
            ItemType::Cannonball => ItemView {
                cannonball: Some(shot(1, TargetFilter::Next(1), "Flintlock"@)),
                consumable: Some(Consumable(1)),
                ..item
            },
            ItemType::ChainShot => ItemView {
                cannonball: Some(shot(1, TargetFilter::Prev(2), "Flintlock"@)),
                consumable: Some(Consumable(1)),
                ..item
            },
            ItemType::CursedVial => item,
            ItemType::VialOfLife => item,
            ItemType::VialOfTheSea => item,
            ItemType::VialOfTheEarth => item,
        }
    }

    /// The item of this kind under the id `id`: none for a kind that no
    /// rarity lists, and none for the Jewel of the Earth.
    pub open spec fn spawned(self, id: u64) -> Option<ItemView> {
        match self.spec_rarity() {
            Some(rarity) if self != ItemType::JewelOfTheEarth => Some(
                self.inserted(ItemView::bare(id, self.spec_name(), rarity)),
            ),
            _ => None,
        }
    }

    pub fn image_index(&self) -> (index: usize)
        ensures
            index == self.spec_image_index(),
    {
        match self {
            ItemType::WoodenSword => 0,
            ItemType::IronSword => 1,
            ItemType::BlessedSword => 2,
            ItemType::CursedSword => 3,
            ItemType::IronCutlass => 4,
            ItemType::BlessedCutlass => 5,
            ItemType::CursedCutlass => 6,
            ItemType::Flag => 31,
            ItemType::Spyglass => 23,
            ItemType::Grog => 33,
            ItemType::JewelOfTheSea => 36,
            ItemType::JewelOfLife => 35,
            ItemType::JewelOfTheEarth => 37,
            ItemType::CursedJewel => 34,
            ItemType::Orange => 16,
            ItemType::BagOfBeans => 17,
            ItemType::MurkyBroth => 18,
            ItemType::Blunderbuss => 8,
            ItemType::BagOfPellets => 9,
            ItemType::Cannon => 13,
            ItemType::Cannonball => 14,
            ItemType::ChainShot => 15,
            ItemType::CursedVial => 26,
            ItemType::VialOfLife => 27,
            ItemType::VialOfTheSea => 28,
            ItemType::VialOfTheEarth => 29,
        }
    }

    pub fn name(&self) -> (name: String)
        ensures
            name@ == self.spec_name(),
    {
        match self {
            ItemType::WoodenSword => String::from_str("Wooden Sword"),
            ItemType::IronSword => String::from_str("Iron Sword"),
            ItemType::BlessedSword => String::from_str("Blessed Sword"),
            ItemType::CursedSword => String::from_str("Cursed Sword"),
            ItemType::IronCutlass => String::from_str("Iron Cutlass"),
            ItemType::BlessedCutlass => String::from_str("Blessed Cutlass"),
            ItemType::CursedCutlass => String::from_str("Cursed Cutlass"),
            ItemType::Flag => String::from_str("Flag"),
            ItemType::Spyglass => String::from_str("Spyglass"),
            ItemType::Grog => String::from_str("Grog"),
            ItemType::JewelOfTheSea => String::from_str("Jewel of the Sea"),
            ItemType::JewelOfLife => String::from_str("Jewel of Life"),
            ItemType::JewelOfTheEarth => String::from_str("Jewel of the Earth"),
            ItemType::CursedJewel => String::from_str("Cursed Jewel"),
            ItemType::Orange => String::from_str("Orange"),
            ItemType::BagOfBeans => String::from_str("Bag Of Beans"),
            ItemType::MurkyBroth => String::from_str("Murky Broth"),
            ItemType::Blunderbuss => String::from_str("Blunderbuss"),
            ItemType::BagOfPellets => String::from_str("Bag Of Pellets"),
            ItemType::Cannon => String::from_str("Cannon"),
            ItemType::Cannonball => String::from_str("Cannonball"),
            ItemType::ChainShot => String::from_str("Chain Shot"),
            ItemType::CursedVial => String::from_str("Cursed Vial"),
            ItemType::VialOfLife => String::from_str("Vial Of Life"),
            ItemType::VialOfTheSea => String::from_str("Vial Of The Sea"),
            ItemType::VialOfTheEarth => String::from_str("Vial Of The Earth"),
        }
    }

    /// The rarity under which the kind is listed, if it is listed at all.
    pub fn rarity(&self) -> (rarity: Option<Rarity>)
        ensures
            rarity == self.spec_rarity(),
    {
        if list_has(&Rarity::Mundane.items(), *self) {
            Some(Rarity::Mundane)
        } else if list_has(&Rarity::Scarce.items(), *self) {
            Some(Rarity::Scarce)
        } else if list_has(&Rarity::Precious.items(), *self) {
            Some(Rarity::Precious)
        } else if list_has(&Rarity::Mythic.items(), *self) {
            Some(Rarity::Mythic)
        } else {
            None
        }
    }

    /// Gives `item` the abilities and tags of this kind. For the Jewel of
    /// the Earth none are laid down: the item stays as it is, and the
    /// answer is `false`.
    pub fn insert(&self, item: &mut Item) -> (done: bool)
        ensures
            done == (*self != ItemType::JewelOfTheEarth),
            final(item)@ == self.inserted(old(item)@),
            old(item)@.wf() ==> final(item)@.wf(),
    {
        match self {
            ItemType::WoodenSword => {
                item.damage = Some(Damage::new(3));
                item.pointy = Some(Pointy);
            },
            ItemType::IronSword => {
                item.damage = Some(Damage::new(5));
                item.pointy = Some(Pointy);
            },
            ItemType::BlessedSword => {
                item.damage = Some(Damage::new(4));
                item.hearties = Some(Hearties::new(2));
                item.pointy = Some(Pointy);
            },
            ItemType::CursedSword => {
                item.damage = Some(Damage::new(8));
                item.cursed = Some(Cursed::new(2));
                item.pointy = Some(Pointy);
            },
            ItemType::IronCutlass => {
                item.damage = Some(Damage::new(3));
                item.sea_legs = Some(SeaLegs::new(1));
                item.pointy = Some(Pointy);
            },
            ItemType::BlessedCutlass => {
                item.damage = Some(Damage::new(2));
                item.sea_legs = Some(SeaLegs::new(1));
                item.hearties = Some(Hearties::new(1));
                item.pointy = Some(Pointy);
            },
            ItemType::CursedCutlass => {
                item.damage = Some(Damage::new(5));
                item.sea_legs = Some(SeaLegs::new(2));
                item.cursed = Some(Cursed::new(2));
                item.pointy = Some(Pointy);
            },
            ItemType::Flag => {
                item.heave = Some(Heave::new(2, target_of(TargetFilter::Neighbours, POINTY)));
            },
            ItemType::Spyglass => {
                item.heave = Some(Heave::new(1, target_of(TargetFilter::Next(3), POINTY)));
            },
            ItemType::Grog => {
                item.sea_legs = Some(SeaLegs::new(3));
                item.consumable = Some(Consumable(3));
            },
            ItemType::JewelOfTheSea => {
                item.swashbuckle = Some(
                    Swashbuckle::new(1, AbilityTarget::with_all_attributes(TargetFilter::All)),
                );
            },
            ItemType::JewelOfLife => {
                item.jolly = Some(
                    Jolly::new(1, AbilityTarget::with_all_attributes(TargetFilter::All)),
                );
            },
            ItemType::JewelOfTheEarth => {
                return false;
            },
            ItemType::CursedJewel => {
                item.cursed = Some(Cursed::new(2));
                item.heave = Some(
                    Heave::new(1, AbilityTarget::with_all_attributes(TargetFilter::All)),
                );
            },
            ItemType::Orange => {
                item.hearties = Some(Hearties::new(7));
                item.consumable = Some(Consumable(1));
            },
            ItemType::BagOfBeans => {
                item.hearties = Some(Hearties::new(4));
                item.consumable = Some(Consumable(2));
            },
            ItemType::MurkyBroth => {
                item.hearties = Some(Hearties::new(3));
                item.sea_legs = Some(SeaLegs::new(1));
                item.consumable = Some(Consumable(2));
            },
            ItemType::Blunderbuss => {
                item.flintlock = Some(Flintlock::empty(String::from_str(PELLETS), 8));
                item.damage = Some(Damage::new(15));
            },
            ItemType::BagOfPellets => {
                item.pellets = Some(
                    Pellets { load_amount: 2, target: target_of(TargetFilter::AllNext, FLINTLOCK) },
                );
                item.consumable = Some(Consumable(6));
            },
            ItemType::Cannon => {
                item.flintlock = Some(Flintlock::empty(String::from_str(CANNONBALL), 27));
                item.damage = Some(Damage::new(5));
            },
            ItemType::Cannonball => {
                item.cannonball = Some(
                    Cannonball { load_amount: 1, target: target_of(TargetFilter::Next(1), FLINTLOCK) },
                );
                item.consumable = Some(Consumable(1));
            },
            ItemType::ChainShot => {
                item.cannonball = Some(
                    Cannonball { load_amount: 1, target: target_of(TargetFilter::Prev(2), FLINTLOCK) },
                );
                item.consumable = Some(Consumable(1));
            },
            ItemType::CursedVial => {},
            ItemType::VialOfLife => {},
            ItemType::VialOfTheSea => {},
            ItemType::VialOfTheEarth => {},
        }
        true
    }

    /// Makes the item of this kind under the id `id`, with the kind's name
    /// and rarity. There is none for a kind that no rarity lists, and none
    /// for the Jewel of the Earth.
    pub fn spawn(&self, id: u64) -> (item: Option<Item>)
        ensures
            view_of(item) == self.spawned(id),
            item matches Some(made) ==> made@.wf(),
    {
        match self.rarity() {
            Some(rarity) => {
                let mut item = Item::new(id, Name(self.name()), rarity);
                if self.insert(&mut item) {
                    Some(item)
                } else {
                    None
                }
            },
            None => None,
        }
    }
}

/// Once the bonuses are taken off an item, each of its abilities comes to
/// its base again.
pub proof fn lemma_cleared_amounts(item: ItemView)
    ensures
        item.cleared().damage matches Some(a) ==> a.amount() == a.base,
        item.cleared().hearties matches Some(a) ==> a.amount() == a.base,
        item.cleared().cursed matches Some(a) ==> a.amount() == a.base,
        item.cleared().heave matches Some(a) ==> a.amount() == a.base,
        item.cleared().sea_legs matches Some(a) ==> a.amount() == a.base,
        item.cleared().swashbuckle matches Some(a) ==> a.amount() == a.base,
        item.cleared().jolly matches Some(a) ==> a.amount() == a.base,
        item.cleared().vitality matches Some(a) ==> a.amount() == a.base,
{
    assert(crate::items::abilities::modifier_total(Seq::empty()) == 0);
}

} // verus!
