use vstd::prelude::*;
use vstd::string::StringExecFns;

use crate::enemy::{Enemy, EnemyView};
use crate::inventory::{
    aimed, all_cleared, holds, position, scroll_ids, scroll_wf, Scroll,
};
use crate::items::abilities::Ability;
use crate::items::attributes::Attribute;
use crate::items::{Effect, EffectView, ItemView};
use crate::player::{Player, PlayerStats};
use crate::{AppState, BattleWins};

verus! {

broadcast use {vstd::seq_lib::group_seq_properties, vstd::seq::group_seq_axioms};

/// Whose move it is.
#[derive(Clone, Copy, Debug, PartialEq, Eq, Hash, Structural)]
pub enum BattleState {
    PlayerTurn,
    EnemyTurn,
    BattleEnd,
}

/// What a turn did to a combatant, for whoever shows it.
#[derive(Clone, Copy, Debug, PartialEq, Eq, Structural)]
pub enum BattleEvent {
    PlayerHurt(i32),
    PlayerHeal(i32),
    EnemyHurt(i32),
    EnemyAttack,
}

/// The player has used the item under the marker. `consumed` says that this
/// was the item's last use.
#[derive(Clone, Copy, Debug, PartialEq, Eq, Structural)]
pub struct UseItem {
    pub item: u64,
    pub consumed: bool,
}

/// One battle: the two combatants, the player's scroll, and the marker on
/// the item that is used next.
#[derive(Debug)]
pub struct Battle {
    pub state: BattleState,
    pub player: Player,
    pub enemy: Enemy,
    pub scroll: Scroll,
    pub marker: usize,
    pub wins: BattleWins,
}

pub struct BattleView {
    pub state: BattleState,
    pub player: Player,
    pub enemy: EnemyView,
    pub scroll: Seq<ItemView>,
    pub marker: usize,
    pub wins: usize,
}

impl View for Battle {
    type V = BattleView;

    open spec fn view(&self) -> BattleView {
        BattleView {
            state: self.state,
            player: self.player,
            enemy: self.enemy@,
            scroll: self.scroll@,
            marker: self.marker,
            wins: self.wins.0,
        }
    }
}

/// What the player's turn brought about.
#[derive(Debug)]
pub struct TurnReport {
    /// The use that was resolved, if an item stood under the marker.
    pub used: Option<UseItem>,
    /// What happened to the combatants, in order.
    pub events: Vec<BattleEvent>,
    /// Where the game goes if the battle is over.
    pub next: Option<AppState>,
}

/// The event of a handler that may have none, as a list.
pub open spec fn listed(event: Option<BattleEvent>) -> Seq<BattleEvent> {
    match event {
        Some(e) => seq![e],
        None => Seq::empty(),
    }
}

impl BattleView {
    /// The marker points at a slot of the scroll, or at nothing where the
    /// scroll is empty.
    pub open spec fn marker_valid(self) -> bool {
        if self.scroll.len() == 0 {
            self.marker == 0
        } else {
            self.marker < self.scroll.len()
        }
    }

    /// The battle is in order: the scroll is, and the marker is valid.
    pub open spec fn wf(self) -> bool {
        scroll_wf(self.scroll) && self.marker_valid()
    }

    /// The item under the marker.
    pub open spec fn marked(self) -> Option<ItemView> {
        if self.marker < self.scroll.len() {
            Some(self.scroll[self.marker as int])
        } else {
            None
        }
    }

    /// The item that an event speaks of, if the scroll still holds it.
    pub open spec fn user(self, event: UseItem) -> Option<ItemView> {
        match position(self.scroll, event.item) {
            Some(slot) => Some(self.scroll[slot]),
            None => None,
        }
    }

    /// The event that the player's input gives rise to: none outside the
    /// player's turn, none where no item stands under the marker.
    pub open spec fn use_event(self) -> Option<UseItem> {
        match self.marked() {
            Some(item) if self.state == BattleState::PlayerTurn => Some(
                UseItem {
                    item: item.id,
                    consumed: match item.consumable {
                        Some(uses) => uses.used().0 == 0,
                        None => false,
                    },
                },
            ),
            _ => None,
        }
    }

    /// The battle after the player's input: a use is counted on the item
    /// under the marker, and the turn passes to the enemy.
    pub open spec fn item_used(self) -> BattleView {
        if self.state != BattleState::PlayerTurn {
            self
        } else {
            match self.marked() {
                Some(item) => BattleView {
                    state: BattleState::EnemyTurn,
                    scroll: self.scroll.update(
                        self.marker as int,
                        ItemView {
                            consumable: match item.consumable {
                                Some(uses) => Some(uses.used()),
                                None => None,
                            },
                            ..item
                        },
                    ),
                    ..self
                },
                None => BattleView { state: BattleState::EnemyTurn, ..self },
            }
        }
    }

    /// Vitality raises the player's greatest health.
    pub open spec fn vitality_used(self, event: UseItem) -> BattleView {
        match self.user(event) {
            Some(ItemView { vitality: Some(vitality), .. }) => BattleView {
                player: Player {
                    hp: self.player.hp.max_increased(vitality.amount()),
                    stats: self.player.stats,
                },
                ..self
            },
            _ => self,
        }
    }

    /// Whether the used item deals its damage: it has damage to deal, and
    /// if it is a gun, a shot to fire.
    pub open spec fn strikes(self, event: UseItem) -> bool {
        match self.user(event) {
            Some(item) => item.damage is Some && (item.flintlock matches Some(gun) ==> gun.loaded
                > 0),
            None => false,
        }
    }

    /// Damage hurts the enemy; a gun spends a shot on it, and does nothing
    /// when it is empty.
    pub open spec fn damage_used(self, event: UseItem) -> BattleView {
        if self.strikes(event) {
            let slot = position(self.scroll, event.item)->0;
            let item = self.scroll[slot];
            BattleView {
                enemy: self.enemy.hurt(item.damage->0.amount()),
                scroll: match item.flintlock {
                    Some(gun) => self.scroll.update(
                        slot,
                        ItemView { flintlock: Some(gun.fired()), ..item },
                    ),
                    None => self.scroll,
                },
                ..self
            }
        } else {
            self
        }
    }

    pub open spec fn damage_event(self, event: UseItem) -> Option<BattleEvent> {
        if self.strikes(event) {
            Some(BattleEvent::EnemyHurt(self.user(event)->0.damage->0.amount()))
        } else {
            None
        }
    }

    /// Hearties heal the player, up to the greatest health.
    pub open spec fn hearties_used(self, event: UseItem) -> BattleView {
        match self.user(event) {
            Some(ItemView { hearties: Some(hearties), .. }) => BattleView {
                player: Player {
                    hp: self.player.hp.increased(hearties.amount()),
                    stats: self.player.stats,
                },
                ..self
            },
            _ => self,
        }
    }

    pub open spec fn hearties_event(self, event: UseItem) -> Option<BattleEvent> {
        match self.user(event) {
            Some(ItemView { hearties: Some(hearties), .. }) => Some(
                BattleEvent::PlayerHeal(hearties.amount()),
            ),
            _ => None,
        }
    }

    /// A curse hurts the player.
    pub open spec fn cursed_used(self, event: UseItem) -> BattleView {
        match self.user(event) {
            Some(ItemView { cursed: Some(cursed), .. }) => BattleView {
                player: Player {
                    hp: self.player.hp.decreased(cursed.amount()),
                    stats: self.player.stats,
                },
                ..self
            },
            _ => self,
        }
    }

    pub open spec fn cursed_event(self, event: UseItem) -> Option<BattleEvent> {
        match self.user(event) {
            Some(ItemView { cursed: Some(cursed), .. }) => Some(
                BattleEvent::PlayerHurt(cursed.amount()),
            ),
            _ => None,
        }
    }

    /// A heave lays a bonus on the damage of its targets.
    pub open spec fn heave_used(self, event: UseItem) -> BattleView {
        match position(self.scroll, event.item) {
            Some(slot) => match self.scroll[slot].heave {
                Some(heave) => BattleView {
                    scroll: aimed(
                        self.scroll,
                        heave.target.filter,
                        slot,
                        event.item,
                        EffectView::Heave {
                            source: event.item,
                            amount: heave.amount(),
                            tag: heave.target.attribute,
                        },
                    ),
                    ..self
                },
                None => self,
            },
            None => self,
        }
    }

    /// Sea legs steady the player for the rest of the battle.
    pub open spec fn sea_legs_used(self, event: UseItem) -> BattleView {
        match self.user(event) {
            Some(ItemView { sea_legs: Some(sea_legs), .. }) => BattleView {
                player: Player {
                    hp: self.player.hp,
                    stats: self.player.stats.steadied(sea_legs.amount()),
                },
                ..self
            },
            _ => self,
        }
    }

    /// A swashbuckle lays a bonus on the sea legs of its targets.
    pub open spec fn swashbuckle_used(self, event: UseItem) -> BattleView {
        match position(self.scroll, event.item) {
            Some(slot) => match self.scroll[slot].swashbuckle {
                Some(swashbuckle) => BattleView {
                    scroll: aimed(
                        self.scroll,
                        swashbuckle.target.filter,
                        slot,
                        event.item,
                        EffectView::Swashbuckle {
                            source: event.item,
                            amount: swashbuckle.amount(),
                            tag: swashbuckle.target.attribute,
                        },
                    ),
                    ..self
                },
                None => self,
            },
            None => self,
        }
    }

    /// A jolly lays a bonus on the healing of its targets.
    pub open spec fn jolly_used(self, event: UseItem) -> BattleView {
        match position(self.scroll, event.item) {
            Some(slot) => match self.scroll[slot].jolly {
                Some(jolly) => BattleView {
                    scroll: aimed(
                        self.scroll,
                        jolly.target.filter,
                        slot,
                        event.item,
                        EffectView::Jolly {
                            source: event.item,
                            amount: jolly.amount(),
                            tag: jolly.target.attribute,
                        },
                    ),
                    ..self
                },
                None => self,
            },
            None => self,
        }
    }

    /// Pellets load the guns among their targets that take them and answer
    /// to the tag they ask for.
    pub open spec fn pellets_used(self, event: UseItem) -> BattleView {
        match position(self.scroll, event.item) {
            Some(slot) => match self.scroll[slot].pellets {
                Some(pellets) => BattleView {
                    scroll: aimed(
                        self.scroll,
                        pellets.target.filter,
                        slot,
                        event.item,
                        EffectView::Supply {
                            ammo: "Pellets"@,
                            shots: pellets.load_amount,
                            tag: pellets.target.attribute,
                        },
                    ),
                    ..self
                },
                None => self,
            },
            None => self,
        }
    }

    /// Cannonballs load the guns among their targets that take them and
    /// answer to the tag they ask for.
    pub open spec fn cannonball_used(self, event: UseItem) -> BattleView {
        match position(self.scroll, event.item) {
            Some(slot) => match self.scroll[slot].cannonball {
                Some(cannonball) => BattleView {
                    scroll: aimed(
                        self.scroll,
                        cannonball.target.filter,
                        slot,
                        event.item,
                        EffectView::Supply {
                            ammo: "Pellets"@,
                            shots: cannonball.load_amount,
                            tag: cannonball.target.attribute,
                        },
                    ),
                    ..self
                },
                None => self,
            },
            None => self,
        }
    }

    /// Whether the item under the marker has no use left.
    pub open spec fn marked_exhausted(self) -> bool {
        self.marked() matches Some(item) && item.consumable matches Some(uses) && uses.0 <= 0
    }

    /// An item under the marker that has no use left leaves the scroll.
    pub open spec fn consumable_cleaned(self) -> BattleView {
        if self.marked_exhausted() {
            BattleView { scroll: self.scroll.remove(self.marker as int), ..self }
        } else {
            self
        }
    }

    /// The marker moves on to the next slot, around the end of the scroll.
    /// Where the used item has left the scroll, its follower has moved
    /// under the marker already, and the marker is only held within the
    /// scroll.
    pub open spec fn marker_moved(self, event: UseItem) -> BattleView {
        BattleView {
            marker: if self.scroll.len() == 0 {
                0
            } else if event.consumed {
                (self.marker as int % self.scroll.len() as int) as usize
            } else {
                ((self.marker + 1) % self.scroll.len() as int) as usize
            },
            ..self
        }
    }

    /// Where the game goes if the battle is over: nowhere while both
    /// combatants live. The player's death counts before the enemy's.
    pub open spec fn outcome(self) -> Option<AppState> {
        if self.state == BattleState::BattleEnd {
            None
        } else if self.player.hp.current <= 0 {
            Some(AppState::GameOver)
        } else if self.enemy.hp.current <= 0 {
            Some(AppState::OrganizeInventory)
        } else {
            None
        }
    }

    /// The battle after the check for its end: over if a combatant is dead,
    /// and one win more if it is the enemy alone.
    pub open spec fn checked(self) -> BattleView {
        match self.outcome() {
            Some(AppState::OrganizeInventory) => BattleView {
                state: BattleState::BattleEnd,
                wins: if self.wins < usize::MAX {
                    (self.wins + 1) as usize
                } else {
                    self.wins
                },
                ..self
            },
            Some(_) => BattleView { state: BattleState::BattleEnd, ..self },
            None => self,
        }
    }

    /// The battle after every ability of the used item has done its work,
    /// one after the other in their fixed order.
    #[verifier::opaque]
    pub open spec fn abilities_used(self, event: UseItem) -> BattleView {
        self.vitality_used(event).damage_used(event).hearties_used(event).cursed_used(
            event,
        ).heave_used(event).sea_legs_used(event).swashbuckle_used(event).jolly_used(
            event,
        ).pellets_used(event).cannonball_used(event)
    }

    /// What the abilities of the used item did to the combatants, in order.
    #[verifier::opaque]
    pub open spec fn ability_events(self, event: UseItem) -> Seq<BattleEvent> {
        let struck = self.vitality_used(event);
        let healed = struck.damage_used(event);
        let hurt = healed.hearties_used(event);
        listed(struck.damage_event(event)) + listed(healed.hearties_event(event)) + listed(
            hurt.cursed_event(event),
        )
    }

    /// The battle after a use has been resolved: the abilities, then the
    /// item's leave if it is used up, then the marker's move.
    pub open spec fn resolved(self, event: UseItem) -> BattleView {
        self.abilities_used(event).consumable_cleaned().marker_moved(event)
    }

    /// The battle after the player's turn.
    pub open spec fn player_turn_taken(self) -> BattleView {
        if self.state != BattleState::PlayerTurn {
            self
        } else {
            match self.use_event() {
                Some(event) => self.item_used().resolved(event).checked(),
                None => self.item_used().checked(),
            }
        }
    }

    /// Where the game goes after the player's turn, if the battle ends
    /// with it.
    pub open spec fn player_turn_outcome(self) -> Option<AppState> {
        if self.state != BattleState::PlayerTurn {
            None
        } else {
            match self.use_event() {
                Some(event) => self.item_used().resolved(event).outcome(),
                None => self.item_used().outcome(),
            }
        }
    }

    /// What the player's turn does to the combatants, in order.
    pub open spec fn player_turn_events(self) -> Seq<BattleEvent> {
        match self.use_event() {
            Some(event) => self.item_used().ability_events(event),
            None => Seq::empty(),
        }
    }

    /// Where the game goes after the enemy's turn, if the battle ends with
    /// it.
    pub open spec fn enemy_turn_outcome(self) -> Option<AppState> {
        if self.state != BattleState::EnemyTurn {
            None
        } else {
            self.struck().outcome()
        }
    }

    /// What the enemy's turn does to the combatants, in order.
    pub open spec fn enemy_turn_events(self) -> Seq<BattleEvent> {
        if self.state != BattleState::EnemyTurn {
            Seq::empty()
        } else {
            seq![
                BattleEvent::EnemyAttack,
                BattleEvent::PlayerHurt(self.enemy.blow(self.player.stats.sea_legs)),
            ]
        }
    }

    /// The battle after the enemy has struck, before anything follows from
    /// it.
    pub open spec fn struck(self) -> BattleView {
        BattleView {
            state: BattleState::PlayerTurn,
            player: Player {
                hp: self.player.hp.decreased(self.enemy.blow(self.player.stats.sea_legs)),
                stats: self.player.stats,
            },
            ..self
        }
    }

    /// The battle after the enemy's turn: the blow, the check for the end,
    /// and, if the battle goes on, the wear of the player's stats as the
    /// player's turn begins.
    pub open spec fn enemy_turn_taken(self) -> BattleView {
        if self.state != BattleState::EnemyTurn {
            self
        } else {
            let after = self.struck().checked();
            if after.state == BattleState::BattleEnd {
                after
            } else {
                BattleView {
                    player: Player { hp: after.player.hp, stats: after.player.stats.decayed() },
                    ..after
                }
            }
        }
    }
}

impl Battle {
    /// Opens a battle: the player's stats start from nothing, the marker
    /// stands on the first slot, and the player moves first.
    pub fn new(player: Player, scroll: Scroll, enemy: Enemy, wins: BattleWins) -> (battle: Self)
        ensures
            battle@ == (BattleView {
                state: BattleState::PlayerTurn,
                player: Player { hp: player.hp, stats: PlayerStats { sea_legs: 0 } },
                enemy: enemy@,
                scroll: scroll@,
                marker: 0,
                wins: wins.0,
            }),
            scroll_wf(scroll@) ==> battle@.wf(),
    {
        let mut player = player;
        player.reset_stats();
        Battle { state: BattleState::PlayerTurn, player, enemy, scroll, marker: 0, wins }
    }

    /// Whether the battle is in order.
    pub fn in_order(&self) -> (ok: bool)
        ensures
            ok == self@.wf(),
    {
        let marker_valid = if self.scroll.len() == 0 {
            self.marker == 0
        } else {
            self.marker < self.scroll.len()
        };
        marker_valid && self.scroll.in_order()
    }

    /// Takes the player's input. In the player's turn the item under the
    /// marker is used: one use is counted on it if its uses are counted,
    /// and the event of the use comes back. With or without an item the
    /// turn passes to the enemy. Outside the player's turn nothing happens.
    pub fn player_turn_use_item(&mut self) -> (event: Option<UseItem>)
        ensures
            event == old(self)@.use_event(),
            final(self)@ == old(self)@.item_used(),
            old(self)@.wf() ==> final(self)@.wf(),
    {
        if self.state != BattleState::PlayerTurn {
            return None;
        }
        self.state = BattleState::EnemyTurn;
        if self.marker >= self.scroll.items.len() {
            return None;
        }
        let ghost before = self.scroll@;
        let marker = self.marker;
        let consumed = match &mut self.scroll.items[marker].consumable {
            Some(uses) => uses.use_once(),
            None => false,
        };
        let item = self.scroll.items[marker].id;
        proof {
            let item_before = before[marker as int];
            let item_after = ItemView {
                consumable: match item_before.consumable {
                    Some(uses) => Some(uses.used()),
                    None => None,
                },
                ..item_before
            };
            assert(self.scroll@[marker as int] == item_after);
            assert(self.scroll@ =~= before.update(marker as int, item_after));
            if scroll_wf(before) {
                lemma_update_keeps_order(before, marker as int, item_after);
            }
        }
        Some(UseItem { item, consumed })
    }

    /// Lets the Vitality of the used item work.
    pub fn handle_vitality_use(&mut self, event: &UseItem)
        ensures
            final(self)@ == old(self)@.vitality_used(*event),
            old(self)@.user(*event) matches Some(item) && item.vitality is Some
                ==> final(self).player.hp.current <= final(self).player.hp.max,
    {
        let slot = match self.scroll.position(event.item) {
            Some(slot) => slot,
            None => {
                return ;
            },
        };
        match &self.scroll.items[slot].vitality {
            Some(vitality) => {
                let amount = vitality.amount();
                self.player.hp.max_increase(amount);
            },
            None => {},
        }
    }

    /// Lets the Damage of the used item work, and says what it did to the
    /// enemy.
    pub fn handle_damage_use(&mut self, event: &UseItem) -> (hurt: Option<BattleEvent>)
        ensures
            final(self)@ == old(self)@.damage_used(*event),
            hurt == old(self)@.damage_event(*event),
            old(self)@.wf() ==> final(self)@.wf(),
    {
        let slot = match self.scroll.position(event.item) {
            Some(slot) => slot,
            None => {
                return None;
            },
        };
        let ghost before = self.scroll@;
        let amount = match &self.scroll.items[slot].damage {
            Some(damage) => damage.amount(),
            None => {
                return None;
            },
        };
        let fired = match &mut self.scroll.items[slot].flintlock {
            Some(gun) => gun.fire(),
            None => true,
        };
        proof {
            let item = before[slot as int];
            match item.flintlock {
                Some(gun) => {
                    if gun.loaded > 0 {
                        let shot = ItemView { flintlock: Some(gun.fired()), ..item };
                        assert(self.scroll@[slot as int] == shot);
                        assert(self.scroll@ =~= before.update(slot as int, shot));
                        if scroll_wf(before) {
                            lemma_update_keeps_order(before, slot as int, shot);
                        }
                    } else {
                        assert(self.scroll@[slot as int] == item);
                        assert(self.scroll@ =~= before);
                    }
                },
                None => {
                    assert(self.scroll@[slot as int] == item);
                    assert(self.scroll@ =~= before);
                },
            }
        }
        if !fired {
            return None;
        }
        self.enemy.hp.decrease(amount);
        Some(BattleEvent::EnemyHurt(amount))
    }

    /// Lets the Hearties of the used item work, and says what they did to
    /// the player.
    pub fn handle_hearties_use(&mut self, event: &UseItem) -> (healed: Option<BattleEvent>)
        ensures
            final(self)@ == old(self)@.hearties_used(*event),
            healed == old(self)@.hearties_event(*event),
            healed is Some ==> final(self).player.hp.current <= final(self).player.hp.max,
    {
        let slot = match self.scroll.position(event.item) {
            Some(slot) => slot,
            None => {
                return None;
            },
        };
        match &self.scroll.items[slot].hearties {
            Some(hearties) => {
                let amount = hearties.amount();
                self.player.hp.increase(amount);
                Some(BattleEvent::PlayerHeal(amount))
            },
            None => None,
        }
    }

    /// Lets the curse of the used item work, and says what it did to the
    /// player.
    pub fn handle_cursed_use(&mut self, event: &UseItem) -> (hurt: Option<BattleEvent>)
        ensures
            final(self)@ == old(self)@.cursed_used(*event),
            hurt == old(self)@.cursed_event(*event),
    {
        let slot = match self.scroll.position(event.item) {
            Some(slot) => slot,
            None => {
                return None;
            },
        };
        match &self.scroll.items[slot].cursed {
            Some(cursed) => {
                let amount = cursed.amount();
                self.player.hp.decrease(amount);
                Some(BattleEvent::PlayerHurt(amount))
            },
            None => None,
        }
    }

    /// Lets the Heave of the used item work on its targets.
    pub fn handle_heave_use(&mut self, event: &UseItem)
        requires
            old(self)@.wf(),
        ensures
            final(self)@ == old(self)@.heave_used(*event),
            final(self)@.wf(),
    {
        let slot = match self.scroll.position(event.item) {
            Some(slot) => slot,
            None => {
                return ;
            },
        };
        let (filter, effect) = match &self.scroll.items[slot].heave {
            Some(heave) => (
                heave.target.filter,
                Effect::Heave {
                    source: event.item,
                    amount: heave.amount(),
                    tag: heave.target.attribute.clone(),
                },
            ),
            None => {
                return ;
            },
        };
        self.scroll.aim(filter, slot, event.item, &effect);
    }

    /// Lets the Sea legs of the used item work.
    pub fn handle_sea_legs_use(&mut self, event: &UseItem)
        ensures
            final(self)@ == old(self)@.sea_legs_used(*event),
    {
        let slot = match self.scroll.position(event.item) {
            Some(slot) => slot,
            None => {
                return ;
            },
        };
        match &self.scroll.items[slot].sea_legs {
            Some(sea_legs) => {
                let amount = sea_legs.amount();
                self.player.gain_sea_legs(amount);
            },
            None => {},
        }
    }

    /// Lets the Swashbuckle of the used item work on its targets.
    pub fn handle_swashbuckle_use(&mut self, event: &UseItem)
        requires
            old(self)@.wf(),
        ensures
            final(self)@ == old(self)@.swashbuckle_used(*event),
            final(self)@.wf(),
    {
        let slot = match self.scroll.position(event.item) {
            Some(slot) => slot,
            None => {
                return ;
            },
        };
        let (filter, effect) = match &self.scroll.items[slot].swashbuckle {
            Some(swashbuckle) => (
                swashbuckle.target.filter,
                Effect::Swashbuckle {
                    source: event.item,
                    amount: swashbuckle.amount(),
                    tag: swashbuckle.target.attribute.clone(),
                },
            ),
            None => {
                return ;
            },
        };
        self.scroll.aim(filter, slot, event.item, &effect);
    }

    /// Lets the Jolly of the used item work on its targets.
    pub fn handle_jolly_use(&mut self, event: &UseItem)
        requires
            old(self)@.wf(),
        ensures
            final(self)@ == old(self)@.jolly_used(*event),
            final(self)@.wf(),
    {
        let slot = match self.scroll.position(event.item) {
            Some(slot) => slot,
            None => {
                return ;
            },
        };
        let (filter, effect) = match &self.scroll.items[slot].jolly {
            Some(jolly) => (
                jolly.target.filter,
                Effect::Jolly {
                    source: event.item,
                    amount: jolly.amount(),
                    tag: jolly.target.attribute.clone(),
                },
            ),
            None => {
                return ;
            },
        };
        self.scroll.aim(filter, slot, event.item, &effect);
    }

    /// Lets the pellets of the used item load the guns they aim at.
    pub fn handle_pellets_use(&mut self, event: &UseItem)
        requires
            old(self)@.wf(),
        ensures
            final(self)@ == old(self)@.pellets_used(*event),
            final(self)@.wf(),
    {
        let slot = match self.scroll.position(event.item) {
            Some(slot) => slot,
            None => {
                return ;
            },
        };
        let (filter, effect) = match &self.scroll.items[slot].pellets {
            Some(pellets) => (
                pellets.target.filter,
                Effect::Supply {
                    ammo: String::from_str(pellets.name()),
                    shots: pellets.load_amount,
                    tag: pellets.target.attribute.clone(),
                },
            ),
            None => {
                return ;
            },
        };
        self.scroll.aim(filter, slot, event.item, &effect);
    }

    /// Lets the cannonballs of the used item load the guns they aim at.
    pub fn handle_cannonball_use(&mut self, event: &UseItem)
        requires
            old(self)@.wf(),
        ensures
            final(self)@ == old(self)@.cannonball_used(*event),
            final(self)@.wf(),
    {
        let slot = match self.scroll.position(event.item) {
            Some(slot) => slot,
            None => {
                return ;
            },
        };
        let (filter, effect) = match &self.scroll.items[slot].cannonball {
            Some(cannonball) => (
                cannonball.target.filter,
                Effect::Supply {
                    ammo: String::from_str(cannonball.name()),
                    shots: cannonball.load_amount,
                    tag: cannonball.target.attribute.clone(),
                },
            ),
            None => {
                return ;
            },
        };
        self.scroll.aim(filter, slot, event.item, &effect);
    }

    /// Takes the item under the marker out of the scroll if it has no use
    /// left.
    pub fn handle_consumable_use(&mut self)
        ensures
            final(self)@ == old(self)@.consumable_cleaned(),
            scroll_wf(old(self)@.scroll) ==> scroll_wf(final(self)@.scroll),
    {
        if self.marker >= self.scroll.items.len() {
            return ;
        }
        let used_up = match &self.scroll.items[self.marker].consumable {
            Some(uses) => uses.0 <= 0,
            None => false,
        };
        if used_up {
            let ghost before = self.scroll@;
            let marker = self.marker;
            let _ = self.scroll.items.remove(marker);
            proof {
                assert(self.scroll@ =~= before.remove(marker as int));
                crate::inventory::lemma_remove_keeps_order(before, marker as int);
            }
        }
    }

    /// Moves the marker on after a use.
    pub fn update_scroll_marker_pos(&mut self, event: &UseItem)
        ensures
            final(self)@ == old(self)@.marker_moved(*event),
            final(self)@.marker_valid(),
    {
        let len = self.scroll.items.len();
        if len == 0 {
            self.marker = 0;
        } else if event.consumed {
            self.marker = self.marker % len;
        } else {
            let held = self.marker % len;
            proof {
                vstd::arithmetic::div_mod::lemma_add_mod_noop(
                    self.marker as int,
                    1,
                    len as int,
                );
                if len > 1 {
                    vstd::arithmetic::div_mod::lemma_small_mod(1, len as nat);
                }
            }
            self.marker = (held + 1) % len;
        }
    }

    /// Ends the battle if a combatant is dead, and says where the game goes
    /// then: to its end with the player's death, to the loot with the
    /// enemy's, which also counts as a win.
    pub fn check_battle_end(&mut self) -> (next: Option<AppState>)
        ensures
            next == old(self)@.outcome(),
            final(self)@ == old(self)@.checked(),
    {
        if self.state == BattleState::BattleEnd {
            return None;
        }
        if self.player.hp.is_dead() {
            self.state = BattleState::BattleEnd;
            return Some(AppState::GameOver);
        }
        if self.enemy.hp.is_dead() {
            self.state = BattleState::BattleEnd;
            if self.wins.0 < usize::MAX {
                self.wins = BattleWins(self.wins.0 + 1);
            }
            return Some(AppState::OrganizeInventory);
        }
        None
    }

    /// Lets every ability of the used item work, one after the other in
    /// their fixed order, and says what they did to the combatants.
    pub fn use_abilities(&mut self, event: &UseItem) -> (events: Vec<BattleEvent>)
        requires
            old(self)@.wf(),
        ensures
            final(self)@ == old(self)@.abilities_used(*event),
            events@ == old(self)@.ability_events(*event),
            final(self)@.wf(),
            final(self)@.state == old(self)@.state,
    {
        proof {
            reveal(BattleView::abilities_used);
            reveal(BattleView::ability_events);
        }
        let mut events: Vec<BattleEvent> = Vec::new();
        self.handle_vitality_use(event);
        let ghost raised = self@;
        let struck = self.handle_damage_use(event);
        let ghost hit = self@;
        let healed = self.handle_hearties_use(event);
        let ghost whole = self@;
        let hurt = self.handle_cursed_use(event);
        match struck {
            Some(e) => {
                events.push(e);
            },
            None => {},
        }
        match healed {
            Some(e) => {
                events.push(e);
            },
            None => {},
        }
        match hurt {
            Some(e) => {
                events.push(e);
            },
            None => {},
        }
        proof {
            assert(events@ =~= listed(struck) + listed(healed) + listed(hurt));
            assert(self@.scroll == hit.scroll);
            assert(self@.marker == old(self)@.marker);
        }
        self.handle_heave_use(event);
        self.handle_sea_legs_use(event);
        proof {
            assert(self@.wf());
        }
        self.handle_swashbuckle_use(event);
        self.handle_jolly_use(event);
        self.handle_pellets_use(event);
        self.handle_cannonball_use(event);
        events
    }

    /// Resolves one use: every ability of the used item in the fixed order,
    /// then the item's leave if it is used up, then the marker's move.
    pub fn resolve(&mut self, event: &UseItem) -> (events: Vec<BattleEvent>)
        requires
            old(self)@.wf(),
        ensures
            final(self)@ == old(self)@.resolved(*event),
            events@ == old(self)@.ability_events(*event),
            final(self)@.wf(),
            final(self)@.state == old(self)@.state,
    {
        let events = self.use_abilities(event);
        self.handle_consumable_use();
        self.update_scroll_marker_pos(event);
        events
    }

    /// Plays the player's turn on the player's input: the use of the item
    /// under the marker, all that follows from it, and the check for the
    /// battle's end. Outside the player's turn nothing happens.
    pub fn player_turn(&mut self) -> (report: TurnReport)
        requires
            old(self)@.wf(),
        ensures
            final(self)@ == old(self)@.player_turn_taken(),
            final(self)@.wf(),
            report.used == old(self)@.use_event(),
            report.events@ == old(self)@.player_turn_events(),
            report.next == old(self)@.player_turn_outcome(),
            old(self)@.state == BattleState::PlayerTurn ==> (report.next is Some <==> final(self)@.state
                == BattleState::BattleEnd),
    {
        if self.state != BattleState::PlayerTurn {
            return TurnReport { used: None, events: Vec::new(), next: None };
        }
        let used = self.player_turn_use_item();
        let events = match &used {
            Some(event) => self.resolve(event),
            None => Vec::new(),
        };
        let next = self.check_battle_end();
        TurnReport { used, events, next }
    }

    /// Plays the enemy's turn once its time has run out: the blow, which
    /// the player's sea legs soften, then the check for the battle's end,
    /// then the wear of the player's stats if the player moves next.
    /// Outside the enemy's turn nothing happens.
    pub fn enemy_turn(&mut self) -> (report: TurnReport)
        ensures
            final(self)@ == old(self)@.enemy_turn_taken(),
            old(self)@.wf() ==> final(self)@.wf(),
            report.used is None,
            report.events@ == old(self)@.enemy_turn_events(),
            report.next == old(self)@.enemy_turn_outcome(),
            old(self)@.state == BattleState::EnemyTurn ==> (report.next is Some <==> final(self)@.state
                == BattleState::BattleEnd),
    {
        if self.state != BattleState::EnemyTurn {
            return TurnReport { used: None, events: Vec::new(), next: None };
        }
        let damage = self.enemy.blow(self.player.stats.sea_legs);
        self.player.hp.decrease(damage);
        self.state = BattleState::PlayerTurn;
        let mut events: Vec<BattleEvent> = Vec::new();
        events.push(BattleEvent::EnemyAttack);
        events.push(BattleEvent::PlayerHurt(damage));
        let next = self.check_battle_end();
        if self.state != BattleState::BattleEnd {
            self.player.update_stats();
        }
        proof {
            assert(events@ =~= seq![BattleEvent::EnemyAttack, BattleEvent::PlayerHurt(damage)]);
        }
        TurnReport { used: None, events, next }
    }

    /// Closes the battle and hands back what outlasts it: the player with
    /// the stats set back to nothing, the scroll with every bonus taken off
    /// every ability, and the count of wins.
    pub fn cleanup_battle(self) -> (left: (Player, Scroll, BattleWins))
        ensures
            left.0 == (Player { hp: self@.player.hp, stats: PlayerStats { sea_legs: 0 } }),
            left.1@ == crate::inventory::all_cleared(self@.scroll),
            left.2.0 == self@.wins,
            scroll_wf(self@.scroll) ==> scroll_wf(left.1@),
    {
        let mut player = self.player;
        player.reset_stats();
        let mut scroll = self.scroll;
        scroll.clear_modifiers();
        (player, scroll, self.wins)
    }
}

/// Changing an item in its slot keeps a scroll in order, where the item
/// keeps its id and is in order itself.
pub proof fn lemma_update_keeps_order(scroll: Seq<ItemView>, slot: int, item: ItemView)
    requires
        0 <= slot < scroll.len(),
        scroll_wf(scroll),
        item.id == scroll[slot].id,
        item.wf(),
    ensures
        scroll_wf(scroll.update(slot, item)),
{
    let after = scroll.update(slot, item);
    assert(crate::inventory::scroll_ids(after) =~= crate::inventory::scroll_ids(scroll));
    assert forall|i: int| 0 <= i < after.len() implies (#[trigger] after[i]).wf() by {
        if i != slot {
            assert(after[i] == scroll[i]);
        }
    }
}

/// Two scrolls hold the same items in the same slots, with the same uses
/// left on each.
pub open spec fn same_slots(a: Seq<ItemView>, b: Seq<ItemView>) -> bool {
    &&& a.len() == b.len()
    &&& forall|i: int|
        0 <= i < a.len() ==> (#[trigger] a[i]).id == b[i].id && a[i].consumable == b[i].consumable
}

proof fn lemma_aimed_same_slots(
    scroll: Seq<ItemView>,
    filter: crate::items::abilities::TargetFilter,
    index: int,
    source: u64,
    effect: EffectView,
)
    ensures
        same_slots(aimed(scroll, filter, index, source, effect), scroll),
{
    let after = aimed(scroll, filter, index, source, effect);
    assert forall|i: int| 0 <= i < after.len() implies (#[trigger] after[i]).id == scroll[i].id
        && after[i].consumable == scroll[i].consumable by {
        let changed = scroll[i].affected(effect);
        assert(changed.id == scroll[i].id && changed.consumable == scroll[i].consumable);
    }
}

proof fn lemma_damage_same_slots(battle: BattleView, event: UseItem)
    ensures
        same_slots(battle.damage_used(event).scroll, battle.scroll),
        battle.damage_used(event).marker == battle.marker,
        battle.damage_used(event).state == battle.state,
{
    if battle.strikes(event) {
        if exists|i: int| crate::inventory::is_first(battle.scroll, event.item, i) {
        }
    }
}

/// The abilities of a used item move no item, take none away, count no
/// use, and leave marker and turn as they are.
pub proof fn lemma_abilities_keep_slots(battle: BattleView, event: UseItem)
    ensures
        same_slots(battle.abilities_used(event).scroll, battle.scroll),
        battle.abilities_used(event).marker == battle.marker,
        battle.abilities_used(event).state == battle.state,
{
    reveal(BattleView::abilities_used);
    let a = battle.vitality_used(event);
    let b = a.damage_used(event);
    lemma_damage_same_slots(a, event);
    let c = b.hearties_used(event);
    let d = c.cursed_used(event);
    assert(same_slots(d.scroll, battle.scroll) && d.marker == battle.marker && d.state
        == battle.state);
    let e = d.heave_used(event);
    assert(same_slots(e.scroll, d.scroll) && e.marker == d.marker && e.state == d.state) by {
        match position(d.scroll, event.item) {
            Some(slot) => match d.scroll[slot].heave {
                Some(heave) => {
                    lemma_aimed_same_slots(
                        d.scroll,
                        heave.target.filter,
                        slot,
                        event.item,
                        EffectView::Heave {
                            source: event.item,
                            amount: heave.amount(),
                            tag: heave.target.attribute,
                        },
                    );
                },
                None => {},
            },
            None => {},
        }
    }
    let f = e.sea_legs_used(event);
    let g = f.swashbuckle_used(event);
    assert(same_slots(g.scroll, e.scroll) && g.marker == e.marker && g.state == e.state) by {
        match position(f.scroll, event.item) {
            Some(slot) => match f.scroll[slot].swashbuckle {
                Some(swashbuckle) => {
                    lemma_aimed_same_slots(
                        f.scroll,
                        swashbuckle.target.filter,
                        slot,
                        event.item,
                        EffectView::Swashbuckle {
                            source: event.item,
                            amount: swashbuckle.amount(),
                            tag: swashbuckle.target.attribute,
                        },
                    );
                },
                None => {},
            },
            None => {},
        }
    }
    let h = g.jolly_used(event);
    assert(same_slots(h.scroll, g.scroll) && h.marker == g.marker && h.state == g.state) by {
        match position(g.scroll, event.item) {
            Some(slot) => match g.scroll[slot].jolly {
                Some(jolly) => {
                    lemma_aimed_same_slots(
                        g.scroll,
                        jolly.target.filter,
                        slot,
                        event.item,
                        EffectView::Jolly {
                            source: event.item,
                            amount: jolly.amount(),
                            tag: jolly.target.attribute,
                        },
                    );
                },
                None => {},
            },
            None => {},
        }
    }
    let i = h.pellets_used(event);
    assert(same_slots(i.scroll, h.scroll) && i.marker == h.marker && i.state == h.state) by {
        match position(h.scroll, event.item) {
            Some(slot) => match h.scroll[slot].pellets {
                Some(pellets) => {
                    lemma_aimed_same_slots(
                        h.scroll,
                        pellets.target.filter,
                        slot,
                        event.item,
                        EffectView::Supply {
                            ammo: "Pellets"@,
                            shots: pellets.load_amount,
                            tag: pellets.target.attribute,
                        },
                    );
                },
                None => {},
            },
            None => {},
        }
    }
    let j = i.cannonball_used(event);
    assert(same_slots(j.scroll, i.scroll) && j.marker == i.marker && j.state == i.state) by {
        match position(i.scroll, event.item) {
            Some(slot) => match i.scroll[slot].cannonball {
                Some(cannonball) => {
                    lemma_aimed_same_slots(
                        i.scroll,
                        cannonball.target.filter,
                        slot,
                        event.item,
                        EffectView::Supply {
                            ammo: "Pellets"@,
                            shots: cannonball.load_amount,
                            tag: cannonball.target.attribute,
                        },
                    );
                },
                None => {},
            },
            None => {},
        }
    }
    assert(same_slots(j.scroll, battle.scroll));
}

/// An item whose last use is spent is gone from the scroll when the
/// player's turn is over, and the marker is valid then, on a slot of the
/// scroll or on nothing if the scroll is empty.
pub proof fn lemma_consumed_item_leaves(battle: BattleView)
    requires
        battle.wf(),
        battle.use_event() matches Some(event) && event.consumed,
    ensures
        !holds(battle.player_turn_taken().scroll, battle.use_event()->0.item),
        battle.player_turn_taken().marker_valid(),
{
    let event = battle.use_event()->0;
    let used = battle.item_used();
    let marker = battle.marker as int;
    assert(used.scroll[marker].id == event.item);
    assert(used.scroll[marker].consumable matches Some(uses) && uses.0 == 0);
    let done = used.abilities_used(event);
    lemma_abilities_keep_slots(used, event);
    assert(done.scroll[marker].id == event.item);
    assert(done.marked_exhausted());
    let cleaned = done.consumable_cleaned();
    assert(cleaned.scroll == done.scroll.remove(marker));
    assert(scroll_ids(done.scroll) =~= scroll_ids(battle.scroll));
    assert forall|i: int| 0 <= i < cleaned.scroll.len() implies (#[trigger] cleaned.scroll[i]).id
        != event.item by {
        let from = if i < marker {
            i
        } else {
            i + 1
        };
        assert(cleaned.scroll[i] == done.scroll[from]);
        assert(scroll_ids(done.scroll)[from] != scroll_ids(done.scroll)[marker]);
    }
    let moved = cleaned.marker_moved(event);
    assert(moved.scroll == cleaned.scroll);
    assert(moved.checked().scroll == moved.scroll);
    assert(moved.checked().marker == moved.marker);
}

/// Whatever the player's turn does, it leaves the marker valid.
pub proof fn lemma_turn_keeps_marker(battle: BattleView)
    requires
        battle.marker_valid(),
    ensures
        battle.player_turn_taken().marker_valid(),
{
    if battle.state == BattleState::PlayerTurn {
        match battle.use_event() {
            Some(event) => {
                let moved = battle.item_used().resolved(event);
                assert(moved.checked().scroll == moved.scroll);
                assert(moved.checked().marker == moved.marker);
            },
            None => {
                let used = battle.item_used();
                assert(used.checked().scroll == used.scroll);
                assert(used.checked().marker == used.marker);
            },
        }
    }
}

/// Healing and Vitality never leave the player more health than the
/// maximum.
pub proof fn lemma_player_within_max(battle: BattleView, event: UseItem)
    ensures
        battle.user(event) matches Some(item) && item.hearties is Some ==> battle.hearties_used(
            event,
        ).player.hp.current <= battle.hearties_used(event).player.hp.max,
        battle.user(event) matches Some(item) && item.vitality is Some ==> battle.vitality_used(
            event,
        ).player.hp.current <= battle.vitality_used(event).player.hp.max,
{
}

/// A battle that is over stays as it is: neither the player's input nor
/// the enemy's turn changes anything.
pub proof fn lemma_battle_end_is_final(battle: BattleView)
    requires
        battle.state == BattleState::BattleEnd,
    ensures
        battle.player_turn_taken() == battle,
        battle.enemy_turn_taken() == battle,
        battle.use_event() is None,
        battle.checked() == battle,
{
}

/// Once a battle has been closed, every ability in the scroll comes to its
/// base in the next battle: no bonus outlasts the battle it was given in.
pub proof fn lemma_no_bonus_outlasts_battle(scroll: Seq<ItemView>, i: int)
    requires
        0 <= i < scroll.len(),
    ensures
        all_cleared(scroll).len() == scroll.len(),
        all_cleared(scroll)[i].damage matches Some(a) ==> a.amount() == a.base,
        all_cleared(scroll)[i].hearties matches Some(a) ==> a.amount() == a.base,
        all_cleared(scroll)[i].cursed matches Some(a) ==> a.amount() == a.base,
        all_cleared(scroll)[i].heave matches Some(a) ==> a.amount() == a.base,
        all_cleared(scroll)[i].sea_legs matches Some(a) ==> a.amount() == a.base,
        all_cleared(scroll)[i].swashbuckle matches Some(a) ==> a.amount() == a.base,
        all_cleared(scroll)[i].jolly matches Some(a) ==> a.amount() == a.base,
        all_cleared(scroll)[i].vitality matches Some(a) ==> a.amount() == a.base,
{
    crate::items::lemma_cleared_amounts(scroll[i]);
    assert(all_cleared(scroll)[i] == scroll[i].cleared());
}

} // verus!
