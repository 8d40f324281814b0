use vstd::prelude::*;

use crate::battle::{Battle, BattleView, TurnReport};
use crate::common::Hp;
use crate::enemy::{Enemy, EnemyView};
use crate::inventory::{
    all_cleared, scroll_ids, scroll_wf, Inventory, InventoryView, Scroll, ScrollKind,
};
use crate::items::{view_of, ItemType, ItemView, Rarity};
use crate::player::{Player, PlayerStats, STARTING_PLAYER_HP};
use crate::{AppState, BattleWins};

verus! {

broadcast use {vstd::seq_lib::group_seq_properties, vstd::seq::group_seq_axioms};

/// How many items are on offer after a battle.
pub const LOOT_ON_OFFER: u64 = 5;

/// One game from the loading of its assets to the player's death and
/// beyond: the stage it is in, the player, the scrolls, and the battle
/// while one is fought.
#[derive(Debug)]
pub struct Game {
    pub state: AppState,
    pub wins: BattleWins,
    pub player: Option<Player>,
    pub inventory: Inventory,
    pub battle: Option<Battle>,
    /// The id that the next new item gets.
    pub next_id: u64,
}

pub struct GameView {
    pub state: AppState,
    pub wins: usize,
    pub player: Option<Player>,
    pub inventory: InventoryView,
    pub battle: Option<BattleView>,
    pub next_id: u64,
}

impl View for Game {
    type V = GameView;

    open spec fn view(&self) -> GameView {
        GameView {
            state: self.state,
            wins: self.wins.0,
            player: self.player,
            inventory: self.inventory@,
            battle: view_of(self.battle),
            next_id: self.next_id,
        }
    }
}

/// The player as the game begins.
pub open spec fn new_player() -> Player {
    Player {
        hp: Hp { max: STARTING_PLAYER_HP, current: STARTING_PLAYER_HP },
        stats: PlayerStats { sea_legs: 0 },
    }
}

/// The item of the given kind under the given id. Every kind on offer has
/// one.
pub open spec fn offered(kind: ItemType, id: int) -> ItemView {
    kind.spawned(id as u64)->0
}

/// The loot on offer where the next new item gets the id `next_id`.
pub open spec fn loot_from(next_id: u64) -> Seq<ItemView> {
    seq![
        offered(ItemType::WoodenSword, next_id + 0),
        offered(ItemType::Grog, next_id + 1),
        offered(ItemType::Orange, next_id + 2),
        offered(ItemType::Spyglass, next_id + 3),
        offered(ItemType::BlessedCutlass, next_id + 4),
    ]
}

impl GameView {
    /// The game is in order: its scrolls are, and its battle is.
    pub open spec fn wf(self) -> bool {
        &&& self.inventory.wf()
        &&& self.battle matches Some(battle) ==> battle.wf()
    }

    /// Whether there are ids left for another offer of loot.
    pub open spec fn has_ids_left(self) -> bool {
        self.next_id <= u64::MAX - LOOT_ON_OFFER
    }

    /// The game with new loot on offer in place of the old: the same five
    /// kinds each time, under ids that no item had before. Once the ids run
    /// out, nothing is offered.
    pub open spec fn with_loot(self) -> GameView {
        if self.has_ids_left() {
            GameView {
                inventory: InventoryView {
                    scroll: self.inventory.scroll,
                    loot: loot_from(self.next_id),
                    dragging: self.inventory.dragging,
                },
                next_id: (self.next_id + LOOT_ON_OFFER) as u64,
                ..self
            }
        } else {
            GameView {
                inventory: InventoryView {
                    scroll: self.inventory.scroll,
                    loot: Seq::empty(),
                    dragging: self.inventory.dragging,
                },
                ..self
            }
        }
    }

    /// The assets are there: the game goes on to set itself up.
    pub open spec fn assets_loaded(self) -> GameView {
        if self.state == AppState::LoadingAssets {
            GameView { state: AppState::InitGame, ..self }
        } else {
            self
        }
    }

    /// The game as it starts, for the first time or again: no wins, a new
    /// player, an empty scroll.
    pub open spec fn begun(self) -> GameView {
        GameView {
            state: AppState::GameStart,
            wins: 0,
            player: Some(new_player()),
            inventory: InventoryView {
                scroll: Seq::empty(),
                loot: self.inventory.loot,
                dragging: self.inventory.dragging,
            },
            battle: None,
            next_id: self.next_id,
        }
    }

    /// The scene is set up: the game starts.
    pub open spec fn scene_ready(self) -> GameView {
        if self.state == AppState::InitGame {
            self.begun()
        } else {
            self
        }
    }

    /// The player has pressed the start button: loot is on offer.
    pub open spec fn game_started(self) -> GameView {
        if self.state == AppState::GameStart {
            (GameView { state: AppState::OrganizeInventory, ..self }).with_loot()
        } else {
            self
        }
    }

    /// Whether a battle can start: the inventory is being organized, there
    /// is a player, and nothing is in the player's hand.
    pub open spec fn can_start_battle(self) -> bool {
        &&& self.state == AppState::OrganizeInventory
        &&& self.player is Some
        &&& self.inventory.dragging is None
    }

    /// The player has pressed the button for the battle: the loot that was
    /// not taken is gone, and the scroll goes into battle against `enemy`.
    pub open spec fn battle_started(self, enemy: EnemyView) -> GameView {
        if self.can_start_battle() {
            GameView {
                state: AppState::Battling,
                inventory: InventoryView {
                    scroll: Seq::empty(),
                    loot: Seq::empty(),
                    dragging: None,
                },
                battle: Some(
                    BattleView {
                        state: crate::battle::BattleState::PlayerTurn,
                        player: Player {
                            hp: self.player->0.hp,
                            stats: PlayerStats { sea_legs: 0 },
                        },
                        enemy,
                        scroll: self.inventory.scroll,
                        marker: 0,
                        wins: self.wins,
                    },
                ),
                ..self
            }
        } else {
            self
        }
    }

    /// The game after a turn of the battle that left the battle as
    /// `battle`. Where the turn ended the battle, the game moves on to
    /// `next`: the player keeps the health, the scroll comes back without
    /// any bonus, the wins are counted, and on the way to the loot new loot
    /// is on offer.
    pub open spec fn settled(self, battle: BattleView, next: Option<AppState>) -> GameView {
        match next {
            None => GameView { battle: Some(battle), ..self },
            Some(state) => {
                let left = GameView {
                    state,
                    wins: battle.wins,
                    player: Some(
                        Player { hp: battle.player.hp, stats: PlayerStats { sea_legs: 0 } },
                    ),
                    inventory: InventoryView {
                        scroll: all_cleared(battle.scroll),
                        loot: self.inventory.loot,
                        dragging: self.inventory.dragging,
                    },
                    battle: None,
                    next_id: self.next_id,
                };
                if state == AppState::OrganizeInventory {
                    left.with_loot()
                } else {
                    left
                }
            },
        }
    }

    /// The game after the player's input in battle.
    pub open spec fn player_turn_taken(self) -> GameView {
        match self.battle {
            Some(battle) if self.state == AppState::Battling => self.settled(
                battle.player_turn_taken(),
                battle.player_turn_outcome(),
            ),
            _ => self,
        }
    }

    /// The game after the enemy's turn in battle.
    pub open spec fn enemy_turn_taken(self) -> GameView {
        match self.battle {
            Some(battle) if self.state == AppState::Battling => self.settled(
                battle.enemy_turn_taken(),
                battle.enemy_turn_outcome(),
            ),
            _ => self,
        }
    }

    /// The player has pressed the button to play again.
    pub open spec fn restarted(self) -> GameView {
        if self.state == AppState::GameOver {
            self.begun()
        } else {
            self
        }
    }

    /// The player has picked up an item while organizing the inventory.
    pub open spec fn picked_up(self, id: u64) -> GameView {
        if self.state == AppState::OrganizeInventory {
            GameView { inventory: self.inventory.picked_up(id), ..self }
        } else {
            self
        }
    }

    /// The player has let go of the item in hand while organizing the
    /// inventory.
    pub open spec fn let_go(self, over: Option<(ScrollKind, usize)>) -> GameView {
        if self.state == AppState::OrganizeInventory {
            GameView { inventory: self.inventory.let_go(over), ..self }
        } else {
            self
        }
    }
}

/// Each kind on offer can be made, keeps the id it is given, and is in
/// order.
pub proof fn lemma_offered(id: u64)
    ensures
        ItemType::WoodenSword.spawned(id) is Some,
        ItemType::Grog.spawned(id) is Some,
        ItemType::Orange.spawned(id) is Some,
        ItemType::Spyglass.spawned(id) is Some,
        ItemType::BlessedCutlass.spawned(id) is Some,
        offered(ItemType::WoodenSword, id as int).id == id,
        offered(ItemType::Grog, id as int).id == id,
        offered(ItemType::Orange, id as int).id == id,
        offered(ItemType::Spyglass, id as int).id == id,
        offered(ItemType::BlessedCutlass, id as int).id == id,
        offered(ItemType::WoodenSword, id as int).wf(),
        offered(ItemType::Grog, id as int).wf(),
        offered(ItemType::Orange, id as int).wf(),
        offered(ItemType::Spyglass, id as int).wf(),
        offered(ItemType::BlessedCutlass, id as int).wf(),
{
    assert(Rarity::Mundane.spec_items()[3] == ItemType::WoodenSword);
    assert(Rarity::Mundane.spec_items()[2] == ItemType::Grog);
    assert(Rarity::Mundane.spec_items()[1] == ItemType::Orange);
    assert(Rarity::Scarce.spec_items()[3] == ItemType::Spyglass);
    assert(Rarity::Precious.spec_items()[1] == ItemType::BlessedCutlass);
    assert(ItemType::WoodenSword.spec_rarity() is Some);
    assert(ItemType::Grog.spec_rarity() is Some);
    assert(ItemType::Orange.spec_rarity() is Some);
    assert(ItemType::Spyglass.spec_rarity() is Some);
    assert(ItemType::BlessedCutlass.spec_rarity() is Some);
}

/// The loot on offer is a scroll in order.
pub proof fn lemma_loot_in_order(next_id: u64)
    requires
        next_id <= u64::MAX - LOOT_ON_OFFER,
    ensures
        scroll_wf(loot_from(next_id)),
{
    let loot = loot_from(next_id);
    lemma_offered(next_id);
    lemma_offered((next_id + 1) as u64);
    lemma_offered((next_id + 2) as u64);
    lemma_offered((next_id + 3) as u64);
    lemma_offered((next_id + 4) as u64);
    let ids = scroll_ids(loot);
    assert forall|i: int| 0 <= i < 5 implies #[trigger] ids[i] == next_id + i by {
        assert(ids[i] == loot[i].id);
    }
    assert forall|i: int| 0 <= i < loot.len() implies (#[trigger] loot[i]).wf() by {}
}

fn offer(loot: &mut Scroll, kind: ItemType, id: u64)
    requires
        kind.spawned(id) is Some,
    ensures
        final(loot)@ == old(loot)@.push(offered(kind, id as int)),
{
    let ghost before = loot@;
    if let Some(item) = kind.spawn(id) {
        loot.items.push(item);
    }
    assert(loot@ =~= before.push(offered(kind, id as int)));
}

impl Game {
    /// A game that has yet to load its assets.
    pub fn new() -> (game: Self)
        ensures
            game@ == (GameView {
                state: AppState::LoadingAssets,
                wins: 0,
                player: None,
                inventory: InventoryView {
                    scroll: Seq::empty(),
                    loot: Seq::empty(),
                    dragging: None,
                },
                battle: None,
                next_id: 0,
            }),
            game@.wf(),
    {
        Game {
            state: AppState::LoadingAssets,
            wins: BattleWins(0),
            player: None,
            inventory: Inventory::new(),
            battle: None,
            next_id: 0,
        }
    }

    /// Whether the game is in order.
    pub fn in_order(&self) -> (ok: bool)
        ensures
            ok == self@.wf(),
    {
        let battle = match &self.battle {
            Some(battle) => battle.in_order(),
            None => true,
        };
        battle && self.inventory.in_order()
    }

    fn begin(&mut self)
        requires
            old(self)@.wf(),
        ensures
            final(self)@ == old(self)@.begun(),
            final(self)@.wf(),
    {
        self.state = AppState::GameStart;
        self.wins = BattleWins(0);
        self.player = Some(Player::default());
        self.inventory.scroll = Scroll::new();
        self.battle = None;
    }

    /// Puts new loot on offer.
    pub fn spawn_loot(&mut self)
        requires
            old(self)@.wf(),
        ensures
            final(self)@ == old(self)@.with_loot(),
            final(self)@.wf(),
    {
        let mut loot = Scroll::new();
        if self.next_id <= u64::MAX - LOOT_ON_OFFER {
            let first = self.next_id;
            proof {
                lemma_offered(first);
                lemma_offered((first + 1) as u64);
                lemma_offered((first + 2) as u64);
                lemma_offered((first + 3) as u64);
                lemma_offered((first + 4) as u64);
                lemma_loot_in_order(first);
            }
            offer(&mut loot, ItemType::WoodenSword, first);
            offer(&mut loot, ItemType::Grog, first + 1);
            offer(&mut loot, ItemType::Orange, first + 2);
            offer(&mut loot, ItemType::Spyglass, first + 3);
            offer(&mut loot, ItemType::BlessedCutlass, first + 4);
            assert(loot@ =~= loot_from(first));
            self.next_id = first + LOOT_ON_OFFER;
        }
        self.inventory.loot = loot;
    }

    /// The assets are loaded.
    pub fn assets_loaded(&mut self) -> (moved: bool)
        ensures
            final(self)@ == old(self)@.assets_loaded(),
            moved == (old(self)@.state == AppState::LoadingAssets),
            old(self)@.wf() ==> final(self)@.wf(),
    {
        if self.state == AppState::LoadingAssets {
            self.state = AppState::InitGame;
            true
        } else {
            false
        }
    }

    /// The scene is set up.
    pub fn scene_ready(&mut self) -> (moved: bool)
        requires
            old(self)@.wf(),
        ensures
            final(self)@ == old(self)@.scene_ready(),
            moved == (old(self)@.state == AppState::InitGame),
            final(self)@.wf(),
    {
        if self.state == AppState::InitGame {
            self.begin();
            true
        } else {
            false
        }
    }

    /// The player presses the start button.
    pub fn start_game(&mut self) -> (moved: bool)
        requires
            old(self)@.wf(),
        ensures
            final(self)@ == old(self)@.game_started(),
            moved == (old(self)@.state == AppState::GameStart),
            final(self)@.wf(),
    {
        if self.state == AppState::GameStart {
            self.state = AppState::OrganizeInventory;
            self.spawn_loot();
            true
        } else {
            false
        }
    }

    /// The player presses the button for the battle, which is fought
    /// against `enemy`.
    pub fn start_battle(&mut self, enemy: Enemy) -> (moved: bool)
        requires
            old(self)@.wf(),
        ensures
            final(self)@ == old(self)@.battle_started(enemy@),
            moved == old(self)@.can_start_battle(),
            final(self)@.wf(),
    {
        if self.state != AppState::OrganizeInventory || self.inventory.dragging.is_some() {
            return false;
        }
        let player = match self.player {
            Some(player) => player,
            None => {
                return false;
            },
        };
        let mut scroll = Scroll::new();
        std::mem::swap(&mut self.inventory.scroll, &mut scroll);
        self.inventory.loot = Scroll::new();
        self.battle = Some(Battle::new(player, scroll, enemy, self.wins));
        self.state = AppState::Battling;
        true
    }

    fn settle(&mut self, battle: Battle, next: Option<AppState>)
        requires
            old(self)@.wf(),
            battle@.wf(),
        ensures
            final(self)@ == old(self)@.settled(battle@, next),
            final(self)@.wf(),
    {
        match next {
            None => {
                self.battle = Some(battle);
            },
            Some(state) => {
                let (player, scroll, wins) = battle.cleanup_battle();
                self.state = state;
                self.wins = wins;
                self.player = Some(player);
                self.inventory.scroll = scroll;
                self.battle = None;
                if state == AppState::OrganizeInventory {
                    self.spawn_loot();
                }
            },
        }
    }

    /// Takes the player's input in battle and plays the player's turn.
    /// Where the turn ends the battle, the game moves on.
    pub fn use_item(&mut self) -> (report: TurnReport)
        requires
            old(self)@.wf(),
        ensures
            final(self)@ == old(self)@.player_turn_taken(),
            final(self)@.wf(),
            match old(self)@.battle {
                Some(battle) if old(self)@.state == AppState::Battling => {
                    &&& report.used == battle.use_event()
                    &&& report.events@ == battle.player_turn_events()
                    &&& report.next == battle.player_turn_outcome()
                },
                _ => report.used is None && report.events@.len() == 0 && report.next is None,
            },
    {
        if self.state != AppState::Battling {
            return TurnReport { used: None, events: Vec::new(), next: None };
        }
        let mut battle = match self.battle.take() {
            Some(battle) => battle,
            None => {
                return TurnReport { used: None, events: Vec::new(), next: None };
            },
        };
        let report = battle.player_turn();
        self.settle(battle, report.next);
        report
    }

    /// Plays the enemy's turn once its time has run out. Where the turn
    /// ends the battle, the game moves on.
    pub fn enemy_turn(&mut self) -> (report: TurnReport)
        requires
            old(self)@.wf(),
        ensures
            final(self)@ == old(self)@.enemy_turn_taken(),
            final(self)@.wf(),
            match old(self)@.battle {
                Some(battle) if old(self)@.state == AppState::Battling => {
                    &&& report.used is None
                    &&& report.events@ == battle.enemy_turn_events()
                    &&& report.next == battle.enemy_turn_outcome()
                },
                _ => report.used is None && report.events@.len() == 0 && report.next is None,
            },
    {
        if self.state != AppState::Battling {
            return TurnReport { used: None, events: Vec::new(), next: None };
        }
        let mut battle = match self.battle.take() {
            Some(battle) => battle,
            None => {
                return TurnReport { used: None, events: Vec::new(), next: None };
            },
        };
        let report = battle.enemy_turn();
        self.settle(battle, report.next);
        report
    }

    /// The player presses the button to play again.
    pub fn restart(&mut self) -> (moved: bool)
        requires
            old(self)@.wf(),
        ensures
            final(self)@ == old(self)@.restarted(),
            moved == (old(self)@.state == AppState::GameOver),
            final(self)@.wf(),
    {
        if self.state == AppState::GameOver {
            self.begin();
            true
        } else {
            false
        }
    }

    /// The player picks up the item `id` while organizing the inventory.
    pub fn start_dragging(&mut self, id: u64) -> (picked: bool)
        ensures
            final(self)@ == old(self)@.picked_up(id),
            picked ==> old(self)@.state == AppState::OrganizeInventory,
            old(self)@.wf() ==> final(self)@.wf(),
    {
        if self.state == AppState::OrganizeInventory {
            self.inventory.start_dragging(id)
        } else {
            false
        }
    }

    /// The player lets go of the item in hand while organizing the
    /// inventory.
    pub fn stop_dragging(&mut self, over: Option<(ScrollKind, usize)>) -> (dropped: bool)
        ensures
            final(self)@ == old(self)@.let_go(over),
            dropped == (old(self)@.state == AppState::OrganizeInventory
                && old(self)@.inventory.can_land(over)),
            old(self)@.wf() ==> final(self)@.wf(),
    {
        if self.state == AppState::OrganizeInventory {
            self.inventory.stop_dragging(over)
        } else {
            false
        }
    }
}

} // verus!
