use scroll_battle::battle::{BattleEvent, BattleState};
use scroll_battle::common::Hp;
use scroll_battle::enemy::Enemy;
use scroll_battle::game::{Game, LOOT_ON_OFFER};
use scroll_battle::inventory::ScrollKind;
use scroll_battle::items::abilities::Ability;
use scroll_battle::player::Player;
use scroll_battle::{AppState, BattleWins};

fn organizing() -> Game {
    let mut game = Game::new();
    assert!(game.assets_loaded());
    assert!(game.scene_ready());
    assert!(game.start_game());
    game
}

fn take(game: &mut Game, id: u64, slot: usize) {
    assert!(game.start_dragging(id));
    assert!(game.stop_dragging(Some((ScrollKind::Inventory, slot))));
}

#[test]
fn game_walks_through_its_stages() {
    let mut game = Game::new();
    assert_eq!(game.state, AppState::LoadingAssets);
    assert!(game.player.is_none());
    assert!(!game.scene_ready());
    assert!(!game.start_game());
    assert!(!game.restart());
    assert!(game.assets_loaded());
    assert_eq!(game.state, AppState::InitGame);
    assert!(!game.assets_loaded());
    assert!(game.scene_ready());
    assert_eq!(game.state, AppState::GameStart);
    assert_eq!(game.player, Some(Player::default()));
    assert_eq!(game.wins, BattleWins(0));
    assert!(!game.start_battle(Enemy::new(6, 3)));
    assert!(game.start_game());
    assert_eq!(game.state, AppState::OrganizeInventory);
    assert!(game.start_battle(Enemy::new(6, 3)));
    assert_eq!(game.state, AppState::Battling);
    assert!(game.battle.is_some());
}

#[test]
fn loot_on_offer() {
    let game = organizing();
    assert_eq!(LOOT_ON_OFFER, 5);
    let names: Vec<&str> = game.inventory.loot.items.iter().map(|i| i.name.0.as_str()).collect();
    assert_eq!(names, vec!["Wooden Sword", "Grog", "Orange", "Spyglass", "Blessed Cutlass"]);
    assert_eq!(game.inventory.loot.ids(), vec![0, 1, 2, 3, 4]);
    assert_eq!(game.next_id, 5);
    assert_eq!(game.inventory.scroll.len(), 0);
}

#[test]
fn no_loot_once_the_ids_run_out() {
    let mut game = Game::new();
    game.next_id = u64::MAX - 4;
    game.assets_loaded();
    game.scene_ready();
    game.start_game();
    assert_eq!(game.state, AppState::OrganizeInventory);
    assert_eq!(game.inventory.loot.len(), 0);
    assert_eq!(game.next_id, u64::MAX - 4);
    let mut game = Game::new();
    game.next_id = u64::MAX - 5;
    game.spawn_loot();
    assert_eq!(game.inventory.loot.ids(), vec![u64::MAX - 5, u64::MAX - 4, u64::MAX - 3, u64::MAX - 2, u64::MAX - 1]);
    assert_eq!(game.next_id, u64::MAX);
}

#[test]
fn dragging_only_while_organizing() {
    let mut game = Game::new();
    game.assets_loaded();
    game.scene_ready();
    game.spawn_loot();
    assert!(!game.start_dragging(0));
    assert_eq!(game.inventory.loot.len(), 5);
    game.start_game();
    assert!(game.start_dragging(5));
    assert!(!game.start_battle(Enemy::new(6, 3)));
    assert_eq!(game.state, AppState::OrganizeInventory);
    assert!(game.stop_dragging(None));
    assert_eq!(game.inventory.loot.ids(), vec![5, 6, 7, 8, 9]);
}

#[test]
fn won_battle_leads_to_new_loot() {
    let mut game = organizing();
    take(&mut game, 0, 0);
    take(&mut game, 3, 0);
    assert_eq!(game.inventory.scroll.ids(), vec![3, 0]);
    assert!(game.start_battle(Enemy::new(4, 2)));
    assert_eq!(game.inventory.loot.len(), 0);
    assert_eq!(game.inventory.scroll.len(), 0);
    // The spyglass heaves the sword behind it.
    let report = game.use_item();
    assert_eq!(report.used.unwrap().item, 3);
    assert_eq!(report.next, None);
    let report = game.enemy_turn();
    assert_eq!(report.events, vec![BattleEvent::EnemyAttack, BattleEvent::PlayerHurt(2)]);
    assert_eq!(game.battle.as_ref().unwrap().state, BattleState::PlayerTurn);
    let report = game.use_item();
    assert_eq!(report.events, vec![BattleEvent::EnemyHurt(4)]);
    assert_eq!(report.next, Some(AppState::OrganizeInventory));
    assert_eq!(game.state, AppState::OrganizeInventory);
    assert!(game.battle.is_none());
    assert_eq!(game.wins, BattleWins(1));
    assert_eq!(game.player.unwrap().hp, Hp { max: 10, current: 8 });
    assert_eq!(game.inventory.scroll.ids(), vec![3, 0]);
    let sword = game.inventory.scroll.items[1].damage.as_ref().unwrap();
    assert_eq!(sword.amount(), sword.base());
    assert_eq!(game.inventory.loot.ids(), vec![5, 6, 7, 8, 9]);
}

#[test]
fn lost_battle_leads_to_game_over_and_back() {
    let mut game = organizing();
    take(&mut game, 1, 0);
    assert!(game.start_battle(Enemy::new(50, 30)));
    let report = game.use_item();
    assert_eq!(report.next, None);
    let report = game.enemy_turn();
    assert_eq!(report.events, vec![BattleEvent::EnemyAttack, BattleEvent::PlayerHurt(27)]);
    assert_eq!(report.next, Some(AppState::GameOver));
    assert_eq!(game.state, AppState::GameOver);
    assert!(game.battle.is_none());
    assert!(game.player.unwrap().hp.is_dead());
    assert_eq!(game.inventory.scroll.ids(), vec![1]);
    let report = game.use_item();
    assert!(report.used.is_none() && report.events.is_empty() && report.next.is_none());
    let report = game.enemy_turn();
    assert!(report.events.is_empty());
    assert!(!game.start_battle(Enemy::new(1, 1)));
    assert!(game.restart());
    assert_eq!(game.state, AppState::GameStart);
    assert_eq!(game.player, Some(Player::default()));
    assert_eq!(game.inventory.scroll.len(), 0);
    assert_eq!(game.wins, BattleWins(0));
}

#[test]
fn wins_are_forgotten_when_the_game_starts_again() {
    let mut game = organizing();
    take(&mut game, 0, 0);
    game.start_battle(Enemy::new(1, 100));
    game.use_item();
    assert_eq!(game.wins, BattleWins(1));
    game.start_battle(Enemy::new(100, 100));
    game.use_item();
    game.enemy_turn();
    assert_eq!(game.state, AppState::GameOver);
    assert_eq!(game.wins, BattleWins(1));
    game.restart();
    assert_eq!(game.wins, BattleWins(0));
}

#[test]
fn turns_outside_battle_do_nothing() {
    let mut game = organizing();
    let report = game.use_item();
    assert!(report.used.is_none() && report.events.is_empty() && report.next.is_none());
    assert_eq!(game.state, AppState::OrganizeInventory);
    assert_eq!(game.inventory.loot.len(), 5);
}
