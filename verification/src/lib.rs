pub mod battle;
pub mod common;
pub mod dice;
pub mod enemy;
pub mod game;
pub mod inventory;
pub mod items;
pub mod log;
pub mod numoids;
pub mod player;
pub mod rng;
pub mod text;
pub mod tooltip;

use vstd::prelude::*;

verus! {

/// The stages of the game. A battle runs only in `Battling`; it ends in
/// `OrganizeInventory`, where loot is taken, or in `GameOver`.
#[derive(Clone, Copy, Debug, PartialEq, Eq, Hash, Structural)]
pub enum AppState {
    LoadingAssets,
    InitGame,
    GameStart,
    OrganizeInventory,
    Battling,
    GameOver,
}

impl Default for AppState {
    fn default() -> (state: Self)
        ensures
            state == AppState::LoadingAssets,
    {
        AppState::LoadingAssets
    }
}

/// How many battles the player has won since the game began.
#[derive(Clone, Copy, Debug, PartialEq, Eq, Structural)]
pub struct BattleWins(pub usize);

impl Default for BattleWins {
    fn default() -> (wins: Self)
        ensures
            wins == BattleWins(0),
    {
        BattleWins(0)
    }
}

} // verus!
