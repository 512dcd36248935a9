//! The script that decides which part of the game loads next.

use vstd::prelude::*;

use crate::asset_loading::AssetHandler;
use crate::assets::GameAssets;
use crate::utils::GameState;

verus! {

pub struct GameScriptPlugin;

/// The chapters the game can play.
#[derive(Clone, Copy, PartialEq, Eq, Structural, Debug)]
pub enum GameScript {
    BonusStage,
}

/// Which chapter is up next.
#[derive(Clone, Copy, PartialEq, Eq, Structural, Debug)]
pub struct GameScriptState {
    pub current: GameScript,
}

impl Default for GameScriptState {
    fn default() -> (r: GameScriptState)
        ensures
            r.current == GameScript::BonusStage,
    {
        GameScriptState { current: GameScript::BonusStage }
    }
}

/// Start loading the scene of the current chapter.
pub fn load_state(
    assets_handler: &mut AssetHandler,
    game_assets: &mut GameAssets,
    game_script_state: &GameScriptState,
)
    requires
        old(assets_handler).next_handle + 19 < usize::MAX,
    ensures
        final(assets_handler).state == GameState::Loading,
        final(assets_handler).next_state.state == GameState::InGame,
{
    match game_script_state.current {
        GameScript::BonusStage => {
            assets_handler.load(GameState::InGame, game_assets);
        }
    }
}

} // verus!
