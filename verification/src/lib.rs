//! Simulation core of a 2D "ninja versus wall-hanging enemies" arcade game.
//!
//! Space is measured in milli-units (one thousandth of a world unit) on
//! signed 64-bit coordinates, and time in microseconds, so that the whole
//! per-frame simulation — motion integration, timers, collision detection,
//! the player and enemy state machines, and the despawn sweep — is exact
//! integer arithmetic with verified contracts.  Rendering, audio playback
//! and asset I/O are left to a host program; the library only records the
//! cues and handles it would hand to one.

use vstd::prelude::*;

pub mod asset_loading;
pub mod assets;
pub mod audio;
pub mod background;
pub mod camera;
pub mod collision;
pub mod components;
pub mod constants;
pub mod death_effect;
pub mod enemy;
pub mod game_script;
pub mod main_menu;
pub mod math;
pub mod pause_menu;
pub mod player;
pub mod resources;
pub mod rng;
pub mod roof;
pub mod shuriken;
pub mod splash;
pub mod timer;
pub mod title_screen;
pub mod transition;
pub mod utils;
pub mod walls;
pub mod waves;
pub mod world;

verus! {

/// The per-frame admission gate: simulation systems run only while a live
/// player has started play and the game is not paused.
pub fn pause_game(
    event: &crate::resources::PauseEvent,
    player: Option<&crate::components::Player>,
) -> (run: bool)
    ensures
        run == match player {
            Some(p) => *event is Unpaused && p.1 is Start,
            None => false,
        },
{
    match player {
        Some(p) => *event == crate::resources::PauseEvent::Unpaused
            && p.1 == crate::components::LevelState::Start,
        None => false,
    }
}

} // verus!
