//! The pause overlay and the pause toggle.

use vstd::prelude::*;

use crate::asset_loading::AssetHandle;
use crate::assets::GameAssets;
use crate::resources::PauseEvent;
use crate::utils::GameState;

verus! {

broadcast use vstd::string::to_string_from_display_ensures_for_str;

pub struct PauseMenuPlugin;

/// Tag of every record the pause overlay owns.
#[derive(Clone, Copy, PartialEq, Eq, Structural, Debug)]
pub struct OnPauseScreen;

/// The overlay shown while the game is paused.
#[derive(Debug)]
pub struct PauseOverlay {
    pub marker: OnPauseScreen,
    pub text: String,
    pub font: AssetHandle,
}

/// Build the pause overlay.
pub fn pause_setup(game_assets: &GameAssets) -> (o: PauseOverlay)
    ensures
        o.text@ == "Paused"@,
        o.font == game_assets.menu_font,
{
    PauseOverlay {
        marker: OnPauseScreen,
        text: "Paused".to_string(),
        font: game_assets.menu_font,
    }
}

/// Toggle the pause state on the pause key: pausing pushes the pause scene
/// onto the scene stack, unpausing pops it; either way the key press is
/// consumed.
pub fn pause_game(
    pause_pressed: &mut bool,
    game_state_stack: &mut Vec<GameState>,
    pause_event: &mut PauseEvent,
)
    requires
        *old(pause_pressed) && *old(pause_event) is Paused
            ==> old(game_state_stack)@.len() >= 1,
    ensures
        *old(pause_pressed) && *old(pause_event) is Unpaused ==> {
            &&& final(game_state_stack)@ == old(game_state_stack)@.push(GameState::Paused)
            &&& *final(pause_event) is Paused
            &&& !*final(pause_pressed)
        },
        *old(pause_pressed) && *old(pause_event) is Paused ==> {
            &&& final(game_state_stack)@ == old(game_state_stack)@.drop_last()
            &&& *final(pause_event) is Unpaused
            &&& !*final(pause_pressed)
        },
        !*old(pause_pressed) ==> {
            &&& final(game_state_stack)@ == old(game_state_stack)@
            &&& *final(pause_event) == *old(pause_event)
            &&& *final(pause_pressed) == *old(pause_pressed)
        },
{
    if *pause_pressed {
        match *pause_event {
            PauseEvent::Unpaused => {
                game_state_stack.push(GameState::Paused);
                *pause_pressed = false;
                *pause_event = PauseEvent::Paused;
            }
            PauseEvent::Paused => {
                let _ = game_state_stack.pop();
                *pause_pressed = false;
                *pause_event = PauseEvent::Unpaused;
            }
        }
    }
}

} // verus!
