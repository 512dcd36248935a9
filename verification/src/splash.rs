//! The splash screen: a timer (or any key) moves on to the transition
//! movie.

use vstd::prelude::*;

use crate::asset_loading::AssetHandler;
use crate::assets::GameAssets;
use crate::constants::DELTA_LIMIT;
use crate::timer::{ticked, Timer, TimerMode};
use crate::utils::GameState;

verus! {

pub struct SplashPlugin;

/// Tag of every record the splash scene owns.
#[derive(Clone, Copy, PartialEq, Eq, Structural, Debug)]
pub struct OnSplashScreen;

/// How long the splash stays up on its own.
#[derive(Clone, Copy, PartialEq, Eq, Structural, Debug)]
pub struct SplashTimer(pub Timer);

impl Default for SplashTimer {
    fn default() -> (r: SplashTimer)
        ensures
            r.0 == (Timer {
                elapsed_us: 0,
                duration_us: 5_000_000,
                mode: TimerMode::Once,
                fired: false,
            }),
            r.0.wf(),
    {
        SplashTimer(Timer::new(5_000_000, TimerMode::Once))
    }
}

/// The splash image fading in and out, handed to the host's tween player:
/// clear to opaque over one second, back and forth, pausing three seconds
/// at each end.
#[derive(Clone, Copy, PartialEq, Eq, Structural, Debug)]
pub struct SplashScreenBundle {
    pub marker: OnSplashScreen,
    pub image: crate::asset_loading::AssetHandle,
    pub from_alpha_milli: u32,
    pub to_alpha_milli: u32,
    pub duration_us: u64,
    pub pause_us: u64,
}

/// Put up the splash image with its ping-pong fade.
pub fn setup_splash_screen(game_assets: &GameAssets) -> (s: SplashScreenBundle)
    ensures
        s == (SplashScreenBundle {
            marker: OnSplashScreen,
            image: game_assets.splash_screen,
            from_alpha_milli: 0,
            to_alpha_milli: 1000,
            duration_us: 1_000_000,
            pause_us: 3_000_000,
        }),
{
    SplashScreenBundle {
        marker: OnSplashScreen,
        image: game_assets.splash_screen,
        from_alpha_milli: 0,
        to_alpha_milli: 1000,
        duration_us: 1_000_000,
        pause_us: 3_000_000,
    }
}

/// Queue the splash image.
pub fn load(asset_handler: &mut AssetHandler, game_assets: &mut GameAssets)
    requires
        old(asset_handler).next_handle < usize::MAX,
    ensures
        final(game_assets).splash_screen.id == old(asset_handler).next_handle,
        final(asset_handler).next_handle == old(asset_handler).next_handle + 1,
        final(asset_handler).asset_loading.queued().len()
            == old(asset_handler).asset_loading.queued().len() + 1,
        final(asset_handler).state == old(asset_handler).state,
        final(asset_handler).next_state == old(asset_handler).next_state,
        *final(game_assets) == (GameAssets {
            splash_screen: final(game_assets).splash_screen,
            ..*old(game_assets)
        }),
{
    asset_handler.add_sprites(&mut game_assets.splash_screen, "intro/splash.png");
}

/// Advance the splash timer; when it completes, or on any key, start
/// loading the transition movie.
pub fn next_state(
    dt: u64,
    splash_timer: &mut SplashTimer,
    game_assets: &mut GameAssets,
    asset_handler: &mut AssetHandler,
    key_pressed: bool,
)
    requires
        old(splash_timer).0.wf(),
        dt <= DELTA_LIMIT,
        old(asset_handler).next_handle + 19 < usize::MAX,
    ensures
        final(splash_timer).0 == ticked(old(splash_timer).0, dt as int),
        final(splash_timer).0.wf(),
        final(splash_timer).0.fired || key_pressed ==> {
            &&& final(asset_handler).state == GameState::Loading
            &&& final(asset_handler).next_state.state == GameState::Transition
        },
        !(final(splash_timer).0.fired || key_pressed) ==> {
            &&& *final(asset_handler) == *old(asset_handler)
            &&& *final(game_assets) == *old(game_assets)
        },
{
    splash_timer.0.tick(dt);
    if splash_timer.0.just_finished() || key_pressed {
        asset_handler.load(GameState::Transition, game_assets);
    }
}

} // verus!
