//! The title screen: flashing prompt text, and any key moves on to the
//! main menu.

use vstd::prelude::*;

use crate::asset_loading::AssetHandler;
use crate::assets::GameAssets;
use crate::constants::DELTA_LIMIT;
use crate::timer::{ticked, Timer, TimerMode};
use crate::utils::GameState;

verus! {

broadcast use vstd::string::to_string_from_display_ensures_for_str;

pub struct TitleScreenPlugin;

/// Tag of every record the title scene owns.
#[derive(Clone, Copy, PartialEq, Eq, Structural, Debug)]
pub struct OnTitleScreen;

/// A prompt that blinks with the title timer.
#[derive(Clone, Copy, PartialEq, Eq, Structural, Debug)]
pub struct FlashingText {
    pub visible: bool,
}

/// Cadence of the blink.
#[derive(Clone, Copy, PartialEq, Eq, Structural, Debug)]
pub struct TitleTimer(pub Timer);

impl Default for TitleTimer {
    fn default() -> (r: TitleTimer)
        ensures
            r.0 == (Timer {
                elapsed_us: 0,
                duration_us: 500_000,
                mode: TimerMode::Repeating,
                fired: false,
            }),
            r.0.wf(),
    {
        TitleTimer(Timer::new(500_000, TimerMode::Repeating))
    }
}

/// Queue the title screen's font, music and image.
pub fn load(asset_handler: &mut AssetHandler, game_assets: &mut GameAssets)
    requires
        old(asset_handler).next_handle + 3 < usize::MAX,
    ensures
        final(game_assets).menu_font.id == old(asset_handler).next_handle,
        final(game_assets).title_screen_bgm.id == old(asset_handler).next_handle + 1,
        final(game_assets).title_screen.id == old(asset_handler).next_handle + 2,
        final(asset_handler).next_handle == old(asset_handler).next_handle + 3,
        final(asset_handler).asset_loading.queued().len()
            == old(asset_handler).asset_loading.queued().len() + 3,
        final(asset_handler).state == old(asset_handler).state,
        final(asset_handler).next_state == old(asset_handler).next_state,
        *final(game_assets) == (GameAssets {
            menu_font: final(game_assets).menu_font,
            title_screen_bgm: final(game_assets).title_screen_bgm,
            title_screen: final(game_assets).title_screen,
            ..*old(game_assets)
        }),
{
    asset_handler.add_font(
        &mut game_assets.menu_font,
        "ui/shadow-dancer-the-secret-of-shinobi-smd.ttf",
    );
    asset_handler.add_audio(
        &mut game_assets.title_screen_bgm,
        "music/02 - Title - Keisuke Tsukahara.ogg",
    );
    asset_handler.add_sprites(&mut game_assets.title_screen, "intro/title_screen.png");
}

/// The title image scaled to the camera, with its flashing prompt.
#[derive(Debug)]
pub struct TitleScreenBundle {
    pub marker: OnTitleScreen,
    pub image: crate::asset_loading::AssetHandle,
    /// Per-mille scale that blows the 224-unit-tall image up to the view.
    pub scale_milli: i64,
    pub prompt: String,
    pub prompt_text: FlashingText,
}

/// Put up the title image and the start prompt.
pub fn title_screen_setup(game_assets: &GameAssets) -> (t: TitleScreenBundle)
    ensures
        t.image == game_assets.title_screen,
        t.scale_milli == crate::constants::WORLD_HEIGHT as int
            * crate::constants::CAMERA_SCALE_MILLI as int / 224_000,
        t.prompt@ == "Press Start Button"@,
        t.prompt_text.visible,
{
    let scale: i64 = ((crate::constants::WORLD_HEIGHT as u64
        * crate::constants::CAMERA_SCALE_MILLI as u64) / 224_000) as i64;
    TitleScreenBundle {
        marker: OnTitleScreen,
        image: game_assets.title_screen,
        scale_milli: scale,
        prompt: "Press Start Button".to_string(),
        prompt_text: FlashingText { visible: true },
    }
}

/// The title timer after `n` of the frame's per-text ticks.
pub open spec fn spec_title_ticks(t: Timer, dt: int, n: int) -> Timer
    decreases n,
{
    if n <= 0 {
        t
    } else {
        ticked(spec_title_ticks(t, dt, n - 1), dt)
    }
}

/// Blink every flashing text: the shared timer advances once per text, and
/// a text toggles when the tick that reached it finds the timer finished.
pub fn flash_text(texts: &mut Vec<FlashingText>, title_timer: &mut TitleTimer, dt: u64)
    requires
        old(title_timer).0.wf(),
        dt <= DELTA_LIMIT,
    ensures
        final(texts)@.len() == old(texts)@.len(),
        final(title_timer).0 == spec_title_ticks(
            old(title_timer).0, dt as int, old(texts)@.len() as int),
        final(title_timer).0.wf(),
        forall|i: int| 0 <= i < old(texts)@.len() ==> #[trigger] final(texts)@[i].visible == if
            spec_title_ticks(old(title_timer).0, dt as int, i + 1).spec_finished() {
            !old(texts)@[i].visible
        } else {
            old(texts)@[i].visible
        },
{
    let ghost orig = texts@;
    let ghost t0 = title_timer.0;
    let mut i: usize = 0;
    while i < texts.len()
        invariant
            i <= texts@.len(),
            texts@.len() == orig.len(),
            dt <= DELTA_LIMIT,
            title_timer.0 == spec_title_ticks(t0, dt as int, i as int),
            title_timer.0.wf(),
            t0.wf(),
            forall|j: int| i <= j < orig.len() ==> #[trigger] texts@[j] == orig[j],
            forall|j: int| 0 <= j < i ==> #[trigger] texts@[j].visible == if spec_title_ticks(
                t0, dt as int, j + 1).spec_finished() {
                !orig[j].visible
            } else {
                orig[j].visible
            },
        decreases texts@.len() - i,
    {
        title_timer.0.tick(dt);
        let mut text = texts[i];
        if title_timer.0.finished() {
            text.visible = !text.visible;
        }
        texts.set(i, text);
        i = i + 1;
    }
}

/// On any key, start loading the main menu.
pub fn next_state(
    game_assets: &mut GameAssets,
    asset_handler: &mut AssetHandler,
    key_pressed: bool,
)
    requires
        old(asset_handler).next_handle + 19 < usize::MAX,
    ensures
        key_pressed ==> {
            &&& final(asset_handler).state == GameState::Loading
            &&& final(asset_handler).next_state.state == GameState::MainMenu
        },
        !key_pressed ==> {
            &&& *final(asset_handler) == *old(asset_handler)
            &&& *final(game_assets) == *old(game_assets)
        },
{
    if key_pressed {
        asset_handler.load(GameState::MainMenu, game_assets);
    }
}

} // verus!
