use shadow_dancer::asset_loading::{AssetHandle, AssetHandler, AssetLoading, LoadState,
    NextState};
use shadow_dancer::assets::{AssetsPlugin, GameAssets};
use shadow_dancer::audio::{fade_out_bgm, play_bgm, play_sfx, set_audio_channel_volume,
    AudioChannel, BGMEvents, SFXEvents};
use shadow_dancer::background::{background_animator, bonus_stage_transition,
    end_stage_background_fadeout, BackgroundBundle, BonusStageTimer, EaseKind};
use shadow_dancer::camera::CameraPlugin;
use shadow_dancer::components::{LevelState, Player, PlayerAction};
use shadow_dancer::game_script::{load_state, GameScriptState};
use shadow_dancer::main_menu::{handle_current_selection, keyboard_input_system,
    main_menu_setup, navigate_menu, CurrentSelection, MenuBundle, MenuColor, MenuInput,
    NavigationEvent, TextColor};
use shadow_dancer::math::{Vec2, Vec3};
use shadow_dancer::pause_menu::{pause_game, pause_setup};
use shadow_dancer::resources::PauseEvent;
use shadow_dancer::roof::{build_towers, roof_animator, RoofBundle};
use shadow_dancer::splash::{self, setup_splash_screen, SplashTimer};
use shadow_dancer::timer::{Timer, TimerMode};
use shadow_dancer::title_screen::{flash_text, title_screen_setup, FlashingText, TitleTimer};
use shadow_dancer::transition::{initialize_movie, transition, TransitionBundle};
use shadow_dancer::utils::{calculate_bounds, GameState};
use shadow_dancer::walls::{wall_animator, WallBundle};

fn fresh_handler() -> AssetHandler {
    AssetHandler {
        next_handle: 1,
        asset_loading: AssetLoading { asset_handles: Vec::new() },
        state: GameState::Initial,
        next_state: NextState { state: GameState::TitleScreen },
    }
}

#[test]
fn loading_the_world_registers_every_asset_in_order() {
    let mut handler = fresh_handler();
    let mut assets = GameAssets::default();
    AssetsPlugin::load(&mut handler, &mut assets);
    assert_eq!(handler.next_handle, 20);
    assert_eq!(handler.asset_loading.asset_handles.len(), 16);
    assert_eq!(assets.musashi, AssetHandle { id: 2 });
    assert_eq!(assets.red_ninja, AssetHandle { id: 4 });
    assert_eq!(assets.death_effect, AssetHandle { id: 6 });
    assert_eq!(assets.shuriken, AssetHandle { id: 7 });
    assert_eq!(assets.menu_font, AssetHandle { id: 19 });
    assert_eq!(handler.asset_loading.asset_handles[0].1, "sprites/player/joe_musashi.png");
    assert_eq!(handler.asset_loading.asset_handles[15].1,
        "ui/shadow-dancer-the-secret-of-shinobi-smd.ttf");
}

#[test]
fn load_switches_to_the_loading_scene() {
    let mut handler = fresh_handler();
    let mut assets = GameAssets::default();
    handler.load(GameState::Splash, &mut assets);
    assert_eq!(handler.state, GameState::Loading);
    assert_eq!(handler.next_state.state, GameState::Splash);
    assert_eq!(handler.next_handle, 2);
    assert_eq!(assets.splash_screen, AssetHandle { id: 1 });
    assert_eq!(handler.asset_loading.asset_handles[0].1, "intro/splash.png");
}

#[test]
fn game_script_loads_the_bonus_stage() {
    let mut handler = fresh_handler();
    let mut assets = GameAssets::default();
    let script = GameScriptState::default();
    load_state(&mut handler, &mut assets, &script);
    assert_eq!(handler.state, GameState::Loading);
    assert_eq!(handler.next_state.state, GameState::InGame);
    // Entering the stage itself queues nothing new.
    assert_eq!(handler.asset_loading.asset_handles.len(), 0);
}

#[test]
fn splash_moves_on_when_its_timer_completes() {
    let mut handler = fresh_handler();
    let mut assets = GameAssets::default();
    let mut timer = SplashTimer::default();
    splash::next_state(1_000_000, &mut timer, &mut assets, &mut handler, false);
    assert_eq!(handler.state, GameState::Initial);
    splash::next_state(4_000_000, &mut timer, &mut assets, &mut handler, false);
    assert_eq!(handler.state, GameState::Loading);
    assert_eq!(handler.next_state.state, GameState::Transition);
}

#[test]
fn audio_cues_map_to_their_assets_and_drain() {
    let mut handler = fresh_handler();
    let mut assets = GameAssets::default();
    AssetsPlugin::load(&mut handler, &mut assets);
    let mut events = vec![SFXEvents::DeathSound, SFXEvents::ShurikenSound];
    let started = play_sfx(&assets, &mut events);
    assert_eq!(started, vec![assets.death_sound, assets.shuriken_sound]);
    assert!(events.is_empty());
    let mut bgm = vec![BGMEvents::InGameMusic];
    let started = play_bgm(&assets, &mut bgm);
    assert_eq!(started, vec![assets.ingame_bgm]);
    assert!(bgm.is_empty());
}

#[test]
fn channel_mix_and_fade() {
    let mut music = AudioChannel { volume_milli: 0, paused: false, fade_out_us: 0 };
    let mut effects = AudioChannel { volume_milli: 0, paused: false, fade_out_us: 0 };
    set_audio_channel_volume(&mut music, &mut effects);
    assert_eq!(music.volume_milli, 10);
    assert_eq!(effects.volume_milli, 100);
    fade_out_bgm(&mut music);
    assert!(music.paused);
    assert_eq!(music.fade_out_us, 5_000_000);
}

#[test]
fn menu_keys_become_events_with_a_blip() {
    let mut nv = Vec::new();
    let mut sfx = Vec::new();
    keyboard_input_system(
        &MenuInput { up_just_pressed: false, down_just_pressed: true, select_just_pressed: false },
        &mut nv,
        &mut sfx,
    );
    assert_eq!(nv, vec![NavigationEvent::Down]);
    assert_eq!(sfx, vec![SFXEvents::MenuSFX]);
}

#[test]
fn menu_cursor_toggles_and_select_acts() {
    let mut handler = fresh_handler();
    let mut assets = GameAssets::default();
    let mut current = CurrentSelection { index: 0 };
    let mut app_exit = false;
    // Down then select on the quit entry: the exit flag rises, nothing loads.
    navigate_menu(
        &vec![NavigationEvent::Down, NavigationEvent::Select],
        &mut current,
        &mut handler,
        &mut assets,
        &mut app_exit,
    );
    assert!(app_exit);
    assert_eq!(current.index, 0);
    assert_eq!(handler.state, GameState::Initial);
    // Select on the start entry: the world starts loading.
    let mut app_exit = false;
    navigate_menu(
        &vec![NavigationEvent::Select],
        &mut current,
        &mut handler,
        &mut assets,
        &mut app_exit,
    );
    assert!(!app_exit);
    assert_eq!(handler.state, GameState::Loading);
    assert_eq!(handler.next_state.state, GameState::LoadWorld);
}

#[test]
fn selection_paints_the_cursor_entry_red() {
    let font = AssetHandle { id: 3 };
    let mut items = vec![
        MenuBundle::new("Start", 0, font, TextColor::default()),
        MenuBundle::new("Quit", 1, font, TextColor::default()),
    ];
    let parent = handle_current_selection(&mut items, &CurrentSelection { index: 1 });
    assert_eq!(items[0].color.color, MenuColor::White);
    assert_eq!(items[1].color.color, MenuColor::Red);
    assert_eq!(items[1].text, "Quit");
    assert_eq!(parent, Some(1));
}

#[test]
fn pause_toggle_pushes_and_pops_the_scene() {
    let mut pressed = true;
    let mut stack = vec![GameState::InGame];
    let mut pause = PauseEvent::Unpaused;
    pause_game(&mut pressed, &mut stack, &mut pause);
    assert_eq!(stack, vec![GameState::InGame, GameState::Paused]);
    assert_eq!(pause, PauseEvent::Paused);
    assert!(!pressed);
    let mut pressed = true;
    pause_game(&mut pressed, &mut stack, &mut pause);
    assert_eq!(stack, vec![GameState::InGame]);
    assert_eq!(pause, PauseEvent::Unpaused);
}

#[test]
fn pause_overlay_shows_the_word_paused() {
    let assets = GameAssets::default();
    let overlay = pause_setup(&assets);
    assert_eq!(overlay.text, "Paused");
    assert_eq!(overlay.font, assets.menu_font);
}

#[test]
fn title_text_flashes_with_the_timer() {
    let mut texts = vec![FlashingText { visible: true }];
    let mut timer = TitleTimer::default();
    flash_text(&mut texts, &mut timer, 250_000);
    assert!(texts[0].visible);
    flash_text(&mut texts, &mut timer, 250_000);
    assert!(!texts[0].visible);
}

#[test]
fn transition_movie_plays_cells_and_cues_the_music() {
    let mut sfx = Vec::new();
    let mut movie = initialize_movie(&mut sfx);
    assert_eq!(sfx, vec![SFXEvents::MeleeAttackSound]);
    let mut handler = fresh_handler();
    let mut assets = GameAssets::default();
    let mut bgm = Vec::new();
    // The first run plays cells 0..8 at 20 ms; the seventh firing shows
    // cell 6 and cues the title music exactly once.
    for _ in 0..8 {
        transition(20_000, &mut movie, &mut assets, &mut handler, &mut bgm);
    }
    assert_eq!(movie.sprite_index, 7);
    assert_eq!(bgm, vec![BGMEvents::TitleScreenMusic]);
    assert_eq!(handler.state, GameState::Initial);
}

#[test]
fn transition_bundle_holds_thirteen_runs() {
    let movie = TransitionBundle::new();
    assert_eq!(movie.animation_clip.keyframes.len(), 13);
    assert_eq!(movie.animation_clip.keyframes[0].frames, (0..8).collect::<Vec<usize>>());
    assert_eq!(movie.animation_clip.keyframes[0].timer.duration_us, 20_000);
    assert_eq!(movie.animation_clip.keyframes[12].frames.len(), 65);
    assert_eq!(movie.animation_clip.keyframes[11].timer.duration_us, 2_440_000);
}

#[test]
fn backdrop_is_scaled_and_anchored() {
    let b = BackgroundBundle::new();
    assert_eq!(b.transform.scale, Vec2 { x: 461, y: 461 });
    assert_eq!(b.transform.translation, Vec3 { x: 0, y: -169_243, z: 0 });
    let mut backgrounds = vec![b];
    background_animator(&mut backgrounds, 1_000_000);
    assert_eq!(backgrounds[0].transform.translation.y, -169_243 + 6_000);
}

#[test]
fn bonus_stage_clock_ends_the_stage() {
    let mut stopwatch = BonusStageTimer::default();
    let player = Player(PlayerAction::Falling, LevelState::Start);
    let mut state = GameState::InGame;
    bonus_stage_transition(1_500_000, &mut stopwatch, &player, &mut state, &PauseEvent::Unpaused);
    assert_eq!(state, GameState::InGame);
    // Paused frames do not run the clock.
    bonus_stage_transition(1_500_000, &mut stopwatch, &player, &mut state, &PauseEvent::Paused);
    assert_eq!(state, GameState::InGame);
    bonus_stage_transition(500_000, &mut stopwatch, &player, &mut state, &PauseEvent::Unpaused);
    assert_eq!(state, GameState::EndStage);
}

#[test]
fn towers_rise_and_wrap() {
    let mut walls: Vec<WallBundle> = Vec::new();
    let mut roofs: Vec<RoofBundle> = Vec::new();
    build_towers(&mut walls, &mut roofs);
    assert_eq!(walls.len(), 10);
    assert_eq!(roofs.len(), 2);
    assert_eq!(walls[0].transform.translation, Vec3 { x: -264_000, y: -1_220_000, z: 0 });
    assert_eq!(walls[9].transform.translation, Vec3 { x: 264_000, y: -324_000, z: 0 });
    assert_eq!(roofs[0].transform.translation, Vec3 { x: -201_000, y: -100_000, z: 1000 });
    // A wall far enough above the screen drops three segment heights.
    let mut high = vec![walls[0].clone()];
    high[0].transform.translation.y = 340_000;
    wall_animator(&mut high, 16_666);
    assert_eq!(high[0].transform.translation.y, 340_000 + 9_999 - 672_000);
    // A roof three heights up is retired instead.
    let mut gone = vec![roofs[0].clone()];
    gone[0].transform.translation.y = 672_001;
    roof_animator(&mut gone, 16_666);
    assert!(gone[0].marked);
}

#[test]
fn bounds_are_centred_on_the_translation() {
    let t = shadow_dancer::components::Transform {
        translation: Vec3 { x: 10_000, y: -4_000, z: 0 },
        scale: Vec2 { x: 1000, y: 1000 },
        rotation_mdeg: 0,
    };
    let b = calculate_bounds(&t, Some(Vec2 { x: 30_000, y: 20_000 }));
    assert_eq!(b.left, -5_000);
    assert_eq!(b.right, 25_000);
    assert_eq!(b.top, 6_000);
    assert_eq!(b.bottom, -14_000);
    let point = calculate_bounds(&t, None);
    assert_eq!(point.left, 10_000);
    assert_eq!(point.right, 10_000);
}

#[test]
fn timer_defaults_match_their_scenes() {
    assert_eq!(SplashTimer::default().0, Timer {
        elapsed_us: 0,
        duration_us: 5_000_000,
        mode: TimerMode::Once,
        fired: false,
    });
    assert_eq!(TitleTimer::default().0.duration_us, 500_000);
    assert_eq!(BonusStageTimer::default().0.duration_us, 2_000_000);
}

#[test]
fn check_assets_waits_until_everything_loaded() {
    let mut handler = fresh_handler();
    let mut assets = GameAssets::default();
    handler.load(GameState::Splash, &mut assets);
    let queued = handler.asset_loading.asset_handles.len();
    handler.check_assets(&vec![LoadState::Loading; queued]);
    assert_eq!(handler.state, GameState::Loading);
    assert_eq!(handler.asset_loading.asset_handles.len(), queued);
    handler.check_assets(&vec![LoadState::Loaded; queued]);
    assert_eq!(handler.state, GameState::Splash);
    assert!(handler.asset_loading.asset_handles.is_empty());
}

#[test]
fn scene_setups_build_their_records() {
    let mut handler = fresh_handler();
    let mut assets = GameAssets::default();
    AssetsPlugin::load(&mut handler, &mut assets);

    let items = main_menu_setup(&assets);
    assert_eq!(items[0].text, "Start");
    assert_eq!(items[1].text, "Quit");
    assert_eq!(items[1].selectable.key, 1);

    let title = title_screen_setup(&assets);
    assert_eq!(title.scale_milli, 1714);
    assert_eq!(title.prompt, "Press Start Button");

    let splash_screen = setup_splash_screen(&assets);
    assert_eq!(splash_screen.image, assets.splash_screen);
    assert_eq!(splash_screen.pause_us, 3_000_000);

    let fade = end_stage_background_fadeout();
    assert_eq!(fade.size, Vec2 { x: 960_000, y: 640_000 });
    assert_eq!(fade.ease, EaseKind::ExponentialIn);

    let camera = CameraPlugin::camera_setup();
    assert_eq!(camera.vertical_milli_units, 640_000);
    assert_eq!(camera.scale_milli, 600);
    assert!(camera.clear_to_black);
}

#[test]
fn equal_keys_select_the_last_match() {
    let font = AssetHandle { id: 3 };
    let mut items = vec![
        MenuBundle::new("First", 0, font, TextColor::default()),
        MenuBundle::new("Twin", 1, font, TextColor::default()),
        MenuBundle::new("Twin again", 1, font, TextColor::default()),
    ];
    let parent = handle_current_selection(&mut items, &CurrentSelection { index: 1 });
    assert_eq!(parent, Some(2));
    assert_eq!(items[1].color.color, MenuColor::Red);
    assert_eq!(items[2].color.color, MenuColor::Red);
}
