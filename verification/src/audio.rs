//! Sound cues.  The simulation only records which sounds should start and
//! how loud each channel is; a host dispatcher does the playing.

use vstd::prelude::*;

use crate::asset_loading::AssetHandle;
use crate::assets::GameAssets;

verus! {

pub struct GameAudioPlugin;

/// Tag of the background-music channel.
#[derive(Clone, Copy, PartialEq, Eq, Structural, Debug)]
pub struct BGMChannel;

/// Tag of the sound-effects channel.
#[derive(Clone, Copy, PartialEq, Eq, Structural, Debug)]
pub struct SFXChannel;

/// One mixing channel, as the simulation sees it: a volume in per-mille,
/// whether it is paused, and a pending fade-out in microseconds.
#[derive(Clone, Copy, PartialEq, Eq, Structural, Debug)]
pub struct AudioChannel {
    pub volume_milli: u32,
    pub paused: bool,
    pub fade_out_us: u64,
}

#[derive(Clone, Copy, PartialEq, Eq, Structural, Debug)]
pub enum SFXEvents {
    CollisionSound,
    DeathSound,
    ShurikenSound,
    ReflectionSound,
    MeleeAttackSound,
    MenuSFX,
}

#[derive(Clone, Copy, PartialEq, Eq, Structural, Debug)]
pub enum BGMEvents {
    TitleScreenMusic,
    InGameMusic,
}

/// Set the mix: music at 1 percent, effects at 10 percent.
pub fn set_audio_channel_volume(music_channel: &mut AudioChannel, effects_channel: &mut AudioChannel)
    ensures
        *final(music_channel) == (AudioChannel { volume_milli: 10, ..*old(music_channel) }),
        *final(effects_channel) == (AudioChannel { volume_milli: 100, ..*old(effects_channel) }),
{
    music_channel.volume_milli = 10;
    effects_channel.volume_milli = 100;
}

/// Pause the music with a five-second fade.
pub fn fade_out_bgm(audio: &mut AudioChannel)
    ensures
        *final(audio) == (AudioChannel { paused: true, fade_out_us: 5_000_000, ..*old(audio) }),
{
    audio.paused = true;
    audio.fade_out_us = 5_000_000;
}

/// The sound asset a cue starts.
pub open spec fn spec_sfx_asset(assets: GameAssets, event: SFXEvents) -> AssetHandle {
    match event {
        SFXEvents::CollisionSound => assets.collision_sound,
        SFXEvents::DeathSound => assets.death_sound,
        SFXEvents::ShurikenSound => assets.shuriken_sound,
        SFXEvents::ReflectionSound => assets.reflection_sound,
        SFXEvents::MeleeAttackSound => assets.melee_attack_sound,
        SFXEvents::MenuSFX => assets.menu_sfx,
    }
}

/// The music asset a cue starts.
pub open spec fn spec_bgm_asset(assets: GameAssets, event: BGMEvents) -> AssetHandle {
    match event {
        BGMEvents::TitleScreenMusic => assets.title_screen_bgm,
        BGMEvents::InGameMusic => assets.ingame_bgm,
    }
}

/// Drain the effect cues of the frame into the sounds to start, in order.
pub fn play_sfx(game_assets: &GameAssets, sfx_events: &mut Vec<SFXEvents>) -> (started: Vec<
    AssetHandle,
>)
    ensures
        started@ == old(sfx_events)@.map_values(|e: SFXEvents| spec_sfx_asset(*game_assets, e)),
        final(sfx_events)@.len() == 0,
{
    let mut started: Vec<AssetHandle> = Vec::new();
    let mut i: usize = 0;
    while i < sfx_events.len()
        invariant
            i <= sfx_events.len(),
            sfx_events@ == old(sfx_events)@,
            started@ == sfx_events@.take(i as int).map_values(
                |e: SFXEvents| spec_sfx_asset(*game_assets, e)),
        decreases sfx_events.len() - i,
    {
        let handle = match sfx_events[i] {
            SFXEvents::CollisionSound => game_assets.collision_sound,
            SFXEvents::DeathSound => game_assets.death_sound,
            SFXEvents::ShurikenSound => game_assets.shuriken_sound,
            SFXEvents::ReflectionSound => game_assets.reflection_sound,
            SFXEvents::MeleeAttackSound => game_assets.melee_attack_sound,
            SFXEvents::MenuSFX => game_assets.menu_sfx,
        };
        started.push(handle);
        i = i + 1;
        proof {
            assert(sfx_events@.take(i as int)
                =~= sfx_events@.take(i as int - 1).push(sfx_events@[i as int - 1]));
            assert(started@ =~= sfx_events@.take(i as int).map_values(
                |e: SFXEvents| spec_sfx_asset(*game_assets, e)));
        }
    }
    proof {
        assert(sfx_events@.take(sfx_events@.len() as int) =~= sfx_events@);
    }
    sfx_events.clear();
    started
}

/// Drain the music cues of the frame into the tracks to start, in order.
pub fn play_bgm(game_assets: &GameAssets, bgm_events: &mut Vec<BGMEvents>) -> (started: Vec<
    AssetHandle,
>)
    ensures
        started@ == old(bgm_events)@.map_values(|e: BGMEvents| spec_bgm_asset(*game_assets, e)),
        final(bgm_events)@.len() == 0,
{
    let mut started: Vec<AssetHandle> = Vec::new();
    let mut i: usize = 0;
    while i < bgm_events.len()
        invariant
            i <= bgm_events.len(),
            bgm_events@ == old(bgm_events)@,
            started@ == bgm_events@.take(i as int).map_values(
                |e: BGMEvents| spec_bgm_asset(*game_assets, e)),
        decreases bgm_events.len() - i,
    {
        let handle = match bgm_events[i] {
            BGMEvents::TitleScreenMusic => game_assets.title_screen_bgm,
            BGMEvents::InGameMusic => game_assets.ingame_bgm,
        };
        started.push(handle);
        i = i + 1;
        proof {
            assert(bgm_events@.take(i as int)
                =~= bgm_events@.take(i as int - 1).push(bgm_events@[i as int - 1]));
            assert(started@ =~= bgm_events@.take(i as int).map_values(
                |e: BGMEvents| spec_bgm_asset(*game_assets, e)));
        }
    }
    proof {
        assert(bgm_events@.take(bgm_events@.len() as int) =~= bgm_events@);
    }
    bgm_events.clear();
    started
}

} // verus!
