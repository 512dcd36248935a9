//! The handle table for every asset the game uses, and the routine that
//! queues the in-game set for loading.

use vstd::prelude::*;

use crate::asset_loading::{AssetHandle, AssetHandler};
use crate::math::Vec2;

verus! {

/// Handles to every sprite sheet, image, sound and font of the game.
#[derive(Clone, Copy, PartialEq, Eq, Structural, Debug)]
pub struct GameAssets {
    pub musashi: AssetHandle,
    pub red_ninja: AssetHandle,
    pub death_effect: AssetHandle,

    pub shuriken: AssetHandle,

    pub background: AssetHandle,
    pub left_roof: AssetHandle,
    pub right_roof: AssetHandle,
    pub right_wall: AssetHandle,
    pub left_wall: AssetHandle,

    pub collision_sound: AssetHandle,
    pub death_sound: AssetHandle,
    pub shuriken_sound: AssetHandle,
    pub reflection_sound: AssetHandle,
    pub melee_attack_sound: AssetHandle,

    pub ingame_bgm: AssetHandle,
    pub title_screen_bgm: AssetHandle,

    pub menu_font: AssetHandle,
    pub menu_arrow: AssetHandle,
    pub menu_sfx: AssetHandle,

    pub splash_screen: AssetHandle,
    pub title_screen: AssetHandle,
    pub transition: AssetHandle,
}

impl Default for GameAssets {
    /// Every handle starts as the placeholder ticket.
    fn default() -> (r: GameAssets)
        ensures
            r == GameAssets::placeholder(),
    {
        let zero = AssetHandle { id: 0 };
        GameAssets {
            musashi: zero,
            red_ninja: zero,
            death_effect: zero,
            shuriken: zero,
            background: zero,
            left_roof: zero,
            right_roof: zero,
            right_wall: zero,
            left_wall: zero,
            collision_sound: zero,
            death_sound: zero,
            shuriken_sound: zero,
            reflection_sound: zero,
            melee_attack_sound: zero,
            ingame_bgm: zero,
            title_screen_bgm: zero,
            menu_font: zero,
            menu_arrow: zero,
            menu_sfx: zero,
            splash_screen: zero,
            title_screen: zero,
            transition: zero,
        }
    }
}

impl GameAssets {
    /// The table with every handle still the placeholder.
    pub open spec fn placeholder() -> GameAssets {
        GameAssets {
            musashi: AssetHandle { id: 0 },
            red_ninja: AssetHandle { id: 0 },
            death_effect: AssetHandle { id: 0 },
            shuriken: AssetHandle { id: 0 },
            background: AssetHandle { id: 0 },
            left_roof: AssetHandle { id: 0 },
            right_roof: AssetHandle { id: 0 },
            right_wall: AssetHandle { id: 0 },
            left_wall: AssetHandle { id: 0 },
            collision_sound: AssetHandle { id: 0 },
            death_sound: AssetHandle { id: 0 },
            shuriken_sound: AssetHandle { id: 0 },
            reflection_sound: AssetHandle { id: 0 },
            melee_attack_sound: AssetHandle { id: 0 },
            ingame_bgm: AssetHandle { id: 0 },
            title_screen_bgm: AssetHandle { id: 0 },
            menu_font: AssetHandle { id: 0 },
            menu_arrow: AssetHandle { id: 0 },
            menu_sfx: AssetHandle { id: 0 },
            splash_screen: AssetHandle { id: 0 },
            title_screen: AssetHandle { id: 0 },
            transition: AssetHandle { id: 0 },
        }
    }
}

pub struct AssetsPlugin;

impl AssetsPlugin {
    /// Queue every asset the in-game scene needs: three sprite sheets, six
    /// images, six sounds, the in-game music and the menu font.  Each handle
    /// is a fresh ticket in registration order.
    pub fn load(asset_handler: &mut AssetHandler, game_assets: &mut GameAssets)
        requires
            old(asset_handler).next_handle + 19 < usize::MAX,
        ensures
            final(asset_handler).next_handle == old(asset_handler).next_handle + 19,
            final(asset_handler).asset_loading.queued().len()
                == old(asset_handler).asset_loading.queued().len() + 16,
            final(asset_handler).state == old(asset_handler).state,
            final(asset_handler).next_state == old(asset_handler).next_state,
            final(game_assets).musashi.id == old(asset_handler).next_handle + 1,
            final(game_assets).red_ninja.id == old(asset_handler).next_handle + 3,
            final(game_assets).death_effect.id == old(asset_handler).next_handle + 5,
            final(game_assets).shuriken.id == old(asset_handler).next_handle + 6,
            final(game_assets).background.id == old(asset_handler).next_handle + 7,
            final(game_assets).left_roof.id == old(asset_handler).next_handle + 8,
            final(game_assets).right_roof.id == old(asset_handler).next_handle + 9,
            final(game_assets).right_wall.id == old(asset_handler).next_handle + 10,
            final(game_assets).left_wall.id == old(asset_handler).next_handle + 11,
            final(game_assets).collision_sound.id == old(asset_handler).next_handle + 12,
            final(game_assets).death_sound.id == old(asset_handler).next_handle + 13,
            final(game_assets).shuriken_sound.id == old(asset_handler).next_handle + 14,
            final(game_assets).reflection_sound.id == old(asset_handler).next_handle + 15,
            final(game_assets).melee_attack_sound.id == old(asset_handler).next_handle + 16,
            final(game_assets).ingame_bgm.id == old(asset_handler).next_handle + 17,
            final(game_assets).menu_font.id == old(asset_handler).next_handle + 18,
            final(game_assets).title_screen_bgm == old(game_assets).title_screen_bgm,
            final(game_assets).menu_arrow == old(game_assets).menu_arrow,
            final(game_assets).menu_sfx == old(game_assets).menu_sfx,
            final(game_assets).splash_screen == old(game_assets).splash_screen,
            final(game_assets).title_screen == old(game_assets).title_screen,
            final(game_assets).transition == old(game_assets).transition,
    {
        asset_handler.add_texture_atlas(
            &mut game_assets.musashi,
            "sprites/player/joe_musashi.png",
            Vec2 { x: 64_000, y: 64_000 },
            7,
            3,
        );
        asset_handler.add_texture_atlas(
            &mut game_assets.red_ninja,
            "sprites/enemy/red_ninja.png",
            Vec2 { x: 40_000, y: 65_000 },
            4,
            1,
        );
        asset_handler.add_texture_atlas(
            &mut game_assets.death_effect,
            "sprites/effects/death.png",
            Vec2 { x: 40_000, y: 95_000 },
            4,
            1,
        );

        asset_handler.add_sprites(&mut game_assets.shuriken, "objects/shuriken.png");

        asset_handler.add_sprites(&mut game_assets.background, "background/background_day.png");
        asset_handler.add_sprites(&mut game_assets.left_roof, "background/left_roof.png");
        asset_handler.add_sprites(&mut game_assets.right_roof, "background/right_roof.png");
        asset_handler.add_sprites(&mut game_assets.right_wall, "background/right_wall.png");
        asset_handler.add_sprites(&mut game_assets.left_wall, "background/left_wall.png");

        asset_handler.add_audio(&mut game_assets.collision_sound, "sfx/impact.ogg");
        asset_handler.add_audio(&mut game_assets.death_sound, "sfx/disintegrate.ogg");
        asset_handler.add_audio(&mut game_assets.shuriken_sound, "sfx/shuriken.ogg");
        asset_handler.add_audio(&mut game_assets.reflection_sound, "sfx/parry.ogg");
        asset_handler.add_audio(&mut game_assets.melee_attack_sound, "sfx/melee_attack.ogg");

        asset_handler.add_audio(
            &mut game_assets.ingame_bgm,
            "music/08 - Bonus Stage - Keisuke Tsukahara.ogg",
        );

        asset_handler.add_font(
            &mut game_assets.menu_font,
            "ui/shadow-dancer-the-secret-of-shinobi-smd.ttf",
        );
    }
}

} // verus!
