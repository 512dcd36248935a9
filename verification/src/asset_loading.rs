//! Bookkeeping for asset loading.  An asset handle is an opaque ticket
//! issued in order of registration; the loader queues (handle, path) pairs,
//! and the scene switches to `Loading` until a host reports them ready.

use vstd::prelude::*;

use crate::assets::{AssetsPlugin, GameAssets};
use crate::utils::GameState;

verus! {

/// Tickets a scene's asset queueing hands out.
pub open spec fn spec_ticket_delta(state: GameState) -> int {
    match state {
        GameState::Splash => 1,
        GameState::Transition => 4,
        GameState::TitleScreen => 3,
        GameState::MainMenu => 3,
        GameState::LoadWorld => 19,
        _ => 0,
    }
}

/// Entries a scene's asset queueing appends to the loading queue.
pub open spec fn spec_queue_delta(state: GameState) -> int {
    match state {
        GameState::Splash => 1,
        GameState::Transition => 3,
        GameState::TitleScreen => 3,
        GameState::MainMenu => 3,
        GameState::LoadWorld => 16,
        _ => 0,
    }
}

broadcast use vstd::string::to_string_from_display_ensures_for_str;

pub struct AssetsLoadingPlugin;

/// An opaque reference to a loaded asset; `0` is the default placeholder.
#[derive(Clone, Copy, PartialEq, Eq, Structural, Debug)]
pub struct AssetHandle {
    pub id: usize,
}

impl Default for AssetHandle {
    fn default() -> (r: AssetHandle)
        ensures
            r.id == 0,
    {
        AssetHandle { id: 0 }
    }
}

/// A material and its backing image.
#[derive(Clone, Copy, PartialEq, Eq, Structural, Debug)]
pub struct GameTexture {
    pub material: AssetHandle,
    pub image: AssetHandle,
}

/// The queue of assets whose loading is still pending.
#[derive(Debug)]
pub struct AssetLoading {
    pub asset_handles: Vec<(AssetHandle, String)>,
}

impl AssetLoading {
    /// The queued (handle, path) pairs as mathematical values.
    pub open spec fn queued(self) -> Seq<(AssetHandle, Seq<char>)> {
        self.asset_handles@.map_values(|p: (AssetHandle, String)| (p.0, p.1@))
    }
}

/// Load progress of one queued asset, as a host reports it.
#[derive(Clone, Copy, PartialEq, Eq, Structural, Debug)]
pub enum LoadState {
    NotLoaded,
    Loading,
    Loaded,
    Failed,
}

/// The scene to enter once every queued asset is ready.
#[derive(Clone, Copy, PartialEq, Eq, Structural, Debug)]
pub struct NextState {
    pub state: GameState,
}

impl Default for NextState {
    fn default() -> (r: NextState)
        ensures
            r.state == GameState::TitleScreen,
    {
        NextState { state: GameState::TitleScreen }
    }
}

/// The asset registry and loading queue, together with the scene switch
/// that loading drives.
#[derive(Debug)]
pub struct AssetHandler {
    /// Ticket the next registered asset receives.
    pub next_handle: usize,
    pub asset_loading: AssetLoading,
    pub state: GameState,
    pub next_state: NextState,
}

impl AssetHandler {
    /// Register one asset: hand out a fresh ticket and queue its path.
    fn add_asset(&mut self, asset: &mut AssetHandle, path: &str)
        requires
            old(self).next_handle < usize::MAX,
        ensures
            final(asset).id == old(self).next_handle,
            final(self).next_handle == old(self).next_handle + 1,
            final(self).asset_loading.queued()
                =~= old(self).asset_loading.queued().push((*final(asset), path@)),
            final(self).state == old(self).state,
            final(self).next_state == old(self).next_state,
    {
        *asset = AssetHandle { id: self.next_handle };
        self.next_handle = self.next_handle + 1;
        let entry = (AssetHandle { id: asset.id }, path.to_string());
        self.asset_loading.asset_handles.push(entry);
    }

    pub fn add_sprites(&mut self, sprite: &mut AssetHandle, path: &str)
        requires
            old(self).next_handle < usize::MAX,
        ensures
            final(sprite).id == old(self).next_handle,
            final(self).next_handle == old(self).next_handle + 1,
            final(self).asset_loading.queued()
                =~= old(self).asset_loading.queued().push((*final(sprite), path@)),
            final(self).state == old(self).state,
            final(self).next_state == old(self).next_state,
    {
        self.add_asset(sprite, path)
    }

    pub fn add_audio(&mut self, audio: &mut AssetHandle, path: &str)
        requires
            old(self).next_handle < usize::MAX,
        ensures
            final(audio).id == old(self).next_handle,
            final(self).next_handle == old(self).next_handle + 1,
            final(self).asset_loading.queued()
                =~= old(self).asset_loading.queued().push((*final(audio), path@)),
            final(self).state == old(self).state,
            final(self).next_state == old(self).next_state,
    {
        self.add_asset(audio, path)
    }

    pub fn add_font(&mut self, font: &mut AssetHandle, path: &str)
        requires
            old(self).next_handle < usize::MAX,
        ensures
            final(font).id == old(self).next_handle,
            final(self).next_handle == old(self).next_handle + 1,
            final(self).asset_loading.queued()
                =~= old(self).asset_loading.queued().push((*final(font), path@)),
            final(self).state == old(self).state,
            final(self).next_state == old(self).next_state,
    {
        self.add_asset(font, path)
    }

    /// Register a sprite sheet: one ticket for the backing image and one for
    /// the atlas sliced from it into `col * row` tiles of `tile_size`.
    pub fn add_texture_atlas(
        &mut self,
        texture_atlas_handle: &mut AssetHandle,
        path: &str,
        tile_size: crate::math::Vec2,
        col: usize,
        row: usize,
    )
        requires
            old(self).next_handle + 1 < usize::MAX,
        ensures
            final(texture_atlas_handle).id == old(self).next_handle + 1,
            final(self).next_handle == old(self).next_handle + 2,
            final(self).asset_loading.queued()
                =~= old(self).asset_loading.queued().push(
                    (AssetHandle { id: old(self).next_handle }, path@)),
            final(self).state == old(self).state,
            final(self).next_state == old(self).next_state,
    {
        let mut sprite = AssetHandle { id: 0 };
        self.add_asset(&mut sprite, path);
        *texture_atlas_handle = AssetHandle { id: self.next_handle };
        self.next_handle = self.next_handle + 1;
    }

    /// Queue the assets a scene needs before it can be entered.
    pub fn queue_assets_for_state(&mut self, game_state: &GameState, game_assets: &mut GameAssets)
        requires
            old(self).next_handle + 19 < usize::MAX,
        ensures
            final(self).next_handle == old(self).next_handle + spec_ticket_delta(*game_state),
            final(self).asset_loading.queued().len()
                == old(self).asset_loading.queued().len() + spec_queue_delta(*game_state),
            final(self).state == old(self).state,
            final(self).next_state == old(self).next_state,
    {
        match game_state {
            GameState::Splash => crate::splash::load(self, game_assets),
            GameState::Transition => crate::transition::load(self, game_assets),
            GameState::TitleScreen => crate::title_screen::load(self, game_assets),
            GameState::MainMenu => crate::main_menu::load(self, game_assets),
            GameState::LoadWorld => AssetsPlugin::load(self, game_assets),
            _ => {}
        }
    }

    /// Poll the queue: when every queued asset is ready the queue drains
    /// and the held scene switch happens.  A failed asset is fatal
    /// upstream, so the progress check never sees one.
    pub fn check_assets(&mut self, statuses: &Vec<LoadState>)
        requires
            old(self).asset_loading.asset_handles@.len() == statuses@.len(),
            forall|i: int| 0 <= i < statuses@.len() ==> !(#[trigger] statuses@[i] is Failed),
        ensures
            (forall|i: int| 0 <= i < statuses@.len() ==> #[trigger] statuses@[i] is Loaded) ==> {
                &&& final(self).asset_loading.asset_handles@.len() == 0
                &&& final(self).state == old(self).next_state.state
                &&& final(self).next_state == old(self).next_state
                &&& final(self).next_handle == old(self).next_handle
            },
            !(forall|i: int| 0 <= i < statuses@.len() ==> #[trigger] statuses@[i] is Loaded)
                ==> *final(self) == *old(self),
    {
        let mut ready = true;
        let mut i: usize = 0;
        while i < statuses.len()
            invariant
                i <= statuses@.len(),
                ready == forall|j: int| 0 <= j < i ==> #[trigger] statuses@[j] is Loaded,
            decreases statuses@.len() - i,
        {
            match statuses[i] {
                LoadState::Loaded => {}
                _ => {
                    ready = false;
                }
            }
            i = i + 1;
        }
        if ready {
            self.asset_loading.asset_handles = Vec::new();
            self.state = self.next_state.state;
        }
    }

    /// Queue the next scene's assets, remember the scene, and hold in the
    /// loading screen until a host reports the queue ready.
    pub fn load(&mut self, next_game_state: GameState, game_assets: &mut GameAssets)
        requires
            old(self).next_handle + 19 < usize::MAX,
        ensures
            final(self).state == GameState::Loading,
            final(self).next_state.state == next_game_state,
            final(self).next_handle == old(self).next_handle + spec_ticket_delta(next_game_state),
            final(self).asset_loading.queued().len()
                == old(self).asset_loading.queued().len() + spec_queue_delta(next_game_state),
    {
        self.queue_assets_for_state(&next_game_state, game_assets);
        self.next_state.state = next_game_state;
        self.state = GameState::Loading;
    }
}

} // verus!
