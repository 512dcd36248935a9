//! Scene states and the axis-aligned bounds helper shared by movement and
//! collision checks.

use vstd::prelude::*;

use crate::components::Transform;
use crate::constants::EXTENT_LIMIT;
use crate::math::{half_extent, Vec2};
use crate::world::World;

verus! {

/// The top-level scene the game is showing.
#[derive(Clone, Copy, PartialEq, Eq, Structural, Debug, Hash)]
pub enum GameState {
    Initial,
    Splash,
    Transition,
    TitleScreen,
    MainMenu,
    InGame,
    Paused,
    Loading,
    LoadWorld,
    EndStage,
}

/// Edges of an entity's axis-aligned box, in milli-units.
#[derive(Clone, Copy, PartialEq, Eq, Structural, Debug)]
pub struct Bounds {
    pub top: i64,
    pub right: i64,
    pub bottom: i64,
    pub left: i64,
}

pub open spec fn size_x(size: Option<Vec2>) -> int {
    match size {
        Some(v) => v.x as int,
        None => 0,
    }
}

pub open spec fn size_y(size: Option<Vec2>) -> int {
    match size {
        Some(v) => v.y as int,
        None => 0,
    }
}

/// The box of full size `size` (a point when `None`) centred on the
/// transform's translation.
pub fn calculate_bounds(transform: &Transform, size: Option<Vec2>) -> (b: Bounds)
    requires
        transform.wf(),
        size matches Some(v) ==> 0 <= v.x <= EXTENT_LIMIT && 0 <= v.y <= EXTENT_LIMIT,
    ensures
        b.left == transform.translation.x - size_x(size) / 2,
        b.right == transform.translation.x + size_x(size) / 2,
        b.top == transform.translation.y + size_y(size) / 2,
        b.bottom == transform.translation.y - size_y(size) / 2,
{
    let (sx, sy) = match size {
        Some(v) => (half_extent(v.x), half_extent(v.y)),
        None => (0i64, 0i64),
    };
    Bounds {
        top: transform.translation.y + sy,
        right: transform.translation.x + sx,
        bottom: transform.translation.y - sy,
        left: transform.translation.x - sx,
    }
}

/// The end-of-frame despawn sweep: every record tagged for removal leaves
/// the store, and nothing else changes.  This is the only deletion path for
/// entities other than the player, so no system ever sees a half-destroyed
/// record mid-frame.
pub fn despawner(world: &mut World)
    ensures
        final(world).swept_from(*old(world)),
{
    world.sweep();
}

} // verus!
