//! The components that entity records carry: discrete states, timers,
//! geometry and motion data.

use vstd::prelude::*;

use crate::constants::{COORD_LIMIT, EXTENT_LIMIT, SCALE_LIMIT, SPEED_LIMIT};
use crate::math::{Vec2, Vec3};
use crate::timer::Timer;

verus! {

#[derive(Clone, Copy, PartialEq, Eq, Structural, Debug)]
pub enum EnemyState {
    Airborne,
    WallHanging,
    Dead,
}

#[derive(Clone, Copy, PartialEq, Eq, Structural, Debug)]
pub enum PlayerAction {
    Idle,
    WalkingLeft,
    WalkingRight,
    Flipping,
    Falling,
    Landing,
    Landed,
    Attacking,
}

#[derive(Clone, Copy, PartialEq, Eq, Structural, Debug)]
pub enum LevelState {
    Intro,
    Start,
}

#[derive(Clone, Copy, PartialEq, Eq, Structural, Debug)]
pub struct AttackCooldown(pub Timer);

/// The transient deletion tag: an entity carrying it is removed by the
/// end-of-frame despawn sweep, never mid-frame.
#[derive(Clone, Copy, PartialEq, Eq, Structural, Debug)]
pub struct MarkDespawn;

#[derive(Clone, Copy, PartialEq, Eq, Structural, Debug)]
pub struct Player(pub PlayerAction, pub LevelState);

#[derive(Clone, Copy, PartialEq, Eq, Structural, Debug)]
pub struct Enemy(pub EnemyState);

#[derive(Clone, Copy, PartialEq, Eq, Structural, Debug)]
pub struct Wall;

#[derive(Clone, Copy, PartialEq, Eq, Structural, Debug)]
pub struct Roof;

#[derive(Clone, Copy, PartialEq, Eq, Structural, Debug)]
pub struct Shuriken;

#[derive(Clone, Copy, PartialEq, Eq, Structural, Debug)]
pub struct Background;

#[derive(Clone, Copy, PartialEq, Eq, Structural, Debug)]
pub struct WallHangingTimer(pub Timer);

#[derive(Clone, Copy, PartialEq, Eq, Structural, Debug)]
pub struct AttackingTimer(pub Timer);

/// Full extents used for player movement bound checks and scenery wrap.
#[derive(Clone, Copy, PartialEq, Eq, Structural, Debug)]
pub struct Dimensions(pub Vec2);

/// Full extents of the collision box, before sprite scaling.
#[derive(Clone, Copy, PartialEq, Eq, Structural, Debug)]
pub struct HitBox(pub Vec2);

/// Downward acceleration in milli-units per second per second.
#[derive(Clone, Copy, PartialEq, Eq, Structural, Debug)]
pub struct Gravity(pub i64);

/// Launch speed cached at spawn time; restored on each wall-bounce recoil.
#[derive(Clone, Copy, PartialEq, Eq, Structural, Debug)]
pub struct InitialEnemySpeed(pub i64);

/// Velocity in milli-units per second.
#[derive(Clone, Copy, PartialEq, Eq, Structural, Debug)]
pub struct Velocity(pub Vec2);

#[derive(Clone, Copy, PartialEq, Eq, Structural, Debug)]
pub struct AnimationTimer(pub Timer);

#[derive(Clone, Copy, PartialEq, Eq, Structural, Debug)]
pub struct WalkingAnimationTimer(pub Timer);

#[derive(Clone, Copy, PartialEq, Eq, Structural, Debug)]
pub struct FlippingAnimationTimer(pub Timer);

/// Marks a short-lived death-effect entity.
#[derive(Clone, Copy, PartialEq, Eq, Structural, Debug)]
pub struct Effect;

/// Where an entity stands and how its sprite is scaled; the rotation only
/// spins the sprite and never affects collision.
#[derive(Clone, Copy, PartialEq, Eq, Structural, Debug)]
pub struct Transform {
    pub translation: Vec3,
    /// Per-mille sprite scale; 1000 is the natural size.
    pub scale: Vec2,
    /// Sprite spin in milli-degrees, kept in [0, 360_000).
    pub rotation_mdeg: i64,
}

impl Transform {
    pub open spec fn wf(self) -> bool {
        &&& -COORD_LIMIT <= self.translation.x <= COORD_LIMIT
        &&& -COORD_LIMIT <= self.translation.y <= COORD_LIMIT
        &&& -COORD_LIMIT <= self.translation.z <= COORD_LIMIT
        &&& 0 <= self.scale.x <= SCALE_LIMIT
        &&& 0 <= self.scale.y <= SCALE_LIMIT
        &&& 0 <= self.rotation_mdeg < 360_000
    }

    /// A transform at `translation` with the natural sprite scale.
    pub fn from_translation(translation: Vec3) -> (t: Transform)
        ensures
            t.translation == translation,
            t.scale == (Vec2 { x: 1000, y: 1000 }),
            t.rotation_mdeg == 0,
    {
        Transform { translation, scale: Vec2 { x: 1000, y: 1000 }, rotation_mdeg: 0 }
    }
}

/// The sprite cell an entity shows, and whether it is mirrored; a pure
/// function of the entity's state and its animation timers.
#[derive(Clone, Copy, PartialEq, Eq, Structural, Debug)]
pub struct SpriteFrame {
    pub index: usize,
    pub flip_x: bool,
}

impl Velocity {
    pub open spec fn wf(self) -> bool {
        &&& -SPEED_LIMIT <= self.0.x <= SPEED_LIMIT
        &&& -SPEED_LIMIT <= self.0.y <= SPEED_LIMIT
    }
}

impl Dimensions {
    pub open spec fn wf(self) -> bool {
        &&& 0 <= self.0.x <= EXTENT_LIMIT
        &&& 0 <= self.0.y <= EXTENT_LIMIT
    }
}

impl HitBox {
    pub open spec fn wf(self) -> bool {
        &&& 0 <= self.0.x <= EXTENT_LIMIT
        &&& 0 <= self.0.y <= EXTENT_LIMIT
    }
}

} // verus!
