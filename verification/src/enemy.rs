//! Enemy records and their per-frame systems: ballistic motion, the
//! wall-hanging bounce, gravity, and the sprite picked from state.

use vstd::prelude::*;

use crate::assets::GameAssets;
use crate::asset_loading::AssetHandle;
use crate::components::{Dimensions, Enemy, EnemyState, Gravity, HitBox, InitialEnemySpeed,
    SpriteFrame, Transform, Velocity, WallHangingTimer};
use crate::constants::{DELTA_LIMIT, DESPAWN_MARGIN, DURATION_LIMIT, LEFT_WALL, RIGHT_WALL,
    SPEED_LIMIT, WORLD_HEIGHT};
use crate::math::{advance_coord, advanced, Vec2, Vec3};
use crate::rng::gen_range_u64;
use crate::timer::{ticked, Timer, TimerMode};

verus! {

pub struct EnemyPlugin;

/// Chance, in per-mille, that a shuriken bounces off this enemy instead of
/// killing it.
#[derive(Clone, Copy, PartialEq, Eq, Structural, Debug)]
pub struct ReflectChance(pub u32);

/// Which side of the screen an enemy launches from.
#[derive(Clone, Copy, PartialEq, Eq, Structural, Debug, Hash)]
pub enum StartingWall {
    Left,
    Right,
}

/// The kinds of enemy a wave can spawn.
#[derive(Clone, Copy, PartialEq, Eq, Structural, Debug, Hash)]
pub enum EnemyType {
    Pawn,
}

impl EnemyType {
    pub open spec fn spec_gravity(self) -> i64 {
        match self {
            EnemyType::Pawn => 420_000,
        }
    }

    pub open spec fn spec_speed(self) -> i64 {
        match self {
            EnemyType::Pawn => 600_000,
        }
    }

    /// Launch direction in per-mille of the launch speed, one value per axis.
    pub open spec fn spec_trajectory(self) -> Vec2 {
        match self {
            EnemyType::Pawn => Vec2 { x: 1000, y: 1000 },
        }
    }

    pub open spec fn spec_reflect_chance(self) -> u32 {
        match self {
            EnemyType::Pawn => 200,
        }
    }

    pub fn get_texture(&self, game_assets: &GameAssets) -> (r: AssetHandle)
        ensures
            r == game_assets.red_ninja,
    {
        match self {
            EnemyType::Pawn => game_assets.red_ninja,
        }
    }

    /// Downward acceleration, in milli-units per second per second.
    pub fn get_gravity(&self) -> (r: i64)
        ensures
            r == self.spec_gravity(),
            0 <= r <= SPEED_LIMIT,
    {
        match self {
            EnemyType::Pawn => 420_000,
        }
    }

    /// Launch speed, in milli-units per second.
    pub fn get_speed(&self) -> (r: i64)
        ensures
            r == self.spec_speed(),
            0 <= r <= SPEED_LIMIT,
    {
        match self {
            EnemyType::Pawn => 600_000,
        }
    }

    pub fn get_trajectory(&self) -> (r: Vec2)
        ensures
            r == self.spec_trajectory(),
    {
        match self {
            EnemyType::Pawn => Vec2 { x: 1000, y: 1000 },
        }
    }

    pub fn get_reflect_chance(&self) -> (r: u32)
        ensures
            r == self.spec_reflect_chance(),
    {
        match self {
            EnemyType::Pawn => 200,
        }
    }
}

/// A trajectory is valid when each axis lies in [0, 1] (per-mille 0..=1000).
pub open spec fn valid_trajectory(t: Vec2) -> bool {
    &&& 0 <= t.x <= 1000
    &&& 0 <= t.y <= 1000
}

/// Everything a freshly spawned enemy of `enemy_type` launched from
/// `starting_wall` is known to satisfy; only the wall-hang duration is
/// random, and only its range is promised.
pub open spec fn spec_enemy_spawn_matches(
    b: EnemyBundle,
    enemy_type: EnemyType,
    starting_wall: StartingWall,
) -> bool {
    let traj = enemy_type.spec_trajectory();
    let speed = enemy_type.spec_speed();
    let dir: int = if starting_wall is Left { 1 } else { -1 };
    &&& b.enemy.0 is Airborne
    &&& b.velocity.0.x == traj.x * speed * dir / 1000
    &&& b.velocity.0.y == traj.y * speed / 1000
    &&& b.gravity.0 == enemy_type.spec_gravity()
    &&& b.initial_enemy_speed.0 == traj.y * speed / 1000
    &&& b.transform.translation == (Vec3 {
        x: if starting_wall is Left { LEFT_WALL } else { RIGHT_WALL },
        y: -275_000i64,
        z: 1000i64,
    })
    &&& b.transform.scale == (Vec2 { x: 1000, y: 1000 })
    &&& b.wall_hanging_timer.0.mode is Repeating
    &&& b.wall_hanging_timer.0.elapsed_us == 0
    &&& 100_000 <= b.wall_hanging_timer.0.duration_us < 400_000
    &&& b.hitbox.0 == (Vec2 { x: 35_000, y: 60_000 })
    &&& b.reflect_chance.0 == enemy_type.spec_reflect_chance()
    &&& b.dimensions.0 == (Vec2 { x: 30_000, y: 30_000 })
    &&& !b.marked
    &&& b.wf()
}

/// One live enemy: its components, plus the despawn tag.
#[derive(Clone, Copy, PartialEq, Eq, Structural, Debug)]
pub struct EnemyBundle {
    pub enemy: Enemy,
    pub velocity: Velocity,
    pub gravity: Gravity,
    pub initial_enemy_speed: InitialEnemySpeed,
    pub wall_hanging_timer: WallHangingTimer,
    pub hitbox: HitBox,
    pub transform: Transform,
    pub sprite: SpriteFrame,
    pub reflect_chance: ReflectChance,
    pub dimensions: Dimensions,
    pub marked: bool,
}

impl EnemyBundle {
    pub open spec fn wf(self) -> bool {
        &&& self.transform.wf()
        &&& self.velocity.wf()
        &&& self.wall_hanging_timer.0.wf()
        &&& self.hitbox.wf()
        &&& self.dimensions.wf()
        &&& 0 <= self.gravity.0 <= SPEED_LIMIT
        &&& -SPEED_LIMIT <= self.initial_enemy_speed.0 <= SPEED_LIMIT
        &&& self.reflect_chance.0 <= 1000
    }

    /// Build an airborne enemy at the chosen wall.  The trajectory must lie
    /// in [0, 1] on each axis, or the construction is rejected; the
    /// wall-hang duration is drawn uniformly from [0.1 s, 0.4 s).
    pub fn new(
        enemy_type: EnemyType,
        starting_wall: StartingWall,
        rng: &mut rand::rngs::StdRng,
    ) -> (r: Result<EnemyBundle, String>)
        ensures
            r is Ok <==> valid_trajectory(enemy_type.spec_trajectory()),
            r matches Ok(b) ==> spec_enemy_spawn_matches(b, enemy_type, starting_wall),
    {
        let trajectory = enemy_type.get_trajectory();
        let enemy_speed = enemy_type.get_speed();
        let reflect_chance = enemy_type.get_reflect_chance();

        if trajectory.x < 0 || trajectory.x > 1000 || trajectory.y < 0 || trajectory.y > 1000 {
            return Err("The trajectory must be between 0 and 1".to_string());
        }

        let starting_x = match starting_wall {
            StartingWall::Left => LEFT_WALL,
            StartingWall::Right => RIGHT_WALL,
        };

        proof {
            assert(trajectory.x as int * enemy_speed as int <= 1000 * SPEED_LIMIT as int)
                by (nonlinear_arith)
                requires
                    0 <= trajectory.x as int <= 1000,
                    0 <= enemy_speed as int <= SPEED_LIMIT,
            ;
            assert(trajectory.y as int * enemy_speed as int <= 1000 * SPEED_LIMIT as int)
                by (nonlinear_arith)
                requires
                    0 <= trajectory.y as int <= 1000,
                    0 <= enemy_speed as int <= SPEED_LIMIT,
            ;
        }
        let launch_x: i64 = ((trajectory.x as u64 * enemy_speed as u64) / 1000) as i64;
        let launch_y: i64 = ((trajectory.y as u64 * enemy_speed as u64) / 1000) as i64;
        proof {
            vstd::arithmetic::div_mod::lemma_div_is_ordered(
                trajectory.x as int * enemy_speed as int, 1000 * SPEED_LIMIT as int, 1000);
            vstd::arithmetic::div_mod::lemma_div_is_ordered(
                trajectory.y as int * enemy_speed as int, 1000 * SPEED_LIMIT as int, 1000);
            vstd::arithmetic::div_mod::lemma_div_multiples_vanish(SPEED_LIMIT as int, 1000);
            vstd::arithmetic::div_mod::lemma_div_is_ordered(
                0, trajectory.x as int * enemy_speed as int, 1000);
            vstd::arithmetic::div_mod::lemma_div_is_ordered(
                0, trajectory.y as int * enemy_speed as int, 1000);
        }
        let vel_x: i64 = match starting_wall {
            StartingWall::Left => launch_x,
            StartingWall::Right => -launch_x,
        };

        let hang_us = gen_range_u64(rng, 100_000, 400_000);

        Ok(EnemyBundle {
            enemy: Enemy(EnemyState::Airborne),
            velocity: Velocity(Vec2 { x: vel_x, y: launch_y }),
            gravity: Gravity(enemy_type.get_gravity()),
            initial_enemy_speed: InitialEnemySpeed(launch_y),
            wall_hanging_timer: WallHangingTimer(Timer::new(hang_us, TimerMode::Repeating)),
            hitbox: HitBox(Vec2 { x: 35_000, y: 60_000 }),
            transform: Transform::from_translation(Vec3 { x: starting_x, y: -275_000, z: 1000 }),
            sprite: SpriteFrame { index: 0, flip_x: false },
            reflect_chance: ReflectChance(reflect_chance),
            dimensions: Dimensions(Vec2 { x: 30_000, y: 30_000 }),
            marked: false,
        })
    }

    /// The enemy's box touches a side wall while its velocity points at it.
    pub open spec fn moving_into_wall(self) -> bool {
        let left = self.transform.translation.x - self.dimensions.0.x / 2;
        let right = self.transform.translation.x + self.dimensions.0.x / 2;
        ||| (self.velocity.0.x < 0 && left < LEFT_WALL)
        ||| (self.velocity.0.x > 0 && right > RIGHT_WALL)
    }
}

/// One enemy advanced by one movement tick.  Pressed against a wall, the
/// enemy freezes and its hang timer runs: when the timer fires, the
/// horizontal velocity is negated once and the vertical velocity is reset to
/// the cached launch speed; until then the enemy hangs.  Away from walls the
/// enemy moves ballistically.  An enemy that escapes over the top bound and
/// is not dead is tagged for despawn.
pub open spec fn spec_enemy_step(e: EnemyBundle, dt: int) -> EnemyBundle {
    let stepped = if e.moving_into_wall() {
        let t = ticked(e.wall_hanging_timer.0, dt);
        if t.fired {
            EnemyBundle {
                enemy: Enemy(EnemyState::Airborne),
                velocity: Velocity(
                    Vec2 { x: (-e.velocity.0.x) as i64, y: e.initial_enemy_speed.0 },
                ),
                wall_hanging_timer: WallHangingTimer(t),
                ..e
            }
        } else {
            EnemyBundle {
                enemy: Enemy(EnemyState::WallHanging),
                wall_hanging_timer: WallHangingTimer(t),
                ..e
            }
        }
    } else {
        EnemyBundle {
            transform: Transform {
                translation: Vec3 {
                    x: advanced(e.transform.translation.x as int, e.velocity.0.x as int, dt) as i64,
                    y: advanced(e.transform.translation.y as int, e.velocity.0.y as int, dt) as i64,
                    z: e.transform.translation.z,
                },
                ..e.transform
            },
            ..e
        }
    };
    if stepped.transform.translation.y > WORLD_HEIGHT / 2 + DESPAWN_MARGIN
        && !(stepped.enemy.0 is Dead) {
        EnemyBundle { marked: true, ..stepped }
    } else {
        stepped
    }
}

/// One movement tick of a single enemy record.
fn enemy_step(e: &mut EnemyBundle, dt: u64)
    requires
        old(e).wf(),
        dt <= DELTA_LIMIT,
    ensures
        *final(e) == spec_enemy_step(*old(e), dt as int),
        final(e).wf(),
{
    let left = e.transform.translation.x - crate::math::half_extent(e.dimensions.0.x);
    let right = e.transform.translation.x + crate::math::half_extent(e.dimensions.0.x);
    let toward_wall = (e.velocity.0.x < 0 && left < LEFT_WALL)
        || (e.velocity.0.x > 0 && right > RIGHT_WALL);
    if toward_wall {
        e.wall_hanging_timer.0.tick(dt);
        if e.wall_hanging_timer.0.just_finished() {
            e.velocity.0.x = -e.velocity.0.x;
            e.velocity.0.y = e.initial_enemy_speed.0;
            e.enemy.0 = EnemyState::Airborne;
        } else {
            e.enemy.0 = EnemyState::WallHanging;
        }
    } else {
        e.transform.translation.x = advance_coord(e.transform.translation.x, e.velocity.0.x, dt);
        e.transform.translation.y = advance_coord(e.transform.translation.y, e.velocity.0.y, dt);
    }
    if e.transform.translation.y > WORLD_HEIGHT / 2 + DESPAWN_MARGIN
        && e.enemy.0 != EnemyState::Dead {
        e.marked = true;
    }
}

/// Advance every enemy by one movement tick.
pub fn enemy_movement(enemies: &mut Vec<EnemyBundle>, dt: u64)
    requires
        forall|i: int| 0 <= i < old(enemies)@.len() ==> #[trigger] old(enemies)@[i].wf(),
        dt <= DELTA_LIMIT,
    ensures
        final(enemies)@.len() == old(enemies)@.len(),
        forall|i: int| 0 <= i < old(enemies)@.len()
            ==> #[trigger] final(enemies)@[i] == spec_enemy_step(old(enemies)@[i], dt as int),
        forall|i: int| 0 <= i < final(enemies)@.len() ==> #[trigger] final(enemies)@[i].wf(),
{
    let ghost orig = enemies@;
    let mut i: usize = 0;
    while i < enemies.len()
        invariant
            i <= enemies@.len(),
            enemies@.len() == orig.len(),
            dt <= DELTA_LIMIT,
            forall|j: int| 0 <= j < orig.len() ==> #[trigger] orig[j].wf(),
            forall|j: int| i <= j < orig.len() ==> #[trigger] enemies@[j] == orig[j],
            forall|j: int| 0 <= j < i
                ==> #[trigger] enemies@[j] == spec_enemy_step(orig[j], dt as int),
            forall|j: int| 0 <= j < i ==> #[trigger] enemies@[j].wf(),
        decreases enemies@.len() - i,
    {
        let mut e = enemies[i];
        enemy_step(&mut e, dt);
        enemies.set(i, e);
        i = i + 1;
    }
}

/// One gravity tick: airborne enemies accelerate downward; hanging and dead
/// enemies keep their velocity.
pub open spec fn spec_gravity_step(e: EnemyBundle, dt: int) -> EnemyBundle {
    if e.enemy.0 is Airborne {
        EnemyBundle {
            velocity: Velocity(
                Vec2 {
                    x: e.velocity.0.x,
                    y: crate::math::decelerated(e.velocity.0.y as int, e.gravity.0 as int, dt) as i64,
                },
            ),
            ..e
        }
    } else {
        e
    }
}

/// Apply gravity to every airborne enemy.
pub fn gravity_system(enemies: &mut Vec<EnemyBundle>, dt: u64)
    requires
        forall|i: int| 0 <= i < old(enemies)@.len() ==> #[trigger] old(enemies)@[i].wf(),
        dt <= DELTA_LIMIT,
    ensures
        final(enemies)@.len() == old(enemies)@.len(),
        forall|i: int| 0 <= i < old(enemies)@.len()
            ==> #[trigger] final(enemies)@[i] == spec_gravity_step(old(enemies)@[i], dt as int),
        forall|i: int| 0 <= i < final(enemies)@.len() ==> #[trigger] final(enemies)@[i].wf(),
{
    let ghost orig = enemies@;
    let mut i: usize = 0;
    while i < enemies.len()
        invariant
            i <= enemies@.len(),
            enemies@.len() == orig.len(),
            dt <= DELTA_LIMIT,
            forall|j: int| 0 <= j < orig.len() ==> #[trigger] orig[j].wf(),
            forall|j: int| i <= j < orig.len() ==> #[trigger] enemies@[j] == orig[j],
            forall|j: int| 0 <= j < i
                ==> #[trigger] enemies@[j] == spec_gravity_step(orig[j], dt as int),
            forall|j: int| 0 <= j < i ==> #[trigger] enemies@[j].wf(),
        decreases enemies@.len() - i,
    {
        proof {
            assert(enemies@[i as int] == orig[i as int]);
            assert(orig[i as int].wf());
        }
        let mut e = enemies[i];
        if e.enemy.0 == EnemyState::Airborne {
            e.velocity.0.y = crate::math::apply_gravity(e.velocity.0.y, e.gravity.0, dt);
        }
        enemies.set(i, e);
        i = i + 1;
    }
}

/// The sprite cell an enemy shows, from its state and heading.
pub open spec fn spec_enemy_sprite(e: EnemyBundle) -> SpriteFrame {
    if e.enemy.0 is WallHanging {
        SpriteFrame { index: if e.velocity.0.x > 0 { 3 } else { 2 }, flip_x: e.sprite.flip_x }
    } else if e.enemy.0 is Airborne {
        SpriteFrame { index: if e.velocity.0.x < 0 { 1 } else { 0 }, flip_x: e.sprite.flip_x }
    } else {
        e.sprite
    }
}

/// Point every enemy sprite the way its state and heading demand.
pub fn enemy_animator(enemies: &mut Vec<EnemyBundle>)
    ensures
        final(enemies)@.len() == old(enemies)@.len(),
        forall|i: int| 0 <= i < old(enemies)@.len() ==> #[trigger] final(enemies)@[i]
            == (EnemyBundle { sprite: spec_enemy_sprite(old(enemies)@[i]), ..old(enemies)@[i] }),
{
    let ghost orig = enemies@;
    let mut i: usize = 0;
    while i < enemies.len()
        invariant
            i <= enemies@.len(),
            enemies@.len() == orig.len(),
            forall|j: int| i <= j < orig.len() ==> #[trigger] enemies@[j] == orig[j],
            forall|j: int| 0 <= j < i ==> #[trigger] enemies@[j]
                == (EnemyBundle { sprite: spec_enemy_sprite(orig[j]), ..orig[j] }),
        decreases enemies@.len() - i,
    {
        let mut e = enemies[i];
        if e.enemy.0 == EnemyState::WallHanging {
            if e.velocity.0.x > 0 {
                e.sprite.index = 3;
            } else {
                e.sprite.index = 2;
            }
        } else if e.enemy.0 == EnemyState::Airborne {
            if e.velocity.0.x < 0 {
                e.sprite.index = 1;
            } else {
                e.sprite.index = 0;
            }
        }
        enemies.set(i, e);
        i = i + 1;
    }
}

/// Law: while an enemy is pressed against a wall, its horizontal velocity
/// flips exactly once per completion of the wall-hang timer — on the tick
/// the timer fires the sign of `velocity.x` is negated and `velocity.y` is
/// reset to the cached launch speed; on every other tick the velocity is
/// untouched and the enemy keeps hanging.
pub proof fn lemma_wall_hang_recoil(e: EnemyBundle, dt: int)
    requires
        e.wf(),
        0 <= dt <= DELTA_LIMIT,
        e.moving_into_wall(),
    ensures
        ticked(e.wall_hanging_timer.0, dt).fired ==> {
            &&& spec_enemy_step(e, dt).velocity.0.x == -e.velocity.0.x
            &&& spec_enemy_step(e, dt).velocity.0.y == e.initial_enemy_speed.0
            &&& spec_enemy_step(e, dt).enemy.0 is Airborne
        },
        !ticked(e.wall_hanging_timer.0, dt).fired ==> {
            &&& spec_enemy_step(e, dt).velocity == e.velocity
            &&& spec_enemy_step(e, dt).enemy.0 is WallHanging
        },
        spec_enemy_step(e, dt).transform == e.transform,
{
}

} // verus!
