//! Shuriken records and their per-frame systems: straight fall, the side
//! wall clamp, visual spin, and the reflected trajectory recomputed every
//! tick from the stored reflection offset and the cached speed.

use vstd::prelude::*;

use crate::components::{AnimationTimer, HitBox, Shuriken, SpriteFrame, Transform, Velocity};
use crate::constants::{COORD_LIMIT, DELTA_LIMIT, DESPAWN_MARGIN, FALLING_SPEED, LEFT_WALL,
    RIGHT_WALL, SPEED_LIMIT, WORLD_HEIGHT};
use crate::math::{advance_coord, advanced, motion_step, reflected_velocity,
    reflection_velocity_x, reflection_velocity_y, scale_by_delta, Vec2, Vec3};
use crate::timer::{Timer, TimerMode};

verus! {

pub struct ShurikenPlugin;

/// Speed, in milli-units per second, a reflected shuriken flies at; zeroed
/// when an unreflected shuriken is pinned against a side wall.
#[derive(Clone, Copy, PartialEq, Eq, Structural, Debug)]
pub struct ShurikenSpeed(pub i64);

/// The reflection record: the offset from the shuriken to the player at the
/// moment of reflection.  It fixes the flight direction for every later
/// tick.
#[derive(Clone, Copy, PartialEq, Eq, Structural, Debug)]
pub struct Reflected {
    pub dx: i64,
    pub dy: i64,
}

/// One live shuriken: its components, the optional reflection record, and
/// the despawn tag.
#[derive(Clone, Copy, PartialEq, Eq, Structural, Debug)]
pub struct ShurikenBundle {
    pub shuriken: Shuriken,
    pub animation_timer: AnimationTimer,
    pub velocity: Velocity,
    pub hitbox: HitBox,
    pub transform: Transform,
    pub speed: ShurikenSpeed,
    pub reflected: Option<Reflected>,
    pub marked: bool,
}

/// The record a fresh shuriken at `starting_pos` with cached `speed` holds.
pub open spec fn spec_shuriken_at(starting_pos: Vec3, speed: i64) -> ShurikenBundle {
    ShurikenBundle {
        shuriken: Shuriken,
        animation_timer: AnimationTimer(
            Timer {
                elapsed_us: 0,
                duration_us: 2_000_000,
                mode: TimerMode::Repeating,
                fired: false,
            },
        ),
        velocity: Velocity(Vec2 { x: 0, y: -400_000i64 }),
        hitbox: HitBox(Vec2 { x: 8000, y: 8000 }),
        transform: Transform {
            translation: starting_pos,
            scale: Vec2 { x: 1000, y: 1000 },
            rotation_mdeg: 0,
        },
        speed: ShurikenSpeed(speed),
        reflected: None,
        marked: false,
    }
}

impl ShurikenBundle {
    pub open spec fn wf(self) -> bool {
        &&& self.transform.wf()
        &&& self.velocity.wf()
        &&& self.hitbox.wf()
        &&& self.animation_timer.0.wf()
        &&& 0 <= self.speed.0 <= SPEED_LIMIT
        &&& self.reflected matches Some(d)
            ==> -2 * COORD_LIMIT <= d.dx <= 2 * COORD_LIMIT
                && -2 * COORD_LIMIT <= d.dy <= 2 * COORD_LIMIT
    }

    /// A fresh shuriken falling straight down from `starting_pos`.
    pub fn new(starting_pos: Vec3, shuriken_speed: i64) -> (s: ShurikenBundle)
        requires
            -COORD_LIMIT <= starting_pos.x <= COORD_LIMIT,
            -COORD_LIMIT <= starting_pos.y <= COORD_LIMIT,
            -COORD_LIMIT <= starting_pos.z <= COORD_LIMIT,
            0 <= shuriken_speed <= SPEED_LIMIT,
        ensures
            s == spec_shuriken_at(starting_pos, shuriken_speed),
            s.wf(),
    {
        ShurikenBundle {
            shuriken: Shuriken,
            animation_timer: AnimationTimer(Timer::new(2_000_000, TimerMode::Repeating)),
            velocity: Velocity(Vec2 { x: 0, y: -400_000 }),
            hitbox: HitBox(Vec2 { x: 8000, y: 8000 }),
            transform: Transform::from_translation(starting_pos),
            speed: ShurikenSpeed(shuriken_speed),
            reflected: None,
            marked: false,
        }
    }

    /// An unreflected shuriken is pinned when it reaches a side wall.
    pub open spec fn touching_side(self) -> bool {
        self.transform.translation.x < LEFT_WALL || self.transform.translation.x > RIGHT_WALL
    }

    /// Past any world bound, with the despawn margin.
    pub open spec fn out_of_bounds_after(x: int, y: int) -> bool {
        ||| y < -WORLD_HEIGHT / 2 - DESPAWN_MARGIN
        ||| y > WORLD_HEIGHT / 2 + DESPAWN_MARGIN
        ||| x < LEFT_WALL - DESPAWN_MARGIN
        ||| x > RIGHT_WALL + DESPAWN_MARGIN
    }
}

/// One movement tick of a shuriken.  An unreflected shuriken that reaches a
/// side wall loses its forward speed and falls at the ambient fall speed;
/// otherwise the shuriken moves by its velocity.  A shuriken that falls
/// below the lower bound — or, once reflected, exits any bound — is tagged
/// for despawn.
pub open spec fn spec_shuriken_step(s: ShurikenBundle, dt: int) -> ShurikenBundle {
    let stepped = if s.reflected is None && s.touching_side() {
        ShurikenBundle {
            speed: ShurikenSpeed(0),
            transform: Transform {
                translation: Vec3 {
                    x: s.transform.translation.x,
                    y: advanced(
                        s.transform.translation.y as int, -FALLING_SPEED as int, dt) as i64,
                    z: s.transform.translation.z,
                },
                ..s.transform
            },
            ..s
        }
    } else {
        ShurikenBundle {
            transform: Transform {
                translation: Vec3 {
                    x: advanced(s.transform.translation.x as int, s.velocity.0.x as int, dt) as i64,
                    y: advanced(s.transform.translation.y as int, s.velocity.0.y as int, dt) as i64,
                    z: s.transform.translation.z,
                },
                ..s.transform
            },
            ..s
        }
    };
    let x = stepped.transform.translation.x as int;
    let y = stepped.transform.translation.y as int;
    if y < -WORLD_HEIGHT / 2 - DESPAWN_MARGIN {
        ShurikenBundle { marked: true, ..stepped }
    } else if stepped.reflected is Some && ShurikenBundle::out_of_bounds_after(x, y) {
        ShurikenBundle { marked: true, ..stepped }
    } else {
        stepped
    }
}

/// One movement tick of a single shuriken record.
fn shuriken_step(s: &mut ShurikenBundle, dt: u64)
    requires
        old(s).wf(),
        dt <= DELTA_LIMIT,
    ensures
        *final(s) == spec_shuriken_step(*old(s), dt as int),
        final(s).wf(),
{
    let touching = s.transform.translation.x < LEFT_WALL || s.transform.translation.x > RIGHT_WALL;
    if s.reflected.is_none() && touching {
        s.speed.0 = 0;
        s.transform.translation.y = advance_coord(s.transform.translation.y, -FALLING_SPEED, dt);
    } else {
        s.transform.translation.x = advance_coord(s.transform.translation.x, s.velocity.0.x, dt);
        s.transform.translation.y = advance_coord(s.transform.translation.y, s.velocity.0.y, dt);
    }
    let x = s.transform.translation.x;
    let y = s.transform.translation.y;
    if y < -WORLD_HEIGHT / 2 - DESPAWN_MARGIN {
        s.marked = true;
    } else if s.reflected.is_some()
        && (y > WORLD_HEIGHT / 2 + DESPAWN_MARGIN
            || x < LEFT_WALL - DESPAWN_MARGIN
            || x > RIGHT_WALL + DESPAWN_MARGIN) {
        s.marked = true;
    }
}

/// Advance every shuriken by one movement tick.
pub fn shuriken_movement(shurikens: &mut Vec<ShurikenBundle>, dt: u64)
    requires
        forall|i: int| 0 <= i < old(shurikens)@.len() ==> #[trigger] old(shurikens)@[i].wf(),
        dt <= DELTA_LIMIT,
    ensures
        final(shurikens)@.len() == old(shurikens)@.len(),
        forall|i: int| 0 <= i < old(shurikens)@.len()
            ==> #[trigger] final(shurikens)@[i] == spec_shuriken_step(old(shurikens)@[i], dt as int),
        forall|i: int| 0 <= i < final(shurikens)@.len() ==> #[trigger] final(shurikens)@[i].wf(),
{
    let ghost orig = shurikens@;
    let mut i: usize = 0;
    while i < shurikens.len()
        invariant
            i <= shurikens@.len(),
            shurikens@.len() == orig.len(),
            dt <= DELTA_LIMIT,
            forall|j: int| 0 <= j < orig.len() ==> #[trigger] orig[j].wf(),
            forall|j: int| i <= j < orig.len() ==> #[trigger] shurikens@[j] == orig[j],
            forall|j: int| 0 <= j < i
                ==> #[trigger] shurikens@[j] == spec_shuriken_step(orig[j], dt as int),
            forall|j: int| 0 <= j < i ==> #[trigger] shurikens@[j].wf(),
        decreases shurikens@.len() - i,
    {
        proof {
            assert(shurikens@[i as int] == orig[i as int]);
            assert(orig[i as int].wf());
        }
        let mut s = shurikens[i];
        shuriken_step(&mut s, dt);
        shurikens.set(i, s);
        i = i + 1;
    }
}

/// One spin tick: a moving shuriken turns 1060 degrees per second, the
/// angle kept in [0, 360) degrees.
pub open spec fn spec_spin_step(s: ShurikenBundle, dt: int) -> ShurikenBundle {
    if s.speed.0 > 0 {
        ShurikenBundle {
            transform: Transform {
                rotation_mdeg: ((s.transform.rotation_mdeg + motion_step(1_060_000, dt))
                    % 360_000) as i64,
                ..s.transform
            },
            ..s
        }
    } else {
        s
    }
}

/// Spin every moving shuriken.
pub fn shuriken_animator(shurikens: &mut Vec<ShurikenBundle>, dt: u64)
    requires
        forall|i: int| 0 <= i < old(shurikens)@.len() ==> #[trigger] old(shurikens)@[i].wf(),
        dt <= DELTA_LIMIT,
    ensures
        final(shurikens)@.len() == old(shurikens)@.len(),
        forall|i: int| 0 <= i < old(shurikens)@.len()
            ==> #[trigger] final(shurikens)@[i] == spec_spin_step(old(shurikens)@[i], dt as int),
        forall|i: int| 0 <= i < final(shurikens)@.len() ==> #[trigger] final(shurikens)@[i].wf(),
{
    let ghost orig = shurikens@;
    let mut i: usize = 0;
    while i < shurikens.len()
        invariant
            i <= shurikens@.len(),
            shurikens@.len() == orig.len(),
            dt <= DELTA_LIMIT,
            forall|j: int| 0 <= j < orig.len() ==> #[trigger] orig[j].wf(),
            forall|j: int| i <= j < orig.len() ==> #[trigger] shurikens@[j] == orig[j],
            forall|j: int| 0 <= j < i
                ==> #[trigger] shurikens@[j] == spec_spin_step(orig[j], dt as int),
            forall|j: int| 0 <= j < i ==> #[trigger] shurikens@[j].wf(),
        decreases shurikens@.len() - i,
    {
        proof {
            assert(shurikens@[i as int] == orig[i as int]);
            assert(orig[i as int].wf());
        }
        let mut s = shurikens[i];
        if s.speed.0 > 0 {
            let turn = scale_by_delta(1_060_000, dt);
            let total: u64 = (s.transform.rotation_mdeg as u64) + (turn as u64);
            s.transform.rotation_mdeg = (total % 360_000) as i64;
        }
        shurikens.set(i, s);
        i = i + 1;
    }
}

/// The velocity a reflection record dictates for a shuriken.
pub open spec fn spec_reflect_step(s: ShurikenBundle) -> ShurikenBundle {
    match s.reflected {
        Some(d) => if !s.marked {
            ShurikenBundle {
                velocity: Velocity(
                    Vec2 {
                        x: reflection_velocity_x(d.dx as int, d.dy as int, s.speed.0 as int) as i64,
                        y: reflection_velocity_y(d.dx as int, d.dy as int, s.speed.0 as int) as i64,
                    },
                ),
                ..s
            }
        } else {
            s
        },
        None => s,
    }
}

/// Recompute the velocity of every reflected, unmarked shuriken from its
/// reflection offset and cached speed.
pub fn reflect_projectile(shurikens: &mut Vec<ShurikenBundle>)
    requires
        forall|i: int| 0 <= i < old(shurikens)@.len() ==> #[trigger] old(shurikens)@[i].wf(),
    ensures
        final(shurikens)@.len() == old(shurikens)@.len(),
        forall|i: int| 0 <= i < old(shurikens)@.len()
            ==> #[trigger] final(shurikens)@[i] == spec_reflect_step(old(shurikens)@[i]),
        forall|i: int| 0 <= i < final(shurikens)@.len() ==> #[trigger] final(shurikens)@[i].wf(),
{
    let ghost orig = shurikens@;
    let mut i: usize = 0;
    while i < shurikens.len()
        invariant
            i <= shurikens@.len(),
            shurikens@.len() == orig.len(),
            forall|j: int| 0 <= j < orig.len() ==> #[trigger] orig[j].wf(),
            forall|j: int| i <= j < orig.len() ==> #[trigger] shurikens@[j] == orig[j],
            forall|j: int| 0 <= j < i
                ==> #[trigger] shurikens@[j] == spec_reflect_step(orig[j]),
            forall|j: int| 0 <= j < i ==> #[trigger] shurikens@[j].wf(),
        decreases shurikens@.len() - i,
    {
        proof {
            assert(shurikens@[i as int] == orig[i as int]);
            assert(orig[i as int].wf());
        }
        let mut s = shurikens[i];
        match s.reflected {
            Some(d) => {
                if !s.marked {
                    let v = reflected_velocity(d.dx, d.dy, s.speed.0);
                    s.velocity = Velocity(v);
                }
            }
            None => {}
        }
        shurikens.set(i, s);
        i = i + 1;
    }
}

/// Law: while a shuriken is not reflected, a movement tick keeps its x
/// coordinate and strictly lowers its y coordinate, as long as it still
/// falls (downward velocity of at least the launch fall speed) and the tick
/// covers at least three microseconds of time.
pub proof fn lemma_unreflected_drop(s: ShurikenBundle, dt: int)
    requires
        s.wf(),
        s.reflected is None,
        s.velocity.0.x == 0,
        s.velocity.0.y <= -400_000,
        s.transform.translation.y > -WORLD_HEIGHT / 2 - DESPAWN_MARGIN,
        3 <= dt <= DELTA_LIMIT,
    ensures
        spec_shuriken_step(s, dt).transform.translation.x == s.transform.translation.x,
        spec_shuriken_step(s, dt).transform.translation.y < s.transform.translation.y,
{
    let y = s.transform.translation.y as int;
    let v: int = if s.touching_side() { -FALLING_SPEED as int } else { s.velocity.0.y as int };
    assert((-v) * dt >= 1_000_000) by (nonlinear_arith)
        requires
            -v >= 400_000,
            dt >= 3,
    ;
    vstd::arithmetic::div_mod::lemma_div_is_ordered(1_000_000, (-v) * dt, 1_000_000);
    assert(motion_step(v, dt) <= -1);
    if !s.touching_side() {
        assert(0 * dt == 0) by (nonlinear_arith);
        vstd::arithmetic::div_mod::lemma_div_of0(1_000_000);
        assert(motion_step(0, dt) == 0);
    }
}

/// Law: the reflected trajectory is deterministic and steady.  Once a
/// shuriken carries a reflection record, the velocity recomputed on any
/// later tick equals the velocity the record dictated at the moment of
/// reflection — a pure function of the stored offset and the cached speed —
/// and its squared magnitude never exceeds the squared cached speed.
pub proof fn lemma_reflected_velocity_steady(s: ShurikenBundle, dt: int)
    requires
        s.wf(),
        s.reflected is Some,
        0 <= dt <= DELTA_LIMIT,
    ensures
        ({
            let once = spec_reflect_step(s);
            let again = spec_reflect_step(spec_shuriken_step(once, dt));
            &&& again.velocity == once.velocity
            &&& !s.marked ==> once.velocity.0.x * once.velocity.0.x
                + once.velocity.0.y * once.velocity.0.y <= s.speed.0 * s.speed.0
        }),
{
    let d = match s.reflected {
        Some(d) => d,
        None => arbitrary(),
    };
    crate::math::lemma_reflection_speed_bound(d.dx as int, d.dy as int, s.speed.0 as int);
    let rx = reflection_velocity_x(d.dx as int, d.dy as int, s.speed.0 as int);
    let ry = reflection_velocity_y(d.dx as int, d.dy as int, s.speed.0 as int);
    assert(-SPEED_LIMIT <= rx <= SPEED_LIMIT && -SPEED_LIMIT <= ry <= SPEED_LIMIT)
        by (nonlinear_arith)
        requires
            rx * rx + ry * ry <= s.speed.0 as int * s.speed.0 as int,
            0 <= s.speed.0 <= SPEED_LIMIT,
    ;
    let once = spec_reflect_step(s);
    let moved = spec_shuriken_step(once, dt);
    assert(moved.reflected == s.reflected);
    assert(moved.speed == once.speed);
    assert(moved.velocity == once.velocity);
}

} // verus!
