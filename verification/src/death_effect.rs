//! The short-lived death effect spawned where an enemy dies: it drifts
//! upward, plays four sprite cells, then tags itself for despawn.

use vstd::prelude::*;

use crate::components::{AnimationTimer, Effect, SpriteFrame, Transform, Velocity};
use crate::constants::{COORD_LIMIT, DELTA_LIMIT, FALLING_SPEED};
use crate::math::{advance_coord, advanced, Vec2, Vec3};
use crate::timer::{ticked, Timer, TimerMode};

verus! {

/// One live death effect: its components, plus the despawn tag.
#[derive(Clone, Copy, PartialEq, Eq, Structural, Debug)]
pub struct DeathEffectBundle {
    pub effect: Effect,
    pub animation_timer: AnimationTimer,
    pub velocity: Velocity,
    pub transform: Transform,
    pub sprite: SpriteFrame,
    pub marked: bool,
}

/// The record a fresh death effect at `starting_pos` holds.
pub open spec fn spec_death_effect_at(starting_pos: Vec3) -> DeathEffectBundle {
    DeathEffectBundle {
        effect: Effect,
        animation_timer: AnimationTimer(
            Timer {
                elapsed_us: 0,
                duration_us: 150_000,
                mode: TimerMode::Repeating,
                fired: false,
            },
        ),
        velocity: Velocity(Vec2 { x: 0, y: FALLING_SPEED }),
        transform: Transform {
            translation: starting_pos,
            scale: Vec2 { x: 1000, y: 1000 },
            rotation_mdeg: 0,
        },
        sprite: SpriteFrame { index: 0, flip_x: false },
        marked: false,
    }
}

impl DeathEffectBundle {
    pub open spec fn wf(self) -> bool {
        &&& self.transform.wf()
        &&& self.velocity.wf()
        &&& self.animation_timer.0.wf()
    }

    /// A fresh death effect drifting upward from `starting_pos`.
    pub fn new(starting_pos: Vec3) -> (r: DeathEffectBundle)
        requires
            -COORD_LIMIT <= starting_pos.x <= COORD_LIMIT,
            -COORD_LIMIT <= starting_pos.y <= COORD_LIMIT,
            -COORD_LIMIT <= starting_pos.z <= COORD_LIMIT,
        ensures
            r == spec_death_effect_at(starting_pos),
            r.wf(),
    {
        DeathEffectBundle {
            effect: Effect,
            animation_timer: AnimationTimer(Timer::new(150_000, TimerMode::Repeating)),
            velocity: Velocity(Vec2 { x: 0, y: FALLING_SPEED }),
            transform: Transform::from_translation(starting_pos),
            sprite: SpriteFrame { index: 0, flip_x: false },
            marked: false,
        }
    }
}

/// One tick of a death effect: it drifts by its velocity; each time its
/// timer fires the next sprite cell shows, and past the last cell it is
/// tagged for despawn.
pub open spec fn spec_death_effect_step(e: DeathEffectBundle, dt: int) -> DeathEffectBundle {
    let t = ticked(e.animation_timer.0, dt);
    let moved = DeathEffectBundle {
        transform: Transform {
            translation: Vec3 {
                x: e.transform.translation.x,
                y: advanced(e.transform.translation.y as int, e.velocity.0.y as int, dt) as i64,
                z: e.transform.translation.z,
            },
            ..e.transform
        },
        animation_timer: AnimationTimer(t),
        ..e
    };
    if t.fired {
        if e.sprite.index >= 3 {
            DeathEffectBundle { marked: true, ..moved }
        } else {
            DeathEffectBundle {
                sprite: SpriteFrame { index: (e.sprite.index + 1) as usize, ..e.sprite },
                ..moved
            }
        }
    } else {
        moved
    }
}

/// Advance every death effect by one tick.
pub fn death_effect_animator(effects: &mut Vec<DeathEffectBundle>, dt: u64)
    requires
        forall|i: int| 0 <= i < old(effects)@.len() ==> #[trigger] old(effects)@[i].wf(),
        dt <= DELTA_LIMIT,
    ensures
        final(effects)@.len() == old(effects)@.len(),
        forall|i: int| 0 <= i < old(effects)@.len()
            ==> #[trigger] final(effects)@[i] == spec_death_effect_step(old(effects)@[i], dt as int),
        forall|i: int| 0 <= i < final(effects)@.len() ==> #[trigger] final(effects)@[i].wf(),
{
    let ghost orig = effects@;
    let mut i: usize = 0;
    while i < effects.len()
        invariant
            i <= effects@.len(),
            effects@.len() == orig.len(),
            dt <= DELTA_LIMIT,
            forall|j: int| 0 <= j < orig.len() ==> #[trigger] orig[j].wf(),
            forall|j: int| i <= j < orig.len() ==> #[trigger] effects@[j] == orig[j],
            forall|j: int| 0 <= j < i
                ==> #[trigger] effects@[j] == spec_death_effect_step(orig[j], dt as int),
            forall|j: int| 0 <= j < i ==> #[trigger] effects@[j].wf(),
        decreases effects@.len() - i,
    {
        proof {
            assert(effects@[i as int] == orig[i as int]);
            assert(orig[i as int].wf());
        }
        let mut e = effects[i];
        let ghost before = e;
        e.transform.translation.y = advance_coord(e.transform.translation.y, e.velocity.0.y, dt);
        e.animation_timer.0.tick(dt);
        if e.animation_timer.0.just_finished() {
            if e.sprite.index >= 3 {
                e.marked = true;
            } else {
                e.sprite.index = e.sprite.index + 1;
            }
        }
        proof {
            assert(e == spec_death_effect_step(before, dt as int));
        }
        effects.set(i, e);
        i = i + 1;
    }
}

} // verus!
