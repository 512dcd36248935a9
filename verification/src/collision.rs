//! Shuriken-versus-enemy collision: the axis-aligned overlap test, the
//! probabilistic outcome, and the frame's collision pass.
//!
//! Each frame every unmarked shuriken is tested against the enemies in
//! store order; the first unmarked enemy it overlaps decides the outcome
//! (first match wins), and the shuriken is not reconsidered that frame.  A
//! wall-hanging enemy always reflects the shuriken; an airborne enemy
//! reflects it when a fresh uniform roll falls under its reflect chance and
//! otherwise dies: both records are tagged for despawn, a death effect is
//! spawned in the enemy's place, and the impact and death cues are emitted.
//! A dead enemy never reaches the scan: it is tagged the frame it dies.

use vstd::prelude::*;
use vstd::set_lib::set_int_range;

use crate::audio::SFXEvents;
use crate::components::{Enemy, EnemyState, Transform};
use crate::constants::{COORD_LIMIT, EXTENT_LIMIT, SCALE_LIMIT};
use crate::death_effect::{spec_death_effect_at, DeathEffectBundle};
use crate::enemy::EnemyBundle;
use crate::math::{scaled_extent, Vec2, Vec3};
use crate::rng::gen_range_u64;
use crate::shuriken::{Reflected, ShurikenBundle};

verus! {

pub struct CollisionPlugin;

/// What a detected overlap does to the colliding pair.
#[derive(Clone, Copy, PartialEq, Eq, Structural, Debug)]
pub enum CollisionOutcome {
    /// The shuriken bounces toward the player; the enemy is untouched.
    Reflect,
    /// Shuriken and enemy are both despawned and the enemy dies.
    Kill,
}

/// Strict axis-aligned overlap of two boxes given by their centres and full
/// extents.
pub open spec fn spec_collide(
    a_pos: Vec3,
    a_w: int,
    a_h: int,
    b_pos: Vec3,
    b_w: int,
    b_h: int,
) -> bool {
    &&& a_pos.x - a_w / 2 < b_pos.x + b_w / 2
    &&& b_pos.x - b_w / 2 < a_pos.x + a_w / 2
    &&& a_pos.y - a_h / 2 < b_pos.y + b_h / 2
    &&& b_pos.y - b_h / 2 < a_pos.y + a_h / 2
}

/// A shuriken's box scaled by its sprite scale, against an enemy's.
pub open spec fn spec_pair_overlap(s: ShurikenBundle, e: EnemyBundle) -> bool {
    spec_collide(
        s.transform.translation,
        s.hitbox.0.x * s.transform.scale.x / 1000,
        s.hitbox.0.y * s.transform.scale.y / 1000,
        e.transform.translation,
        e.hitbox.0.x * e.transform.scale.x / 1000,
        e.hitbox.0.y * e.transform.scale.y / 1000,
    )
}

/// The overlap test as executable code.
pub fn collide(s: &ShurikenBundle, e: &EnemyBundle) -> (r: bool)
    requires
        s.wf(),
        e.wf(),
    ensures
        r == spec_pair_overlap(*s, *e),
{
    let a_w = scaled_extent(s.hitbox.0.x, s.transform.scale.x);
    let a_h = scaled_extent(s.hitbox.0.y, s.transform.scale.y);
    let b_w = scaled_extent(e.hitbox.0.x, e.transform.scale.x);
    let b_h = scaled_extent(e.hitbox.0.y, e.transform.scale.y);
    let a = &s.transform.translation;
    let b = &e.transform.translation;
    let ax_min = a.x - crate::math::half_extent(a_w);
    let ax_max = a.x + crate::math::half_extent(a_w);
    let ay_min = a.y - crate::math::half_extent(a_h);
    let ay_max = a.y + crate::math::half_extent(a_h);
    let bx_min = b.x - crate::math::half_extent(b_w);
    let bx_max = b.x + crate::math::half_extent(b_w);
    let by_min = b.y - crate::math::half_extent(b_h);
    let by_max = b.y + crate::math::half_extent(b_h);
    ax_min < bx_max && bx_min < ax_max && ay_min < by_max && by_min < ay_max
}

/// The outcome of an overlap: a wall-hanging enemy always reflects; an
/// airborne enemy reflects exactly when the roll falls below its chance,
/// and otherwise dies.
pub open spec fn spec_collision_outcome(state: EnemyState, roll: int, chance: u32)
    -> CollisionOutcome {
    if state is WallHanging {
        CollisionOutcome::Reflect
    } else if state is Airborne && roll < chance {
        CollisionOutcome::Reflect
    } else {
        CollisionOutcome::Kill
    }
}

/// Decide an overlap from the enemy's state, a uniform roll in [0, 1000)
/// and the enemy's per-mille reflect chance.
pub fn collision_outcome(state: EnemyState, roll: u64, chance: u32) -> (r: CollisionOutcome)
    ensures
        r == spec_collision_outcome(state, roll as int, chance),
{
    match state {
        EnemyState::WallHanging => CollisionOutcome::Reflect,
        EnemyState::Airborne => if roll < chance as u64 {
            CollisionOutcome::Reflect
        } else {
            CollisionOutcome::Kill
        },
        EnemyState::Dead => CollisionOutcome::Kill,
    }
}

/// The shuriken tagged as reflected toward the player's position.
pub open spec fn spec_reflect_tag(s: ShurikenBundle, player: Vec3) -> ShurikenBundle {
    ShurikenBundle {
        reflected: Some(
            Reflected {
                dx: (player.x - s.transform.translation.x) as i64,
                dy: (player.y - s.transform.translation.y) as i64,
            },
        ),
        ..s
    }
}

/// The enemy after the killing blow: dead, and tagged for despawn.
pub open spec fn spec_killed(e: EnemyBundle) -> EnemyBundle {
    EnemyBundle { enemy: Enemy(EnemyState::Dead), marked: true, ..e }
}

/// Apply the outcome of one detected overlap, for the given roll.
pub fn resolve_collision(
    player_pos: Vec3,
    s: &mut ShurikenBundle,
    e: &mut EnemyBundle,
    effects: &mut Vec<DeathEffectBundle>,
    sfx_events: &mut Vec<SFXEvents>,
    roll: u64,
)
    requires
        old(s).wf(),
        old(e).wf(),
        -COORD_LIMIT <= player_pos.x <= COORD_LIMIT,
        -COORD_LIMIT <= player_pos.y <= COORD_LIMIT,
        -COORD_LIMIT <= player_pos.z <= COORD_LIMIT,
    ensures
        final(s).wf(),
        final(e).wf(),
        ({
            let outcome = spec_collision_outcome(old(e).enemy.0, roll as int,
                old(e).reflect_chance.0);
            match outcome {
                CollisionOutcome::Reflect => {
                    &&& *final(s) == spec_reflect_tag(*old(s), player_pos)
                    &&& *final(e) == *old(e)
                    &&& final(effects)@ == old(effects)@
                    &&& final(sfx_events)@ == old(sfx_events)@
                },
                CollisionOutcome::Kill => {
                    &&& *final(s) == (ShurikenBundle { marked: true, ..*old(s) })
                    &&& *final(e) == spec_killed(*old(e))
                    &&& final(effects)@ == old(effects)@.push(
                        spec_death_effect_at(old(e).transform.translation))
                    &&& final(sfx_events)@ == old(sfx_events)@
                        .push(SFXEvents::CollisionSound).push(SFXEvents::DeathSound)
                },
            }
        }),
{
    let outcome = collision_outcome(e.enemy.0, roll, e.reflect_chance.0);
    match outcome {
        CollisionOutcome::Reflect => {
            let dx = player_pos.x - s.transform.translation.x;
            let dy = player_pos.y - s.transform.translation.y;
            s.reflected = Some(Reflected { dx, dy });
        }
        CollisionOutcome::Kill => {
            sfx_events.push(SFXEvents::CollisionSound);
            e.marked = true;
            s.marked = true;
            effects.push(DeathEffectBundle::new(e.transform.translation));
            sfx_events.push(SFXEvents::DeathSound);
            e.enemy.0 = EnemyState::Dead;
        }
    }
}

/// Index of the first unmarked enemy the shuriken overlaps, if any.
fn find_collision_target(s: &ShurikenBundle, enemies: &Vec<EnemyBundle>) -> (r: Option<usize>)
    requires
        s.wf(),
        forall|j: int| 0 <= j < enemies@.len() ==> #[trigger] enemies@[j].wf(),
    ensures
        r matches Some(j) ==> {
            &&& 0 <= j < enemies@.len()
            &&& !enemies@[j as int].marked
            &&& spec_pair_overlap(*s, enemies@[j as int])
            &&& forall|k: int| 0 <= k < j
                ==> !(!enemies@[k].marked && #[trigger] spec_pair_overlap(*s, enemies@[k]))
        },
        r is None ==> forall|k: int| 0 <= k < enemies@.len()
            ==> !(!enemies@[k].marked && #[trigger] spec_pair_overlap(*s, enemies@[k])),
{
    let mut j: usize = 0;
    while j < enemies.len()
        invariant
            j <= enemies@.len(),
            s.wf(),
            forall|k: int| 0 <= k < enemies@.len() ==> #[trigger] enemies@[k].wf(),
            forall|k: int| 0 <= k < j
                ==> !(!enemies@[k].marked && #[trigger] spec_pair_overlap(*s, enemies@[k])),
        decreases enemies@.len() - j,
    {
        let e = &enemies[j];
        if !e.marked && collide(s, e) {
            return Some(j);
        }
        j = j + 1;
    }
    None
}

/// The frame's collision pass.  Whatever the rolls turn out to be:
/// no record is added or removed from either list; already-marked records
/// are untouched; an enemy either stays as it was or dies to a shuriken
/// that overlapped it; a shuriken with no overlapping unmarked enemy stays
/// as it was; and every shuriken that still overlaps an enemy left unmarked
/// by the whole pass came out reflected or despawned.  Death effects and
/// sound cues are only appended.
pub fn collision_system(
    player_transform: &Transform,
    shurikens: &mut Vec<ShurikenBundle>,
    enemies: &mut Vec<EnemyBundle>,
    effects: &mut Vec<DeathEffectBundle>,
    sfx_events: &mut Vec<SFXEvents>,
    rng: &mut rand::rngs::StdRng,
)
    requires
        player_transform.wf(),
        forall|i: int| 0 <= i < old(shurikens)@.len() ==> #[trigger] old(shurikens)@[i].wf(),
        forall|j: int| 0 <= j < old(enemies)@.len() ==> #[trigger] old(enemies)@[j].wf(),
        forall|k: int| 0 <= k < old(effects)@.len() ==> #[trigger] old(effects)@[k].wf(),
    ensures
        final(shurikens)@.len() == old(shurikens)@.len(),
        final(enemies)@.len() == old(enemies)@.len(),
        forall|i: int| 0 <= i < final(shurikens)@.len() ==> #[trigger] final(shurikens)@[i].wf(),
        forall|j: int| 0 <= j < final(enemies)@.len() ==> #[trigger] final(enemies)@[j].wf(),
        forall|k: int| 0 <= k < final(effects)@.len() ==> #[trigger] final(effects)@[k].wf(),
        // already-marked shurikens are untouched
        forall|i: int| 0 <= i < old(shurikens)@.len() && old(shurikens)@[i].marked
            ==> #[trigger] final(shurikens)@[i] == old(shurikens)@[i],
        // an enemy stays, or dies to a shuriken that overlapped it
        forall|j: int| 0 <= j < old(enemies)@.len()
            ==> #[trigger] final(enemies)@[j] == old(enemies)@[j]
                || (final(enemies)@[j] == spec_killed(old(enemies)@[j])
                    && !old(enemies)@[j].marked
                    && exists|i: int| 0 <= i < old(shurikens)@.len()
                        && !old(shurikens)@[i].marked
                        && #[trigger] spec_pair_overlap(old(shurikens)@[i], old(enemies)@[j])),
        // a shuriken with no overlapping unmarked enemy is untouched
        forall|i: int| 0 <= i < old(shurikens)@.len() && !old(shurikens)@[i].marked
            && (forall|j: int| 0 <= j < old(enemies)@.len()
                ==> !(!old(enemies)@[j].marked
                    && #[trigger] spec_pair_overlap(old(shurikens)@[i], old(enemies)@[j])))
            ==> #[trigger] final(shurikens)@[i] == old(shurikens)@[i],
        // every shuriken that overlaps an enemy the pass left unmarked was resolved
        forall|i: int| 0 <= i < old(shurikens)@.len() && !old(shurikens)@[i].marked
            && (exists|j: int| 0 <= j < old(enemies)@.len()
                && !final(enemies)@[j].marked
                && #[trigger] spec_pair_overlap(old(shurikens)@[i], old(enemies)@[j]))
            ==> final(shurikens)@[i].reflected is Some || #[trigger] final(shurikens)@[i].marked,
        // effects and cues are only appended
        final(effects)@.len() >= old(effects)@.len(),
        forall|k: int| 0 <= k < old(effects)@.len()
            ==> #[trigger] final(effects)@[k] == old(effects)@[k],
        final(sfx_events)@.len() >= old(sfx_events)@.len(),
        forall|k: int| 0 <= k < old(sfx_events)@.len()
            ==> #[trigger] final(sfx_events)@[k] == old(sfx_events)@[k],
{
    let ghost orig_s = shurikens@;
    let ghost orig_e = enemies@;
    let ghost orig_fx = effects@;
    let ghost orig_ev = sfx_events@;
    let mut i: usize = 0;
    while i < shurikens.len()
        invariant
            i <= shurikens@.len(),
            player_transform.wf(),
            shurikens@.len() == orig_s.len(),
            enemies@.len() == orig_e.len(),
            forall|k: int| 0 <= k < orig_s.len() ==> #[trigger] orig_s[k].wf(),
            forall|k: int| 0 <= k < orig_e.len() ==> #[trigger] orig_e[k].wf(),
            forall|k: int| 0 <= k < orig_fx.len() ==> #[trigger] orig_fx[k].wf(),
            forall|k: int| 0 <= k < shurikens@.len() ==> #[trigger] shurikens@[k].wf(),
            forall|k: int| 0 <= k < enemies@.len() ==> #[trigger] enemies@[k].wf(),
            forall|k: int| 0 <= k < effects@.len() ==> #[trigger] effects@[k].wf(),
            // unprocessed shurikens are untouched
            forall|k: int| i <= k < orig_s.len() ==> #[trigger] shurikens@[k] == orig_s[k],
            // marked shurikens are untouched
            forall|k: int| 0 <= k < orig_s.len() && orig_s[k].marked
                ==> #[trigger] shurikens@[k] == orig_s[k],
            // an enemy stays or died to an overlapping shuriken
            forall|j: int| 0 <= j < orig_e.len()
                ==> #[trigger] enemies@[j] == orig_e[j]
                    || (enemies@[j] == spec_killed(orig_e[j])
                        && !orig_e[j].marked
                        && exists|k: int| 0 <= k < orig_s.len()
                            && !orig_s[k].marked
                            && #[trigger] spec_pair_overlap(orig_s[k], orig_e[j])),
            // a processed shuriken with no overlapping unmarked enemy is untouched
            forall|k: int| 0 <= k < i && !orig_s[k].marked
                && (forall|j: int| 0 <= j < orig_e.len()
                    ==> !(!orig_e[j].marked
                        && #[trigger] spec_pair_overlap(orig_s[k], orig_e[j])))
                ==> #[trigger] shurikens@[k] == orig_s[k],
            // a processed shuriken that overlaps a still-unmarked enemy was resolved
            forall|k: int| 0 <= k < i && !orig_s[k].marked
                && (exists|j: int| 0 <= j < orig_e.len()
                    && !enemies@[j].marked
                    && #[trigger] spec_pair_overlap(orig_s[k], orig_e[j]))
                ==> shurikens@[k].reflected is Some || #[trigger] shurikens@[k].marked,
            // effects and cues only appended
            effects@.len() >= orig_fx.len(),
            forall|k: int| 0 <= k < orig_fx.len() ==> #[trigger] effects@[k] == orig_fx[k],
            sfx_events@.len() >= orig_ev.len(),
            forall|k: int| 0 <= k < orig_ev.len() ==> #[trigger] sfx_events@[k] == orig_ev[k],
        decreases shurikens@.len() - i,
    {
        proof {
            assert(shurikens@[i as int].wf());
        }
        let s_marked = shurikens[i].marked;
        if !s_marked {
            let mut s = shurikens[i];
            let ghost s_before = s;
            let target = find_collision_target(&s, enemies);
            match target {
                Some(j) => {
                    let ghost enemies_before = enemies@;
                    let mut e = enemies[j];
                    let roll = gen_range_u64(rng, 0, 1000);
                    proof {
                        assert(s_before == orig_s[i as int]);
                        assert(enemies_before[j as int] == orig_e[j as int]);
                        assert(spec_pair_overlap(orig_s[i as int], orig_e[j as int]));
                    }
                    resolve_collision(
                        Vec3 {
                            x: player_transform.translation.x,
                            y: player_transform.translation.y,
                            z: player_transform.translation.z,
                        },
                        &mut s,
                        &mut e,
                        effects,
                        sfx_events,
                        roll,
                    );
                    enemies.set(j, e);
                    shurikens.set(i, s);
                }
                None => {}
            }
        }
        i = i + 1;
    }
}

/// Law: the collision outcome is bounded exactly by the reflect chance.
/// For an airborne enemy, of the 1000 equally likely rolls, exactly
/// `chance` of them reflect the shuriken and the remaining `1000 - chance`
/// kill the enemy.
pub proof fn lemma_airborne_outcome_counts(chance: u32)
    requires
        chance <= 1000,
    ensures
        Set::new(|roll: int| 0 <= roll < 1000
            && spec_collision_outcome(EnemyState::Airborne, roll, chance)
                is Reflect).len() == chance,
        Set::new(|roll: int| 0 <= roll < 1000
            && spec_collision_outcome(EnemyState::Airborne, roll, chance)
                is Kill).len() == 1000 - chance,
{
    let reflects = Set::new(|roll: int| 0 <= roll < 1000
        && spec_collision_outcome(EnemyState::Airborne, roll, chance) is Reflect);
    let kills = Set::new(|roll: int| 0 <= roll < 1000
        && spec_collision_outcome(EnemyState::Airborne, roll, chance) is Kill);
    assert(reflects =~= set_int_range(0, chance as int));
    assert(kills =~= set_int_range(chance as int, 1000));
    vstd::set_lib::lemma_int_range(0, chance as int);
    vstd::set_lib::lemma_int_range(chance as int, 1000);
}

} // verus!
