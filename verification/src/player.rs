//! The player: input-driven movement and attacks, the intro flip, the
//! walking/flipping animations, and the scripted end-of-stage landing.

use vstd::prelude::*;

use crate::audio::SFXEvents;
use crate::components::{AttackingTimer, Dimensions, FlippingAnimationTimer, Gravity, LevelState,
    Player, PlayerAction, SpriteFrame, Transform, Velocity, WalkingAnimationTimer};
use crate::constants::{BONUS_STAGE_INTRO_RIGHT_BOUNDARY, BONUS_STAGE_SPAWN_POS_X,
    BONUS_STAGE_SPAWN_POS_Y, DELTA_LIMIT, LEFT_WALL, LOWER_BOUND, RIGHT_WALL, SPEED_LIMIT,
    UPPER_BOUND};
use crate::math::{advance_coord, advanced, apply_boost, apply_gravity, boosted, clamp_speed,
    clamped, decelerated, half_extent, motion_step, round_to_unit, scale_by_delta, Vec2, Vec3};
use crate::resources::PauseEvent;
use crate::shuriken::{spec_shuriken_at, ShurikenBundle};
use crate::timer::{ticked, Timer, TimerMode};

verus! {

pub const PLAYER_WALKING_SPEED: i64 = 150_000;

pub const PLAYER_AIR_SPEED: i64 = 350_000;

/// Height, in milli-units, the intro flip rises to before the fall begins.
pub const TERMINAL_VELOCITY: i64 = 30_000;

pub const PLAYER_FLIPPING_SPEED: i64 = 250_000;

pub const FINAL_PLAYER_POS_Y: i64 = -100_000;

pub const BONUS_STAGE_ENDING_PLAYER_STARTING_POS_X: i64 = 0;

pub const BONUS_STAGE_ENDING_PLAYER_STARTING_POS_Y: i64 = 100_000;

/// Speed a thrown shuriken keeps for its reflected trajectory.
pub const SHURIKEN_SPEED: i64 = 400_000;

pub struct PlayerPlugin;

/// The frame's sampled input: held directions and edge-triggered presses.
#[derive(Clone, Copy, PartialEq, Eq, Structural, Debug)]
pub struct InputState {
    pub left_pressed: bool,
    pub right_pressed: bool,
    pub up_pressed: bool,
    pub down_pressed: bool,
    pub attack_just_pressed: bool,
    pub confirm_just_pressed: bool,
    pub horizontal_just_released: bool,
}

/// The player singleton: its components and animation timers.
#[derive(Clone, Copy, PartialEq, Eq, Structural, Debug)]
pub struct PlayerBundle {
    pub player: Player,
    pub attacking_timer: AttackingTimer,
    pub walking_animation_timer: WalkingAnimationTimer,
    pub flipping_animation_timer: FlippingAnimationTimer,
    pub dimensions: Dimensions,
    pub gravity: Gravity,
    pub velocity: Velocity,
    pub transform: Transform,
    pub sprite: SpriteFrame,
}

/// The record a fresh player holds: idle in the intro, at the bonus-stage
/// spawn point.
pub open spec fn spec_player_spawn() -> PlayerBundle {
    PlayerBundle {
        player: Player(PlayerAction::Idle, LevelState::Intro),
        attacking_timer: AttackingTimer(
            Timer { elapsed_us: 0, duration_us: 35_000, mode: TimerMode::Repeating, fired: false },
        ),
        walking_animation_timer: WalkingAnimationTimer(
            Timer { elapsed_us: 0, duration_us: 200_000, mode: TimerMode::Repeating, fired: false },
        ),
        flipping_animation_timer: FlippingAnimationTimer(
            Timer { elapsed_us: 0, duration_us: 100_000, mode: TimerMode::Repeating, fired: false },
        ),
        dimensions: Dimensions(Vec2 { x: 42_000, y: 42_000 }),
        gravity: Gravity(1750),
        velocity: Velocity(Vec2 { x: 0, y: PLAYER_FLIPPING_SPEED }),
        transform: Transform {
            translation: Vec3 { x: BONUS_STAGE_SPAWN_POS_X, y: BONUS_STAGE_SPAWN_POS_Y, z: 2000 },
            scale: Vec2 { x: 1000, y: 1000 },
            rotation_mdeg: 0,
        },
        sprite: SpriteFrame { index: 0, flip_x: false },
    }
}

impl PlayerBundle {
    pub open spec fn wf(self) -> bool {
        &&& self.transform.wf()
        &&& self.velocity.wf()
        &&& self.attacking_timer.0.wf()
        &&& self.walking_animation_timer.0.wf()
        &&& self.flipping_animation_timer.0.wf()
        &&& self.dimensions.wf()
        &&& 0 <= self.gravity.0 <= SPEED_LIMIT
        &&& self.sprite.index <= 20
    }

    pub fn new() -> (p: PlayerBundle)
        ensures
            p == spec_player_spawn(),
            p.wf(),
    {
        PlayerBundle {
            player: Player(PlayerAction::Idle, LevelState::Intro),
            attacking_timer: AttackingTimer(Timer::new(35_000, TimerMode::Repeating)),
            walking_animation_timer: WalkingAnimationTimer(
                Timer::new(200_000, TimerMode::Repeating),
            ),
            flipping_animation_timer: FlippingAnimationTimer(
                Timer::new(100_000, TimerMode::Repeating),
            ),
            dimensions: Dimensions(Vec2 { x: 42_000, y: 42_000 }),
            gravity: Gravity(1750),
            velocity: Velocity(Vec2 { x: 0, y: PLAYER_FLIPPING_SPEED }),
            transform: Transform::from_translation(
                Vec3 { x: BONUS_STAGE_SPAWN_POS_X, y: BONUS_STAGE_SPAWN_POS_Y, z: 2000 },
            ),
            sprite: SpriteFrame { index: 0, flip_x: false },
        }
    }
}

/// Put the player singleton into its slot as the stage starts.
pub fn spawn_player(player_slot: &mut Option<PlayerBundle>)
    ensures
        *final(player_slot) == Some(spec_player_spawn()),
{
    *player_slot = Some(PlayerBundle::new());
}

/// One input tick.  In the air (falling or attacking) the player moves
/// freely at air speed, each direction allowed only while the matching box
/// edge is inside the world, and a fresh attack press starts an attack.
/// During the intro the confirm press starts the flip, and held directions
/// walk the player between the left wall and the intro boundary; releasing
/// both directions returns to idle.  Edges are judged against the position
/// at the start of the tick.
pub open spec fn spec_player_controls(p: PlayerBundle, input: InputState, dt: int)
    -> PlayerBundle {
    let left = p.transform.translation.x - p.dimensions.0.x / 2;
    let right = p.transform.translation.x + p.dimensions.0.x / 2;
    let top = p.transform.translation.y + p.dimensions.0.y / 2;
    let bottom = p.transform.translation.y - p.dimensions.0.y / 2;
    let x0 = p.transform.translation.x as int;
    let y0 = p.transform.translation.y as int;
    let airborne = p.player.0 is Falling || p.player.0 is Attacking;
    let x1 = if airborne && input.left_pressed && left > LEFT_WALL {
        advanced(x0, -PLAYER_AIR_SPEED as int, dt)
    } else {
        x0
    };
    let x2 = if airborne && input.right_pressed && right < RIGHT_WALL {
        advanced(x1, PLAYER_AIR_SPEED as int, dt)
    } else {
        x1
    };
    let y1 = if airborne && input.up_pressed && top < UPPER_BOUND {
        advanced(y0, PLAYER_AIR_SPEED as int, dt)
    } else {
        y0
    };
    let y2 = if airborne && input.down_pressed && bottom > LOWER_BOUND {
        advanced(y1, -PLAYER_AIR_SPEED as int, dt)
    } else {
        y1
    };
    let act1 = if airborne && input.attack_just_pressed {
        PlayerAction::Attacking
    } else {
        p.player.0
    };
    let intro = p.player.1 is Intro;
    let act2 = if intro && input.confirm_just_pressed { PlayerAction::Flipping } else { act1 };
    let walking = intro && !(act2 is Flipping);
    let act3 = if walking && input.left_pressed { PlayerAction::WalkingLeft } else { act2 };
    let x3 = if walking && input.left_pressed && left > LEFT_WALL {
        advanced(x2, -PLAYER_WALKING_SPEED as int, dt)
    } else {
        x2
    };
    let act4 = if walking && input.right_pressed {
        PlayerAction::WalkingRight
    } else if walking && !input.right_pressed && input.horizontal_just_released {
        PlayerAction::Idle
    } else {
        act3
    };
    let x4 = if walking && input.right_pressed && right < BONUS_STAGE_INTRO_RIGHT_BOUNDARY {
        advanced(x3, PLAYER_WALKING_SPEED as int, dt)
    } else {
        x3
    };
    PlayerBundle {
        player: Player(act4, p.player.1),
        transform: Transform {
            translation: Vec3 { x: x4 as i64, y: y2 as i64, z: p.transform.translation.z },
            ..p.transform
        },
        ..p
    }
}

/// Apply one input tick to the player.
pub fn player_controls(p: &mut PlayerBundle, input: &InputState, dt: u64)
    requires
        old(p).wf(),
        dt <= DELTA_LIMIT,
    ensures
        *final(p) == spec_player_controls(*old(p), *input, dt as int),
        final(p).wf(),
{
    let half_w = half_extent(p.dimensions.0.x);
    let half_h = half_extent(p.dimensions.0.y);
    let left = p.transform.translation.x - half_w;
    let right = p.transform.translation.x + half_w;
    let top = p.transform.translation.y + half_h;
    let bottom = p.transform.translation.y - half_h;

    let airborne = p.player.0 == PlayerAction::Falling || p.player.0 == PlayerAction::Attacking;
    if airborne {
        if input.left_pressed && left > LEFT_WALL {
            p.transform.translation.x = advance_coord(
                p.transform.translation.x, -PLAYER_AIR_SPEED, dt);
        }
        if input.right_pressed && right < RIGHT_WALL {
            p.transform.translation.x = advance_coord(
                p.transform.translation.x, PLAYER_AIR_SPEED, dt);
        }
        if input.up_pressed && top < UPPER_BOUND {
            p.transform.translation.y = advance_coord(
                p.transform.translation.y, PLAYER_AIR_SPEED, dt);
        }
        if input.down_pressed && bottom > LOWER_BOUND {
            p.transform.translation.y = advance_coord(
                p.transform.translation.y, -PLAYER_AIR_SPEED, dt);
        }
        if input.attack_just_pressed {
            p.player.0 = PlayerAction::Attacking;
        }
    }

    if p.player.1 == LevelState::Intro {
        if input.confirm_just_pressed {
            p.player.0 = PlayerAction::Flipping;
        }
        if p.player.0 != PlayerAction::Flipping {
            if input.left_pressed {
                p.player.0 = PlayerAction::WalkingLeft;
                if left > LEFT_WALL {
                    p.transform.translation.x = advance_coord(
                        p.transform.translation.x, -PLAYER_WALKING_SPEED, dt);
                }
            }
            if input.right_pressed {
                p.player.0 = PlayerAction::WalkingRight;
                if right < BONUS_STAGE_INTRO_RIGHT_BOUNDARY {
                    p.transform.translation.x = advance_coord(
                        p.transform.translation.x, PLAYER_WALKING_SPEED, dt);
                }
            } else if input.horizontal_just_released {
                p.player.0 = PlayerAction::Idle;
            }
        }
    }
}

/// One attack tick: while attacking, the attack timer drives a four-cell
/// swing.  Each time the timer fires the next cell shows; the third cell is
/// the swing contact, and wrapping past it ends the attack into falling.  A
/// falling player shows the neutral cell.
pub open spec fn spec_attack_step(p: PlayerBundle, dt: int) -> PlayerBundle {
    if p.player.0 is Falling {
        PlayerBundle { sprite: SpriteFrame { index: 0, flip_x: false }, ..p }
    } else if !(p.player.0 is Attacking) {
        p
    } else {
        let t = ticked(p.attacking_timer.0, dt);
        let base = PlayerBundle {
            attacking_timer: AttackingTimer(t),
            sprite: SpriteFrame { index: p.sprite.index, flip_x: false },
            ..p
        };
        if t.fired {
            let idx = ((p.sprite.index + 1) % 4) as usize;
            if idx == 0 {
                PlayerBundle {
                    player: Player(PlayerAction::Falling, p.player.1),
                    sprite: SpriteFrame { index: idx, flip_x: false },
                    ..base
                }
            } else {
                PlayerBundle { sprite: SpriteFrame { index: idx, flip_x: false }, ..base }
            }
        } else {
            base
        }
    }
}

/// The attack tick reaches the swing-contact cell and throws a shuriken.
pub open spec fn spec_attack_spawns(p: PlayerBundle, dt: int) -> bool {
    &&& p.player.0 is Attacking
    &&& ticked(p.attacking_timer.0, dt).fired
    &&& (p.sprite.index + 1) % 4 == 3
}

/// Where a thrown shuriken appears: just below the player, kept inside the
/// coordinate record limit.
pub open spec fn spec_shuriken_spawn_pos(p: PlayerBundle) -> Vec3 {
    Vec3 {
        x: p.transform.translation.x,
        y: clamped(
            -crate::constants::COORD_LIMIT as int,
            p.transform.translation.y - 20_000,
            crate::constants::COORD_LIMIT as int,
        ) as i64,
        z: p.transform.translation.z,
    }
}

/// Advance one attack tick; the thrown shuriken, if the swing connects this
/// tick, is handed back with the shuriken-fired cue recorded.
pub fn player_attacking_system(
    p: &mut PlayerBundle,
    dt: u64,
    sfx_events: &mut Vec<SFXEvents>,
) -> (spawned: Option<ShurikenBundle>)
    requires
        old(p).wf(),
        dt <= DELTA_LIMIT,
    ensures
        *final(p) == spec_attack_step(*old(p), dt as int),
        final(p).wf(),
        spawned is Some <==> spec_attack_spawns(*old(p), dt as int),
        spawned matches Some(s) ==> {
            &&& s == spec_shuriken_at(spec_shuriken_spawn_pos(*old(p)), SHURIKEN_SPEED)
            &&& s.wf()
        },
        final(sfx_events)@ == if spec_attack_spawns(*old(p), dt as int) {
            old(sfx_events)@.push(SFXEvents::ShurikenSound)
        } else {
            old(sfx_events)@
        },
{
    if p.player.0 == PlayerAction::Falling {
        p.sprite.index = 0;
        p.sprite.flip_x = false;
        return None;
    }
    if p.player.0 != PlayerAction::Attacking {
        return None;
    }

    p.sprite.flip_x = false;
    p.attacking_timer.0.tick(dt);
    if p.attacking_timer.0.just_finished() {
        p.sprite.index = (p.sprite.index + 1) % 4;
        if p.sprite.index == 3 {
            let below = p.transform.translation.y - 20_000;
            let pos = Vec3 {
                x: p.transform.translation.x,
                y: if below < -crate::constants::COORD_LIMIT {
                    -crate::constants::COORD_LIMIT
                } else {
                    below
                },
                z: p.transform.translation.z,
            };
            let shuriken = ShurikenBundle::new(pos, SHURIKEN_SPEED);
            sfx_events.push(SFXEvents::ShurikenSound);
            return Some(shuriken);
        }
        if p.sprite.index == 0 {
            p.player.0 = PlayerAction::Falling;
        }
    }
    None
}

/// One walking-animation tick: idle shows the standing cell; while walking
/// the sprite faces the walk direction and the walk timer steps through
/// cells eight to thirteen.
pub open spec fn spec_walking_step(p: PlayerBundle, dt: int) -> PlayerBundle {
    if !(p.player.0 is Idle || p.player.0 is WalkingLeft || p.player.0 is WalkingRight) {
        p
    } else if p.player.0 is Idle {
        PlayerBundle { sprite: SpriteFrame { index: 7, ..p.sprite }, ..p }
    } else {
        let flip = p.player.0 is WalkingLeft;
        let t = ticked(p.walking_animation_timer.0, dt);
        let idx1: int = if t.fired { p.sprite.index + 1 } else { p.sprite.index as int };
        let idx2: int = if idx1 > 13 || idx1 < 8 { 8 } else { idx1 };
        PlayerBundle {
            walking_animation_timer: WalkingAnimationTimer(t),
            sprite: SpriteFrame { index: idx2 as usize, flip_x: flip },
            ..p
        }
    }
}

/// Advance one walking-animation tick.
pub fn player_walking_animation(p: &mut PlayerBundle, dt: u64)
    requires
        old(p).wf(),
        dt <= DELTA_LIMIT,
    ensures
        *final(p) == spec_walking_step(*old(p), dt as int),
        final(p).wf(),
{
    if p.player.0 != PlayerAction::Idle && p.player.0 != PlayerAction::WalkingLeft
        && p.player.0 != PlayerAction::WalkingRight {
        return;
    }
    if p.player.0 == PlayerAction::Idle {
        p.sprite.index = 7;
        return;
    }
    if p.player.0 == PlayerAction::WalkingLeft {
        p.sprite.flip_x = true;
    } else {
        p.sprite.flip_x = false;
    }
    p.walking_animation_timer.0.tick(dt);
    if p.walking_animation_timer.0.just_finished() {
        p.sprite.index = p.sprite.index + 1;
    }
    if p.sprite.index > 13 || p.sprite.index < 8 {
        p.sprite.index = 8;
    }
}

/// The mid-flip carry velocity: the vertical velocity plus half a gravity
/// step, saturated at the speed limit.
pub open spec fn spec_flip_carry(p: PlayerBundle, dt: int) -> int {
    clamped(
        -SPEED_LIMIT as int,
        p.velocity.0.y + motion_step(p.gravity.0 as int, dt) / 2,
        SPEED_LIMIT as int,
    )
}

/// One intro-flip tick.  Below the flip apex the rise cell carries the
/// player upward under easing gravity and the frame timer pauses; past the
/// rise cell the player eases downward.  Each timer fire advances the flip
/// cell, and past the last cell the flip ends: the player falls, play
/// starts, and the pause gate opens.
pub open spec fn spec_flipping_step(p: PlayerBundle, dt: int) -> PlayerBundle {
    if !(p.player.0 is Flipping) {
        p
    } else {
        let idx0: int = if p.sprite.index < 14 { 14 } else { p.sprite.index as int };
        let y0 = p.transform.translation.y as int;
        let vy0 = p.velocity.0.y as int;
        let g = p.gravity.0 as int;
        let carry = spec_flip_carry(p, dt);
        if idx0 == 15 && y0 < TERMINAL_VELOCITY {
            PlayerBundle {
                sprite: SpriteFrame { index: idx0 as usize, ..p.sprite },
                transform: Transform {
                    translation: Vec3 {
                        x: p.transform.translation.x,
                        y: advanced(y0, carry, dt) as i64,
                        z: p.transform.translation.z,
                    },
                    ..p.transform
                },
                velocity: Velocity(Vec2 { x: p.velocity.0.x, y: boosted(vy0, g, dt) as i64 }),
                ..p
            }
        } else {
            let y1: int = if idx0 > 15 { advanced(y0, -carry, dt) } else { y0 };
            let vy1: int = if idx0 > 15 { decelerated(vy0, g, dt) } else { vy0 };
            let t = ticked(p.flipping_animation_timer.0, dt);
            let idx1: int = if t.fired { if idx0 < 20 { idx0 + 1 } else { idx0 } } else { idx0 };
            let done = t.fired && idx1 > 19;
            PlayerBundle {
                player: if done {
                    Player(PlayerAction::Falling, LevelState::Start)
                } else {
                    p.player
                },
                sprite: SpriteFrame { index: idx1 as usize, ..p.sprite },
                transform: Transform {
                    translation: Vec3 {
                        x: p.transform.translation.x,
                        y: y1 as i64,
                        z: p.transform.translation.z,
                    },
                    ..p.transform
                },
                velocity: Velocity(Vec2 { x: p.velocity.0.x, y: vy1 as i64 }),
                flipping_animation_timer: FlippingAnimationTimer(t),
                ..p
            }
        }
    }
}

/// The flip completes on this tick.
pub open spec fn spec_flip_completes(p: PlayerBundle, dt: int) -> bool {
    &&& p.player.0 is Flipping
    &&& spec_flipping_step(p, dt).player.0 is Falling
}

/// Advance one intro-flip tick; completing the flip opens the pause gate.
pub fn player_flipping_animation(p: &mut PlayerBundle, dt: u64, pause_event: &mut PauseEvent)
    requires
        old(p).wf(),
        dt <= DELTA_LIMIT,
    ensures
        *final(p) == spec_flipping_step(*old(p), dt as int),
        final(p).wf(),
        *final(pause_event) == if spec_flip_completes(*old(p), dt as int) {
            PauseEvent::Unpaused
        } else {
            *old(pause_event)
        },
{
    if p.player.0 != PlayerAction::Flipping {
        return;
    }
    if p.sprite.index < 14 {
        p.sprite.index = 14;
    }
    let carry = clamp_speed(p.velocity.0.y + half_extent(scale_by_delta(p.gravity.0, dt)));
    if p.sprite.index == 15 && p.transform.translation.y < TERMINAL_VELOCITY {
        p.transform.translation.y = advance_coord(p.transform.translation.y, carry, dt);
        p.velocity.0.y = apply_boost(p.velocity.0.y, p.gravity.0, dt);
        return;
    }
    if p.sprite.index > 15 {
        p.transform.translation.y = advance_coord(p.transform.translation.y, -carry, dt);
        p.velocity.0.y = apply_gravity(p.velocity.0.y, p.gravity.0, dt);
    }
    p.flipping_animation_timer.0.tick(dt);
    if p.flipping_animation_timer.0.just_finished() {
        if p.sprite.index < 20 {
            p.sprite.index = p.sprite.index + 1;
        }
        if p.sprite.index > 19 {
            p.player.0 = PlayerAction::Falling;
            p.player.1 = LevelState::Start;
            *pause_event = PauseEvent::Unpaused;
        }
    }
}

/// One end-of-stage landing tick.  A landed player holds the crouch cell; a
/// landing player plays the flip cells backwards while easing down until
/// the final height is reached, where the landing completes.
pub open spec fn spec_scoreboard_step(p: PlayerBundle, dt: int) -> PlayerBundle {
    let idx0: int = if p.player.0 is Landing && p.sprite.index < 14 {
        19
    } else {
        p.sprite.index as int
    };
    let y0 = p.transform.translation.y as int;
    let vy0 = p.velocity.0.y as int;
    let g = p.gravity.0 as int;
    let carry = spec_flip_carry(p, dt);
    if p.player.0 is Landed {
        PlayerBundle { sprite: SpriteFrame { index: 14, ..p.sprite }, ..p }
    } else if idx0 == 15 {
        if round_to_unit(y0) >= FINAL_PLAYER_POS_Y {
            PlayerBundle {
                sprite: SpriteFrame { index: idx0 as usize, ..p.sprite },
                transform: Transform {
                    translation: Vec3 {
                        x: p.transform.translation.x,
                        y: advanced(y0, -carry, dt) as i64,
                        z: p.transform.translation.z,
                    },
                    ..p.transform
                },
                velocity: Velocity(Vec2 { x: p.velocity.0.x, y: decelerated(vy0, g, dt) as i64 }),
                ..p
            }
        } else {
            PlayerBundle {
                player: Player(PlayerAction::Landed, p.player.1),
                sprite: SpriteFrame { index: idx0 as usize, ..p.sprite },
                ..p
            }
        }
    } else {
        let y1: int = if idx0 > 15 { advanced(y0, -carry, dt) } else { y0 };
        let vy1: int = if idx0 > 15 { decelerated(vy0, g, dt) } else { vy0 };
        let t = ticked(p.flipping_animation_timer.0, dt);
        let idx1: int = if t.fired && p.player.0 is Landing { idx0 - 1 } else { idx0 };
        PlayerBundle {
            sprite: SpriteFrame { index: idx1 as usize, ..p.sprite },
            transform: Transform {
                translation: Vec3 {
                    x: p.transform.translation.x,
                    y: y1 as i64,
                    z: p.transform.translation.z,
                },
                ..p.transform
            },
            velocity: Velocity(Vec2 { x: p.velocity.0.x, y: vy1 as i64 }),
            flipping_animation_timer: FlippingAnimationTimer(t),
            ..p
        }
    }
}

/// Advance one end-of-stage landing tick.
pub fn player_scoreboard_animation(p: &mut PlayerBundle, dt: u64)
    requires
        old(p).wf(),
        dt <= DELTA_LIMIT,
    ensures
        *final(p) == spec_scoreboard_step(*old(p), dt as int),
        final(p).wf(),
{
    if p.player.0 == PlayerAction::Landing && p.sprite.index < 14 {
        p.sprite.index = 19;
    }
    if p.player.0 == PlayerAction::Landed {
        p.sprite.index = 14;
        return;
    }
    let carry = clamp_speed(p.velocity.0.y + half_extent(scale_by_delta(p.gravity.0, dt)));
    if p.sprite.index == 15 {
        proof {
            crate::math::lemma_round_cmp(
                p.transform.translation.y as int, FINAL_PLAYER_POS_Y as int);
        }
        if p.transform.translation.y + 500 >= FINAL_PLAYER_POS_Y {
            p.transform.translation.y = advance_coord(p.transform.translation.y, -carry, dt);
            p.velocity.0.y = apply_gravity(p.velocity.0.y, p.gravity.0, dt);
        } else {
            p.player.0 = PlayerAction::Landed;
        }
        return;
    }
    if p.sprite.index > 15 {
        p.transform.translation.y = advance_coord(p.transform.translation.y, -carry, dt);
        p.velocity.0.y = apply_gravity(p.velocity.0.y, p.gravity.0, dt);
    }
    p.flipping_animation_timer.0.tick(dt);
    if p.flipping_animation_timer.0.just_finished() && p.player.0 == PlayerAction::Landing {
        p.sprite.index = p.sprite.index - 1;
    }
}

/// One end-of-stage walk tick: until the landing starts, the player is
/// steered one walking step per axis toward the scripted screen position,
/// and the landing starts once both axes round to it.
pub open spec fn spec_end_stage_step(p: PlayerBundle, dt: int) -> PlayerBundle {
    if p.player.0 is Landing || p.player.0 is Landed {
        p
    } else {
        let x0 = p.transform.translation.x as int;
        let y0 = p.transform.translation.y as int;
        let x1: int = if round_to_unit(x0) < BONUS_STAGE_ENDING_PLAYER_STARTING_POS_X {
            advanced(x0, PLAYER_WALKING_SPEED as int, dt)
        } else if round_to_unit(x0) > BONUS_STAGE_ENDING_PLAYER_STARTING_POS_X {
            advanced(x0, -PLAYER_WALKING_SPEED as int, dt)
        } else {
            x0
        };
        let y1: int = if round_to_unit(y0) < BONUS_STAGE_ENDING_PLAYER_STARTING_POS_Y {
            advanced(y0, PLAYER_WALKING_SPEED as int, dt)
        } else if round_to_unit(y0) > BONUS_STAGE_ENDING_PLAYER_STARTING_POS_Y {
            advanced(y0, -PLAYER_WALKING_SPEED as int, dt)
        } else {
            y0
        };
        let arrived = round_to_unit(y1) == BONUS_STAGE_ENDING_PLAYER_STARTING_POS_Y
            && round_to_unit(x1) == BONUS_STAGE_ENDING_PLAYER_STARTING_POS_X;
        PlayerBundle {
            player: if arrived { Player(PlayerAction::Landing, p.player.1) } else { p.player },
            transform: Transform {
                translation: Vec3 { x: x1 as i64, y: y1 as i64, z: p.transform.translation.z },
                ..p.transform
            },
            ..p
        }
    }
}

/// Steer the player one end-of-stage walk tick.
pub fn end_stage_movement(p: &mut PlayerBundle, dt: u64)
    requires
        old(p).wf(),
        dt <= DELTA_LIMIT,
    ensures
        *final(p) == spec_end_stage_step(*old(p), dt as int),
        final(p).wf(),
{
    if p.player.0 == PlayerAction::Landing || p.player.0 == PlayerAction::Landed {
        return;
    }
    proof {
        crate::math::lemma_round_cmp(
            p.transform.translation.x as int, BONUS_STAGE_ENDING_PLAYER_STARTING_POS_X as int);
        crate::math::lemma_round_cmp(
            p.transform.translation.y as int, BONUS_STAGE_ENDING_PLAYER_STARTING_POS_Y as int);
    }
    if p.transform.translation.x + 500 < BONUS_STAGE_ENDING_PLAYER_STARTING_POS_X {
        p.transform.translation.x = advance_coord(
            p.transform.translation.x, PLAYER_WALKING_SPEED, dt);
    } else if p.transform.translation.x + 500 >= BONUS_STAGE_ENDING_PLAYER_STARTING_POS_X + 1000 {
        p.transform.translation.x = advance_coord(
            p.transform.translation.x, -PLAYER_WALKING_SPEED, dt);
    }
    if p.transform.translation.y + 500 < BONUS_STAGE_ENDING_PLAYER_STARTING_POS_Y {
        p.transform.translation.y = advance_coord(
            p.transform.translation.y, PLAYER_WALKING_SPEED, dt);
    } else if p.transform.translation.y + 500 >= BONUS_STAGE_ENDING_PLAYER_STARTING_POS_Y + 1000 {
        p.transform.translation.y = advance_coord(
            p.transform.translation.y, -PLAYER_WALKING_SPEED, dt);
    }
    proof {
        crate::math::lemma_round_cmp(
            p.transform.translation.x as int, BONUS_STAGE_ENDING_PLAYER_STARTING_POS_X as int);
        crate::math::lemma_round_cmp(
            p.transform.translation.y as int, BONUS_STAGE_ENDING_PLAYER_STARTING_POS_Y as int);
    }
    if p.transform.translation.y + 500 >= BONUS_STAGE_ENDING_PLAYER_STARTING_POS_Y
        && p.transform.translation.y + 500 < BONUS_STAGE_ENDING_PLAYER_STARTING_POS_Y + 1000
        && p.transform.translation.x + 500 >= BONUS_STAGE_ENDING_PLAYER_STARTING_POS_X
        && p.transform.translation.x + 500 < BONUS_STAGE_ENDING_PLAYER_STARTING_POS_X + 1000 {
        p.player.0 = PlayerAction::Landing;
    }
}

} // verus!
