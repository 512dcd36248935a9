//! The scrolling backdrop and the timer that ends the bonus stage.

use vstd::prelude::*;

use crate::components::{Background, Dimensions, Player, Transform};
use crate::constants::{DELTA_LIMIT, FALLING_SPEED, WORLD_HEIGHT, WORLD_WIDTH};
use crate::components::LevelState;
use crate::math::{advance_coord, advanced, Vec2, Vec3};
use crate::resources::PauseEvent;
use crate::timer::{ticked, Timer, TimerMode};
use crate::utils::GameState;

verus! {

pub struct BackgroundPlugin;

/// The backdrop image.
#[derive(Clone, Copy, PartialEq, Eq, Structural, Debug)]
pub struct BackgroundBundle {
    pub background: Background,
    pub dimensions: Dimensions,
    pub transform: Transform,
    pub marked: bool,
}

/// Counts down the bonus stage once play has started.
#[derive(Clone, Copy, PartialEq, Eq, Structural, Debug)]
pub struct BonusStageTimer(pub Timer);

impl Default for BonusStageTimer {
    fn default() -> (r: BonusStageTimer)
        ensures
            r.0 == (Timer {
                elapsed_us: 0,
                duration_us: 2_000_000,
                mode: TimerMode::Once,
                fired: false,
            }),
            r.0.wf(),
    {
        BonusStageTimer(Timer::new(2_000_000, TimerMode::Once))
    }
}

/// Per-mille scale that fits the backdrop's useful width to the world.
pub open spec fn spec_background_scale() -> int {
    WORLD_WIDTH as int * 1000 / (1_248_000 - 207_000)
}

/// Vertical offset that pins the backdrop's skyline to the playfield.
pub open spec fn spec_background_y() -> int {
    -(1_667_000 * spec_background_scale() / 1000 / 2) + WORLD_HEIGHT as int / 4 + 55_000
}

impl BackgroundBundle {
    pub open spec fn wf(self) -> bool {
        &&& self.transform.wf()
        &&& self.dimensions.wf()
    }

    /// The backdrop, scaled to the world's width and anchored at its start
    /// position.
    pub fn new() -> (r: BackgroundBundle)
        ensures
            r.dimensions.0 == (Vec2 { x: 1_248_000i64, y: 1_667_000i64 }),
            r.transform.translation.x == 0,
            r.transform.translation.y == spec_background_y(),
            r.transform.translation.z == 0,
            r.transform.scale.x == spec_background_scale(),
            r.transform.scale.y == spec_background_scale(),
            !r.marked,
            r.wf(),
    {
        let dimensions = Dimensions(Vec2 { x: 1_248_000, y: 1_667_000 });
        let scale: i64 = ((WORLD_WIDTH as u64 * 1000) / (1_248_000 - 207_000)) as i64;
        let scaled_height: i64 = ((1_667_000u64 * (scale as u64)) / 1000) as i64;
        let y: i64 = -(crate::math::half_extent(scaled_height)) + WORLD_HEIGHT / 4 + 55_000;
        BackgroundBundle {
            background: Background,
            dimensions,
            transform: Transform {
                translation: Vec3 { x: 0, y, z: 0 },
                scale: Vec2 { x: scale, y: scale },
                rotation_mdeg: 0,
            },
            marked: false,
        }
    }
}

/// Put a fresh backdrop into the store.
pub fn spawn_background(backgrounds: &mut Vec<BackgroundBundle>)
    ensures
        final(backgrounds)@.len() == old(backgrounds)@.len() + 1,
        forall|i: int| 0 <= i < old(backgrounds)@.len()
            ==> #[trigger] final(backgrounds)@[i] == old(backgrounds)@[i],
        final(backgrounds)@.last().wf(),
        final(backgrounds)@.last().transform.translation.y == spec_background_y(),
{
    backgrounds.push(BackgroundBundle::new());
}

/// One scroll tick of the backdrop: it creeps upward at a hundredth of the
/// ambient fall speed.
pub open spec fn spec_background_step(b: BackgroundBundle, dt: int) -> BackgroundBundle {
    BackgroundBundle {
        transform: Transform {
            translation: Vec3 {
                x: b.transform.translation.x,
                y: advanced(
                    b.transform.translation.y as int, FALLING_SPEED as int / 100, dt) as i64,
                z: b.transform.translation.z,
            },
            ..b.transform
        },
        ..b
    }
}

/// Scroll every backdrop.
pub fn background_animator(backgrounds: &mut Vec<BackgroundBundle>, dt: u64)
    requires
        forall|i: int| 0 <= i < old(backgrounds)@.len() ==> #[trigger] old(backgrounds)@[i].wf(),
        dt <= DELTA_LIMIT,
    ensures
        final(backgrounds)@.len() == old(backgrounds)@.len(),
        forall|i: int| 0 <= i < old(backgrounds)@.len()
            ==> #[trigger] final(backgrounds)@[i]
                == spec_background_step(old(backgrounds)@[i], dt as int),
        forall|i: int| 0 <= i < final(backgrounds)@.len()
            ==> #[trigger] final(backgrounds)@[i].wf(),
{
    let ghost orig = backgrounds@;
    let mut i: usize = 0;
    while i < backgrounds.len()
        invariant
            i <= backgrounds@.len(),
            backgrounds@.len() == orig.len(),
            dt <= DELTA_LIMIT,
            forall|j: int| 0 <= j < orig.len() ==> #[trigger] orig[j].wf(),
            forall|j: int| i <= j < orig.len() ==> #[trigger] backgrounds@[j] == orig[j],
            forall|j: int| 0 <= j < i
                ==> #[trigger] backgrounds@[j] == spec_background_step(orig[j], dt as int),
            forall|j: int| 0 <= j < i ==> #[trigger] backgrounds@[j].wf(),
        decreases backgrounds@.len() - i,
    {
        proof {
            assert(backgrounds@[i as int] == orig[i as int]);
            assert(orig[i as int].wf());
        }
        let mut b = backgrounds[i];
        b.transform.translation.y = advance_coord(
            b.transform.translation.y,
            FALLING_SPEED / 100,
            dt,
        );
        backgrounds.set(i, b);
        i = i + 1;
    }
}

/// How a host tween eases between its endpoints.
#[derive(Clone, Copy, PartialEq, Eq, Structural, Debug)]
pub enum EaseKind {
    ExponentialIn,
}

/// A screen-sized black overlay fading in, handed to the host's tween
/// player when the stage ends.
#[derive(Clone, Copy, PartialEq, Eq, Structural, Debug)]
pub struct FadeToBlack {
    pub size: Vec2,
    pub from_alpha_milli: u32,
    pub to_alpha_milli: u32,
    pub duration_us: u64,
    pub ease: EaseKind,
}

/// The end-of-stage fade: a black curtain twice the world's width, fading
/// from clear to opaque over one second.
pub fn end_stage_background_fadeout() -> (f: FadeToBlack)
    ensures
        f == (FadeToBlack {
            size: Vec2 { x: (2 * WORLD_WIDTH) as i64, y: WORLD_HEIGHT },
            from_alpha_milli: 0,
            to_alpha_milli: 1000,
            duration_us: 1_000_000,
            ease: EaseKind::ExponentialIn,
        }),
{
    FadeToBlack {
        size: Vec2 { x: 2 * WORLD_WIDTH, y: WORLD_HEIGHT },
        from_alpha_milli: 0,
        to_alpha_milli: 1000,
        duration_us: 1_000_000,
        ease: EaseKind::ExponentialIn,
    }
}

/// Run the bonus-stage clock while play is on, and switch to the end-stage
/// scene the tick it completes.
pub fn bonus_stage_transition(
    dt: u64,
    stopwatch: &mut BonusStageTimer,
    player: &Player,
    game_state: &mut GameState,
    pause_event: &PauseEvent,
)
    requires
        old(stopwatch).0.wf(),
        dt <= DELTA_LIMIT,
    ensures
        final(stopwatch).0 == if player.1 is Start && pause_event is Unpaused {
            ticked(old(stopwatch).0, dt as int)
        } else {
            old(stopwatch).0
        },
        final(stopwatch).0.wf(),
        *final(game_state) == if final(stopwatch).0.fired {
            GameState::EndStage
        } else {
            *old(game_state)
        },
{
    if player.1 == LevelState::Start && *pause_event == PauseEvent::Unpaused {
        stopwatch.0.tick(dt);
    }
    if stopwatch.0.just_finished() {
        *game_state = GameState::EndStage;
    }
}

} // verus!
