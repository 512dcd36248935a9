//! The transition movie between splash and title: a clip of thirteen
//! keyframe runs, each run showing a span of sprite cells at its own
//! cadence.

use vstd::prelude::*;

use crate::asset_loading::AssetHandler;
use crate::assets::GameAssets;
use crate::audio::{BGMEvents, SFXEvents};
use crate::constants::{DELTA_LIMIT, DURATION_LIMIT};
use crate::math::Vec2;
use crate::timer::{ticked, Timer, TimerMode};
use crate::utils::GameState;

verus! {

pub struct TransitionPlugin;

/// Tag of the transition movie record.
#[derive(Clone, Copy, PartialEq, Eq, Structural, Debug)]
pub struct Transition;

/// One keyframe run: a list of sprite cells, the cadence they play at, and
/// the cursor of the next cell.
#[derive(Debug)]
pub struct MovieKeyframe {
    pub frames: Vec<usize>,
    pub timer: Timer,
    pub index: usize,
}

/// A clip: keyframe runs played in order, with the cursor of the running
/// one.
#[derive(Debug)]
pub struct AnimationClip2D {
    pub keyframes: Vec<MovieKeyframe>,
    pub index: usize,
}

/// The movie record: the clip and the sprite cell now showing.
#[derive(Debug)]
pub struct TransitionBundle {
    pub transition: Transition,
    pub sprite_index: usize,
    pub animation_clip: AnimationClip2D,
}

/// The planned keyframe runs: cell span and cadence of each.
pub open spec fn spec_keyframe_plan() -> Seq<(int, int, int)> {
    seq![
        (0int, 8int, 20_000int),
        (8int, 9int, 40_000int),
        (9int, 10int, 20_000int),
        (10int, 13int, 10_000int),
        (13int, 23int, 20_000int),
        (23int, 24int, 70_000int),
        (24int, 31int, 40_000int),
        (31int, 31int, 260_000int),
        (31int, 37int, 40_000int),
        (37int, 38int, 290_000int),
        (38int, 92int, 20_000int),
        (93int, 93int, 2_440_000int),
        (92int, 157int, 30_000int),
    ]
}

impl MovieKeyframe {
    pub open spec fn wf(self) -> bool {
        self.timer.wf()
    }

    /// The run matches a plan entry: cells `lo..hi` at cadence `period`,
    /// rewound to the start.
    pub open spec fn matches_plan(self, lo: int, hi: int, period: int) -> bool {
        &&& self.frames@.len() == hi - lo
        &&& forall|k: int| 0 <= k < self.frames@.len() ==> #[trigger] self.frames@[k] == lo + k
        &&& self.timer == (Timer {
            elapsed_us: 0,
            duration_us: period as u64,
            mode: TimerMode::Repeating,
            fired: false,
        })
        &&& self.index == 0
    }
}

/// The cells `lo..hi`, in order.
fn frame_range(lo: usize, hi: usize) -> (v: Vec<usize>)
    requires
        lo <= hi,
    ensures
        v@.len() == hi - lo,
        forall|k: int| 0 <= k < v@.len() ==> #[trigger] v@[k] == lo + k,
{
    let mut v: Vec<usize> = Vec::new();
    let mut c = lo;
    while c < hi
        invariant
            lo <= c <= hi,
            v@.len() == c - lo,
            forall|k: int| 0 <= k < v@.len() ==> #[trigger] v@[k] == lo + k,
        decreases hi - c,
    {
        v.push(c);
        c = c + 1;
    }
    v
}

/// One keyframe run, rewound to its start.
fn keyframe(lo: usize, hi: usize, period_us: u64) -> (k: MovieKeyframe)
    requires
        lo <= hi,
        0 < period_us <= DURATION_LIMIT,
    ensures
        k.matches_plan(lo as int, hi as int, period_us as int),
        k.wf(),
{
    MovieKeyframe {
        frames: frame_range(lo, hi),
        timer: Timer::new(period_us, TimerMode::Repeating),
        index: 0,
    }
}

impl TransitionBundle {
    pub open spec fn wf(self) -> bool {
        forall|i: int| 0 <= i < self.animation_clip.keyframes@.len()
            ==> (#[trigger] self.animation_clip.keyframes@[i]).wf()
    }

    /// The whole movie, rewound: its thirteen keyframe runs as planned.
    pub fn new() -> (t: TransitionBundle)
        ensures
            t.transition == Transition,
            t.sprite_index == 0,
            t.animation_clip.index == 0,
            t.animation_clip.keyframes@.len() == spec_keyframe_plan().len(),
            forall|i: int| 0 <= i < spec_keyframe_plan().len()
                ==> (#[trigger] t.animation_clip.keyframes@[i]).matches_plan(
                    spec_keyframe_plan()[i].0,
                    spec_keyframe_plan()[i].1,
                    spec_keyframe_plan()[i].2,
                ),
            t.wf(),
    {
        let mut keyframes: Vec<MovieKeyframe> = Vec::new();
        keyframes.push(keyframe(0, 8, 20_000));
        keyframes.push(keyframe(8, 9, 40_000));
        keyframes.push(keyframe(9, 10, 20_000));
        keyframes.push(keyframe(10, 13, 10_000));
        keyframes.push(keyframe(13, 23, 20_000));
        keyframes.push(keyframe(23, 24, 70_000));
        keyframes.push(keyframe(24, 31, 40_000));
        keyframes.push(keyframe(31, 31, 260_000));
        keyframes.push(keyframe(31, 37, 40_000));
        keyframes.push(keyframe(37, 38, 290_000));
        keyframes.push(keyframe(38, 92, 20_000));
        keyframes.push(keyframe(93, 93, 2_440_000));
        keyframes.push(keyframe(92, 157, 30_000));
        TransitionBundle {
            transition: Transition,
            sprite_index: 0,
            animation_clip: AnimationClip2D { keyframes, index: 0 },
        }
    }
}

/// Queue the movie's sprite sheet, the melee sound and the title music.
pub fn load(asset_handler: &mut AssetHandler, game_assets: &mut GameAssets)
    requires
        old(asset_handler).next_handle + 4 < usize::MAX,
    ensures
        final(game_assets).transition.id == old(asset_handler).next_handle + 1,
        final(game_assets).melee_attack_sound.id == old(asset_handler).next_handle + 2,
        final(game_assets).title_screen_bgm.id == old(asset_handler).next_handle + 3,
        final(asset_handler).next_handle == old(asset_handler).next_handle + 4,
        final(asset_handler).asset_loading.queued().len()
            == old(asset_handler).asset_loading.queued().len() + 3,
        final(asset_handler).state == old(asset_handler).state,
        final(asset_handler).next_state == old(asset_handler).next_state,
        *final(game_assets) == (GameAssets {
            transition: final(game_assets).transition,
            melee_attack_sound: final(game_assets).melee_attack_sound,
            title_screen_bgm: final(game_assets).title_screen_bgm,
            ..*old(game_assets)
        }),
{
    asset_handler.add_texture_atlas(
        &mut game_assets.transition,
        "intro/transition.png",
        Vec2 { x: 322_000, y: 226_000 },
        11,
        15,
    );
    asset_handler.add_audio(&mut game_assets.melee_attack_sound, "sfx/melee_attack.ogg");
    asset_handler.add_audio(&mut game_assets.title_screen_bgm,
        "music/02 - Title - Keisuke Tsukahara.ogg");
}

/// Spawn the movie and play the sword-draw sting.
pub fn initialize_movie(sfx_events: &mut Vec<SFXEvents>) -> (t: TransitionBundle)
    ensures
        final(sfx_events)@ == old(sfx_events)@.push(SFXEvents::MeleeAttackSound),
        t.wf(),
        t.sprite_index == 0,
        t.animation_clip.index == 0,
        t.animation_clip.keyframes@.len() == spec_keyframe_plan().len(),
{
    sfx_events.push(SFXEvents::MeleeAttackSound);
    TransitionBundle::new()
}

/// Advance the movie by one tick.  The running keyframe's cadence timer
/// advances; when it fires, the run's next cell shows — or, the run spent,
/// the clip moves to the next run.  Reaching the end of the clip starts
/// loading the title screen, and the tick that shows cell six cues the
/// title music.
pub fn transition(
    dt: u64,
    movie: &mut TransitionBundle,
    game_assets: &mut GameAssets,
    asset_handler: &mut AssetHandler,
    bgm_events: &mut Vec<BGMEvents>,
)
    requires
        old(movie).wf(),
        dt <= DELTA_LIMIT,
        old(asset_handler).next_handle + 19 < usize::MAX,
    ensures
        final(movie).wf(),
        final(movie).animation_clip.keyframes@.len()
            == old(movie).animation_clip.keyframes@.len(),
        ({
            let clip = old(movie).animation_clip;
            if 0 <= clip.index < clip.keyframes@.len() {
                let kf = clip.keyframes@[clip.index as int];
                let t = ticked(kf.timer, dt as int);
                if t.fired {
                    let advances = kf.index < kf.frames@.len();
                    &&& final(movie).animation_clip.index == if advances {
                        clip.index as int
                    } else {
                        clip.index + 1
                    }
                    &&& final(movie).sprite_index == if advances {
                        kf.frames@[kf.index as int]
                    } else {
                        old(movie).sprite_index
                    }
                    &&& final(movie).animation_clip.keyframes@[clip.index as int].timer == t
                    &&& final(movie).animation_clip.keyframes@[clip.index as int].index
                        == if advances { kf.index + 1 } else { kf.index as int }
                    &&& final(movie).animation_clip.keyframes@[clip.index as int].frames@
                        == kf.frames@
                    &&& forall|k: int| 0 <= k < clip.keyframes@.len() && k != clip.index
                        ==> final(movie).animation_clip.keyframes@[k]
                            == (#[trigger] clip.keyframes@[k])
                    &&& (final(movie).animation_clip.index >= 13 ==> {
                        &&& final(asset_handler).state == GameState::Loading
                        &&& final(asset_handler).next_state.state == GameState::TitleScreen
                    })
                    &&& (final(movie).animation_clip.index < 13 ==> {
                        &&& *final(asset_handler) == *old(asset_handler)
                        &&& *final(game_assets) == *old(game_assets)
                    })
                    &&& final(bgm_events)@ == if final(movie).sprite_index == 6 {
                        old(bgm_events)@.push(BGMEvents::TitleScreenMusic)
                    } else {
                        old(bgm_events)@
                    }
                } else {
                    &&& final(movie).animation_clip.index == clip.index
                    &&& final(movie).sprite_index == old(movie).sprite_index
                    &&& final(movie).animation_clip.keyframes@[clip.index as int].timer == t
                    &&& final(movie).animation_clip.keyframes@[clip.index as int].index
                        == kf.index
                    &&& final(movie).animation_clip.keyframes@[clip.index as int].frames@
                        == kf.frames@
                    &&& forall|k: int| 0 <= k < clip.keyframes@.len() && k != clip.index
                        ==> final(movie).animation_clip.keyframes@[k]
                            == (#[trigger] clip.keyframes@[k])
                    &&& *final(asset_handler) == *old(asset_handler)
                    &&& *final(game_assets) == *old(game_assets)
                    &&& final(bgm_events)@ == old(bgm_events)@
                }
            } else {
                &&& *final(movie) == *old(movie)
                &&& *final(asset_handler) == *old(asset_handler)
                &&& *final(game_assets) == *old(game_assets)
                &&& final(bgm_events)@ == old(bgm_events)@
            }
        }),
{
    let clip_index = movie.animation_clip.index;
    if clip_index >= movie.animation_clip.keyframes.len() {
        return;
    }
    let ghost before = movie.animation_clip.keyframes@;
    let mut kf = movie.animation_clip.keyframes.remove(clip_index);
    kf.timer.tick(dt);
    let fired = kf.timer.just_finished();
    if fired {
        if kf.index < kf.frames.len() {
            movie.sprite_index = kf.frames[kf.index];
            kf.index = kf.index + 1;
        } else {
            movie.animation_clip.index = clip_index + 1;
        }
    }
    movie.animation_clip.keyframes.insert(clip_index, kf);
    proof {
        assert(movie.animation_clip.keyframes@ =~= before.update(
            clip_index as int,
            movie.animation_clip.keyframes@[clip_index as int],
        ));
    }
    if fired {
        if movie.animation_clip.index >= 13 {
            asset_handler.load(GameState::TitleScreen, game_assets);
        }
        if movie.sprite_index == 6 {
            bgm_events.push(BGMEvents::TitleScreenMusic);
        }
    }
}

} // verus!
