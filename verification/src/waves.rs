//! The wave scheduler: an ordered list of enemy batches, consumed one wave
//! at a time.  Each frame the current wave's start delay runs; once it has
//! passed, the repeat interval runs, and each firing spawns one enemy and
//! decrements the wave's remaining count — or, with the count exhausted,
//! moves the cursor to the next wave.

use vstd::prelude::*;

use crate::constants::{DELTA_LIMIT, DURATION_LIMIT};
use crate::enemy::{spec_enemy_spawn_matches, valid_trajectory, EnemyBundle, EnemyType,
    StartingWall};
use crate::timer::{ticked, Timer, TimerMode};

verus! {

/// Enemies left to spawn in a wave.
#[derive(Clone, Copy, PartialEq, Eq, Structural, Debug)]
pub struct WaveCount(pub u32);

/// A wave's start delay: runs once, before the first spawn.
#[derive(Clone, Copy, PartialEq, Eq, Structural, Debug)]
pub struct EnemySpawnTimer(pub Timer);

/// A wave's spawn cadence: fires once per enemy.
#[derive(Clone, Copy, PartialEq, Eq, Structural, Debug)]
pub struct SpawnInterval(pub Timer);

/// One scheduled batch of enemies.
#[derive(Clone, Copy, PartialEq, Eq, Structural, Debug)]
pub struct Wave {
    pub enemy_type: EnemyType,
    pub enemy_count: WaveCount,
    pub enemy_interval: SpawnInterval,
    pub enemy_spawn_timer_sec: EnemySpawnTimer,
    pub starting_wall: StartingWall,
}

impl Wave {
    pub open spec fn wf(self) -> bool {
        &&& self.enemy_interval.0.wf()
        &&& self.enemy_interval.0.mode is Repeating
        &&& self.enemy_spawn_timer_sec.0.wf()
        &&& valid_trajectory(self.enemy_type.spec_trajectory())
    }
}

/// One wave as plain configuration values, as a loader hands them in.
#[derive(Clone, Copy, PartialEq, Eq, Structural, Debug, Hash)]
pub struct WaveData {
    pub enemy_type: EnemyType,
    pub enemy_count: u32,
    pub enemy_interval_us: u64,
    pub enemy_spawn_timer_us: u64,
    pub starting_wall: StartingWall,
}

impl WaveData {
    pub open spec fn wf(self) -> bool {
        &&& 0 < self.enemy_interval_us <= DURATION_LIMIT
        &&& 0 < self.enemy_spawn_timer_us <= DURATION_LIMIT
    }

    /// The wave a configuration record describes, with fresh timers.
    pub open spec fn spec_wave(self) -> Wave {
        Wave {
            enemy_type: self.enemy_type,
            enemy_count: WaveCount(self.enemy_count),
            enemy_interval: SpawnInterval(
                Timer {
                    elapsed_us: 0,
                    duration_us: self.enemy_interval_us,
                    mode: TimerMode::Repeating,
                    fired: false,
                },
            ),
            enemy_spawn_timer_sec: EnemySpawnTimer(
                Timer {
                    elapsed_us: 0,
                    duration_us: self.enemy_spawn_timer_us,
                    mode: TimerMode::Once,
                    fired: false,
                },
            ),
            starting_wall: self.starting_wall,
        }
    }

    pub fn to_wave(&self) -> (w: Wave)
        requires
            self.wf(),
        ensures
            w == self.spec_wave(),
            w.wf(),
    {
        Wave {
            enemy_type: self.enemy_type,
            enemy_count: WaveCount(self.enemy_count),
            enemy_interval: SpawnInterval(Timer::new(self.enemy_interval_us,
                TimerMode::Repeating)),
            enemy_spawn_timer_sec: EnemySpawnTimer(Timer::new(self.enemy_spawn_timer_us,
                TimerMode::Once)),
            starting_wall: self.starting_wall,
        }
    }
}

/// The ordered wave list and the cursor of the wave now running.
#[derive(Clone, Debug)]
pub struct Level(pub Vec<Wave>, pub usize);

impl Level {
    pub open spec fn wf(self) -> bool {
        forall|i: int| 0 <= i < self.0@.len() ==> #[trigger] self.0@[i].wf()
    }

    /// Build the level from loaded configuration records, cursor at the
    /// first wave.
    pub fn from_data(data: &Vec<WaveData>) -> (level: Level)
        requires
            forall|i: int| 0 <= i < data@.len() ==> #[trigger] data@[i].wf(),
        ensures
            level.1 == 0,
            level.0@.len() == data@.len(),
            forall|i: int| 0 <= i < data@.len()
                ==> #[trigger] level.0@[i] == data@[i].spec_wave(),
            level.wf(),
    {
        let mut waves: Vec<Wave> = Vec::new();
        let mut i: usize = 0;
        while i < data.len()
            invariant
                i <= data@.len(),
                forall|k: int| 0 <= k < data@.len() ==> #[trigger] data@[k].wf(),
                waves@.len() == i,
                forall|k: int| 0 <= k < i ==> #[trigger] waves@[k] == data@[k].spec_wave(),
                forall|k: int| 0 <= k < i ==> #[trigger] waves@[k].wf(),
            decreases data@.len() - i,
        {
            waves.push(data[i].to_wave());
            i = i + 1;
        }
        Level(waves, 0)
    }
}

pub struct WavePlugin;

/// The current wave after its timers ran for `dt`, given the start delay
/// had already passed or passes now.
pub open spec fn spec_wave_timers(w: Wave, dt: int) -> Wave {
    let started = ticked(w.enemy_spawn_timer_sec.0, dt);
    if started.spec_finished() {
        Wave {
            enemy_spawn_timer_sec: EnemySpawnTimer(started),
            enemy_interval: SpawnInterval(ticked(w.enemy_interval.0, dt)),
            ..w
        }
    } else {
        Wave { enemy_spawn_timer_sec: EnemySpawnTimer(started), ..w }
    }
}

/// The interval fires this frame, after the start delay has passed.
pub open spec fn spec_wave_fires(w: Wave, dt: int) -> bool {
    &&& ticked(w.enemy_spawn_timer_sec.0, dt).spec_finished()
    &&& ticked(w.enemy_interval.0, dt).fired
}

/// Run the wave scheduler for one frame.  With the cursor on a wave, the
/// wave's start delay advances; once it has passed, the interval advances
/// too, and each interval firing either spawns one enemy of the wave's
/// type at its starting wall and decrements the count, or — the count
/// already exhausted — moves the cursor to the next wave.
pub fn wave_spawner(
    level: &mut Level,
    dt: u64,
    enemies: &mut Vec<EnemyBundle>,
    rng: &mut rand::rngs::StdRng,
)
    requires
        old(level).wf(),
        dt <= DELTA_LIMIT,
        forall|i: int| 0 <= i < old(enemies)@.len() ==> #[trigger] old(enemies)@[i].wf(),
    ensures
        final(level).wf(),
        forall|i: int| 0 <= i < final(enemies)@.len() ==> #[trigger] final(enemies)@[i].wf(),
        ({
            let idx = old(level).1 as int;
            if idx >= old(level).0@.len() {
                &&& *final(level) == *old(level)
                &&& final(enemies)@ == old(enemies)@
            } else {
                let w = old(level).0@[idx];
                let w1 = spec_wave_timers(w, dt as int);
                let fires = spec_wave_fires(w, dt as int);
                let spawns = fires && w.enemy_count.0 > 0;
                &&& final(level).0@.len() == old(level).0@.len()
                &&& forall|k: int| 0 <= k < old(level).0@.len() && k != idx
                    ==> #[trigger] final(level).0@[k] == old(level).0@[k]
                &&& final(level).0@[idx] == if spawns {
                    Wave { enemy_count: WaveCount((w.enemy_count.0 - 1) as u32), ..w1 }
                } else {
                    w1
                }
                &&& final(level).1 == if fires && w.enemy_count.0 == 0 {
                    old(level).1 + 1
                } else {
                    old(level).1 as int
                }
                &&& if spawns {
                    &&& final(enemies)@.len() == old(enemies)@.len() + 1
                    &&& forall|k: int| 0 <= k < old(enemies)@.len()
                        ==> #[trigger] final(enemies)@[k] == old(enemies)@[k]
                    &&& spec_enemy_spawn_matches(
                        final(enemies)@.last(), w.enemy_type, w.starting_wall)
                } else {
                    final(enemies)@ == old(enemies)@
                }
            }
        }),
{
    let index = level.1;
    if index >= level.0.len() {
        return;
    }
    proof {
        assert(level.0@[index as int].wf());
    }
    let mut current_wave = level.0[index];
    current_wave.enemy_spawn_timer_sec.0.tick(dt);
    if current_wave.enemy_spawn_timer_sec.0.finished() {
        current_wave.enemy_interval.0.tick(dt);
        if current_wave.enemy_interval.0.just_finished() && current_wave.enemy_count.0 > 0 {
            let spawned = EnemyBundle::new(current_wave.enemy_type, current_wave.starting_wall,
                rng);
            match spawned {
                Ok(b) => {
                    enemies.push(b);
                }
                Err(_) => {
                    proof {
                        assert(false);
                    }
                }
            }
            current_wave.enemy_count.0 = current_wave.enemy_count.0 - 1;
        } else if current_wave.enemy_interval.0.just_finished() {
            level.1 = index + 1;
        }
    }
    level.0.set(index, current_wave);
}

} // verus!
