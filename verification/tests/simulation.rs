use rand::SeedableRng;

use shadow_dancer::audio::SFXEvents;
use shadow_dancer::collision::{collision_outcome, collision_system, CollisionOutcome};
use shadow_dancer::components::{Dimensions, Enemy, EnemyState, Gravity, HitBox,
    InitialEnemySpeed, LevelState, Player, PlayerAction, SpriteFrame, Transform, Velocity,
    WallHangingTimer};
use shadow_dancer::constants::{LEFT_WALL, RIGHT_WALL, WORLD_HEIGHT};
use shadow_dancer::death_effect::death_effect_animator;
use shadow_dancer::enemy::{enemy_animator, enemy_movement, gravity_system, EnemyBundle,
    EnemyType, ReflectChance, StartingWall};
use shadow_dancer::math::{Vec2, Vec3};
use shadow_dancer::player::{end_stage_movement, player_attacking_system, player_controls,
    player_flipping_animation, player_scoreboard_animation, player_walking_animation,
    spawn_player, InputState, PlayerBundle, SHURIKEN_SPEED};
use shadow_dancer::resources::PauseEvent;
use shadow_dancer::shuriken::{reflect_projectile, shuriken_movement, ShurikenBundle};
use shadow_dancer::timer::{Timer, TimerMode};
use shadow_dancer::utils::despawner;
use shadow_dancer::waves::{wave_spawner, Level, WaveData};
use shadow_dancer::world::World;

const TICK: u64 = 16_666;

fn test_enemy(x: i64, vx: i64, hang_us: u64) -> EnemyBundle {
    EnemyBundle {
        enemy: Enemy(EnemyState::Airborne),
        velocity: Velocity(Vec2 { x: vx, y: 0 }),
        gravity: Gravity(420_000),
        initial_enemy_speed: InitialEnemySpeed(600_000),
        wall_hanging_timer: WallHangingTimer(Timer {
            elapsed_us: 0,
            duration_us: hang_us,
            mode: TimerMode::Repeating,
            fired: false,
        }),
        hitbox: HitBox(Vec2 { x: 35_000, y: 60_000 }),
        transform: Transform {
            translation: Vec3 { x, y: 0, z: 1000 },
            scale: Vec2 { x: 1000, y: 1000 },
            rotation_mdeg: 0,
        },
        sprite: SpriteFrame { index: 0, flip_x: false },
        reflect_chance: ReflectChance(200),
        dimensions: Dimensions(Vec2 { x: 30_000, y: 30_000 }),
        marked: false,
    }
}

#[test]
fn enemy_crossing_the_boundary_hangs_with_velocity_kept() {
    // One enemy just inside the left wall, moving left: after one tick it
    // wall-hangs and its velocity is untouched until the hang timer fires.
    let mut enemies = vec![test_enemy(LEFT_WALL + 1_000, -100_000, 300_000)];
    enemy_movement(&mut enemies, TICK);
    assert_eq!(enemies[0].enemy.0, EnemyState::WallHanging);
    assert_eq!(enemies[0].velocity.0, Vec2 { x: -100_000, y: 0 });
    assert_eq!(enemies[0].transform.translation.x, LEFT_WALL + 1_000);
    enemy_movement(&mut enemies, TICK);
    assert_eq!(enemies[0].enemy.0, EnemyState::WallHanging);
    assert_eq!(enemies[0].velocity.0, Vec2 { x: -100_000, y: 0 });
}

#[test]
fn wall_hang_timer_completion_flips_velocity_once() {
    let mut enemies = vec![test_enemy(LEFT_WALL + 1_000, -100_000, 100_000)];
    enemy_movement(&mut enemies, 50_000);
    assert_eq!(enemies[0].enemy.0, EnemyState::WallHanging);
    assert_eq!(enemies[0].velocity.0.x, -100_000);
    enemy_movement(&mut enemies, 50_000);
    assert_eq!(enemies[0].enemy.0, EnemyState::Airborne);
    assert_eq!(enemies[0].velocity.0.x, 100_000);
    assert_eq!(enemies[0].velocity.0.y, 600_000);
}

#[test]
fn enemy_escaping_over_the_top_is_tagged() {
    let mut e = test_enemy(0, 0, 300_000);
    e.transform.translation.y = WORLD_HEIGHT / 2 + 100_000;
    e.velocity.0.y = 600_000;
    let mut enemies = vec![e];
    enemy_movement(&mut enemies, TICK);
    assert!(enemies[0].marked);
    assert_eq!(enemies[0].enemy.0, EnemyState::Airborne);
}

#[test]
fn gravity_pulls_airborne_enemies_only() {
    let mut hanging = test_enemy(LEFT_WALL + 1_000, -100_000, 300_000);
    hanging.enemy.0 = EnemyState::WallHanging;
    let mut enemies = vec![test_enemy(0, 0, 300_000), hanging];
    gravity_system(&mut enemies, TICK);
    assert_eq!(enemies[0].velocity.0.y, -6_999);
    assert_eq!(enemies[1].velocity.0.y, 0);
}

#[test]
fn enemy_sprite_follows_state_and_heading() {
    let mut left = test_enemy(0, -100_000, 300_000);
    let mut right = test_enemy(0, 100_000, 300_000);
    right.enemy.0 = EnemyState::WallHanging;
    left.sprite.index = 9;
    right.sprite.index = 9;
    let mut enemies = vec![left, right];
    enemy_animator(&mut enemies);
    assert_eq!(enemies[0].sprite.index, 1);
    assert_eq!(enemies[1].sprite.index, 3);
}

#[test]
fn enemy_factory_builds_the_launch_record() {
    let mut rng = rand::rngs::StdRng::seed_from_u64(7);
    let b = EnemyBundle::new(EnemyType::Pawn, StartingWall::Left, &mut rng).unwrap();
    assert_eq!(b.enemy.0, EnemyState::Airborne);
    assert_eq!(b.velocity.0, Vec2 { x: 600_000, y: 600_000 });
    assert_eq!(b.initial_enemy_speed.0, 600_000);
    assert_eq!(b.gravity.0, 420_000);
    assert_eq!(b.reflect_chance.0, 200);
    assert_eq!(b.transform.translation, Vec3 { x: LEFT_WALL, y: -275_000, z: 1000 });
    assert!(100_000 <= b.wall_hanging_timer.0.duration_us);
    assert!(b.wall_hanging_timer.0.duration_us < 400_000);
    let b = EnemyBundle::new(EnemyType::Pawn, StartingWall::Right, &mut rng).unwrap();
    assert_eq!(b.velocity.0, Vec2 { x: -600_000, y: 600_000 });
    assert_eq!(b.transform.translation.x, RIGHT_WALL);
}

#[test]
fn same_seed_gives_the_same_hang_duration() {
    let mut rng_a = rand::rngs::StdRng::seed_from_u64(42);
    let mut rng_b = rand::rngs::StdRng::seed_from_u64(42);
    let a = EnemyBundle::new(EnemyType::Pawn, StartingWall::Left, &mut rng_a).unwrap();
    let b = EnemyBundle::new(EnemyType::Pawn, StartingWall::Left, &mut rng_b).unwrap();
    assert_eq!(a.wall_hanging_timer.0.duration_us, b.wall_hanging_timer.0.duration_us);
}

#[test]
fn unreflected_shuriken_falls_straight_for_two_seconds() {
    // Spawned at the origin with downward velocity 400 units/s: after two
    // seconds of 60 Hz ticks it sits near -800 units and has been tagged
    // once it passed the lower bound.
    let mut shurikens = vec![ShurikenBundle::new(Vec3 { x: 0, y: 0, z: 0 }, SHURIKEN_SPEED)];
    let mut last_y = 0;
    for _ in 0..120 {
        shuriken_movement(&mut shurikens, TICK);
        assert_eq!(shurikens[0].transform.translation.x, 0);
        assert!(shurikens[0].transform.translation.y < last_y);
        last_y = shurikens[0].transform.translation.y;
    }
    assert_eq!(shurikens[0].transform.translation.y, -120 * 6_666);
    assert!((shurikens[0].transform.translation.y as f64 / 1000.0 + 800.0).abs() < 1.0);
    assert!(shurikens[0].marked);
}

#[test]
fn shuriken_is_tagged_only_past_the_lower_bound() {
    let mut shurikens = vec![ShurikenBundle::new(Vec3 { x: 0, y: 0, z: 0 }, SHURIKEN_SPEED)];
    for _ in 0..63 {
        shuriken_movement(&mut shurikens, TICK);
    }
    // At -419.958 units it is still above the bound of -420 units.
    assert_eq!(shurikens[0].transform.translation.y, -63 * 6_666);
    assert!(!shurikens[0].marked);
    shuriken_movement(&mut shurikens, TICK);
    assert!(shurikens[0].marked);
}

#[test]
fn shuriken_pinned_at_a_wall_falls_at_ambient_speed() {
    let mut s = ShurikenBundle::new(Vec3 { x: LEFT_WALL - 1_000, y: 0, z: 0 }, SHURIKEN_SPEED);
    s.velocity.0 = Vec2 { x: 0, y: -400_000 };
    let mut shurikens = vec![s];
    shuriken_movement(&mut shurikens, TICK);
    assert_eq!(shurikens[0].speed.0, 0);
    assert_eq!(shurikens[0].transform.translation.x, LEFT_WALL - 1_000);
    assert_eq!(shurikens[0].transform.translation.y, -9_999);
}

#[test]
fn collision_outcome_matches_the_chance() {
    assert_eq!(collision_outcome(EnemyState::Airborne, 199, 200), CollisionOutcome::Reflect);
    assert_eq!(collision_outcome(EnemyState::Airborne, 200, 200), CollisionOutcome::Kill);
    assert_eq!(collision_outcome(EnemyState::WallHanging, 999, 200), CollisionOutcome::Reflect);
    assert_eq!(collision_outcome(EnemyState::Airborne, 0, 0), CollisionOutcome::Kill);
}

#[test]
fn outcome_rates_track_the_reflect_chance() {
    // Airborne enemy with reflect chance 0.20: over 100_000 uniform rolls
    // the empirical kill rate sits near 0.80 and the reflect rate near 0.20.
    let mut rng = rand::rngs::StdRng::seed_from_u64(9);
    let trials = 100_000;
    let mut kills = 0u32;
    let mut reflects = 0u32;
    for _ in 0..trials {
        let roll = rand::Rng::gen_range(&mut rng, 0u64..1000);
        match collision_outcome(EnemyState::Airborne, roll, 200) {
            CollisionOutcome::Kill => kills += 1,
            CollisionOutcome::Reflect => reflects += 1,
        }
    }
    let kill_rate = kills as f64 / trials as f64;
    let reflect_rate = reflects as f64 / trials as f64;
    assert!((kill_rate - 0.80).abs() < 0.01);
    assert!((reflect_rate - 0.20).abs() < 0.01);
}

#[test]
fn killing_blow_tags_both_and_spawns_the_effect() {
    // Reflect chance zero makes the outcome deterministic: the enemy dies.
    let player = Transform {
        translation: Vec3 { x: 0, y: 100_000, z: 2000 },
        scale: Vec2 { x: 1000, y: 1000 },
        rotation_mdeg: 0,
    };
    let mut shurikens = vec![ShurikenBundle::new(Vec3 { x: 0, y: 0, z: 0 }, SHURIKEN_SPEED)];
    let mut enemy = test_enemy(10_000, -100_000, 300_000);
    enemy.reflect_chance = ReflectChance(0);
    let mut enemies = vec![enemy];
    let mut effects = Vec::new();
    let mut sfx = Vec::new();
    let mut rng = rand::rngs::StdRng::seed_from_u64(3);
    collision_system(&player, &mut shurikens, &mut enemies, &mut effects, &mut sfx, &mut rng);
    assert!(shurikens[0].marked);
    assert!(enemies[0].marked);
    assert_eq!(enemies[0].enemy.0, EnemyState::Dead);
    assert_eq!(effects.len(), 1);
    assert_eq!(effects[0].transform.translation, enemies[0].transform.translation);
    assert_eq!(sfx, vec![SFXEvents::CollisionSound, SFXEvents::DeathSound]);
}

#[test]
fn hanging_enemy_reflects_toward_the_player() {
    // A wall-hanging enemy always reflects; the reflected velocity is the
    // cached speed aimed at the player, deterministic in the two positions.
    let player = Transform {
        translation: Vec3 { x: 0, y: 100_000, z: 2000 },
        scale: Vec2 { x: 1000, y: 1000 },
        rotation_mdeg: 0,
    };
    let mut shurikens = vec![ShurikenBundle::new(Vec3 { x: 0, y: 0, z: 0 }, SHURIKEN_SPEED)];
    let mut enemy = test_enemy(10_000, -100_000, 300_000);
    enemy.enemy.0 = EnemyState::WallHanging;
    let mut enemies = vec![enemy];
    let mut effects = Vec::new();
    let mut sfx = Vec::new();
    let mut rng = rand::rngs::StdRng::seed_from_u64(3);
    collision_system(&player, &mut shurikens, &mut enemies, &mut effects, &mut sfx, &mut rng);
    assert!(!shurikens[0].marked);
    let reflected = shurikens[0].reflected.unwrap();
    assert_eq!(reflected.dx, 0);
    assert_eq!(reflected.dy, 100_000);
    reflect_projectile(&mut shurikens);
    assert_eq!(shurikens[0].velocity.0, Vec2 { x: 0, y: 400_000 });
    let v = shurikens[0].velocity.0;
    assert!(v.x * v.x + v.y * v.y <= SHURIKEN_SPEED * SHURIKEN_SPEED);
    // The recomputation on a later tick yields the same vector.
    shuriken_movement(&mut shurikens, TICK);
    reflect_projectile(&mut shurikens);
    assert_eq!(shurikens[0].velocity.0, Vec2 { x: 0, y: 400_000 });
}

#[test]
fn despawn_sweep_twice_is_a_no_op() {
    let mut world = World::new();
    world.enemies = vec![test_enemy(0, 0, 300_000), {
        let mut e = test_enemy(5_000, 0, 300_000);
        e.marked = true;
        e
    }, test_enemy(9_000, 0, 300_000)];
    world.shurikens = vec![{
        let mut s = ShurikenBundle::new(Vec3 { x: 0, y: 0, z: 0 }, SHURIKEN_SPEED);
        s.marked = true;
        s
    }];
    spawn_player(&mut world.player);
    despawner(&mut world);
    assert_eq!(world.enemies.len(), 2);
    assert_eq!(world.enemies[0].transform.translation.x, 0);
    assert_eq!(world.enemies[1].transform.translation.x, 9_000);
    assert_eq!(world.shurikens.len(), 0);
    assert!(world.player.is_some());
    let enemies = world.enemies.clone();
    let shurikens = world.shurikens.clone();
    let player = world.player;
    despawner(&mut world);
    assert_eq!(world.enemies, enemies);
    assert_eq!(world.shurikens, shurikens);
    assert_eq!(world.player, player);
}

#[test]
fn attack_cycle_spawns_exactly_one_shuriken() {
    // A full attack cycle of four 0.035 s periods reaches the contact frame
    // index 3 exactly once, spawns exactly one shuriken, and falls again.
    let mut p = PlayerBundle::new();
    p.player = Player(PlayerAction::Attacking, LevelState::Start);
    p.transform.translation = Vec3 { x: 0, y: 0, z: 2000 };
    let mut sfx = Vec::new();
    let mut spawned = Vec::new();
    let mut contact_frames = 0;
    for _ in 0..4 {
        if let Some(s) = player_attacking_system(&mut p, 35_000, &mut sfx) {
            spawned.push(s);
        }
        if p.sprite.index == 3 {
            contact_frames += 1;
        }
    }
    assert_eq!(contact_frames, 1);
    assert_eq!(spawned.len(), 1);
    assert_eq!(p.player.0, PlayerAction::Falling);
    assert_eq!(sfx, vec![SFXEvents::ShurikenSound]);
    assert_eq!(spawned[0].transform.translation, Vec3 { x: 0, y: -20_000, z: 2000 });
    assert_eq!(spawned[0].speed.0, SHURIKEN_SPEED);
}

#[test]
fn airborne_controls_move_and_attack() {
    let mut p = PlayerBundle::new();
    p.player = Player(PlayerAction::Falling, LevelState::Start);
    p.transform.translation = Vec3 { x: 0, y: 0, z: 2000 };
    let input = InputState {
        left_pressed: true,
        right_pressed: false,
        up_pressed: false,
        down_pressed: false,
        attack_just_pressed: true,
        confirm_just_pressed: false,
        horizontal_just_released: false,
    };
    player_controls(&mut p, &input, TICK);
    assert_eq!(p.transform.translation.x, -5_833);
    assert_eq!(p.player.0, PlayerAction::Attacking);
}

#[test]
fn intro_walk_is_clamped_and_idle_on_release() {
    let mut p = PlayerBundle::new();
    let input_right = InputState {
        left_pressed: false,
        right_pressed: true,
        up_pressed: false,
        down_pressed: false,
        attack_just_pressed: false,
        confirm_just_pressed: false,
        horizontal_just_released: false,
    };
    player_controls(&mut p, &input_right, TICK);
    assert_eq!(p.player.0, PlayerAction::WalkingRight);
    assert_eq!(p.transform.translation.x, -137_143 + 2_499);
    let input_released = InputState {
        left_pressed: false,
        right_pressed: false,
        up_pressed: false,
        down_pressed: false,
        attack_just_pressed: false,
        confirm_just_pressed: false,
        horizontal_just_released: true,
    };
    player_controls(&mut p, &input_released, TICK);
    assert_eq!(p.player.0, PlayerAction::Idle);
    player_walking_animation(&mut p, TICK);
    assert_eq!(p.sprite.index, 7);
}

#[test]
fn finishing_the_flip_starts_play_and_unpauses() {
    let mut p = PlayerBundle::new();
    p.player = Player(PlayerAction::Flipping, LevelState::Intro);
    p.sprite.index = 19;
    let mut pause = PauseEvent::Paused;
    player_flipping_animation(&mut p, 100_000, &mut pause);
    assert_eq!(p.player.0, PlayerAction::Falling);
    assert_eq!(p.player.1, LevelState::Start);
    assert_eq!(pause, PauseEvent::Unpaused);
    assert_eq!(p.sprite.index, 20);
}

#[test]
fn end_stage_walk_reaches_the_mark_and_lands() {
    let mut p = PlayerBundle::new();
    p.player = Player(PlayerAction::Falling, LevelState::Start);
    p.transform.translation = Vec3 { x: -30_000, y: 70_000, z: 2000 };
    let mut guard = 0;
    while p.player.0 != PlayerAction::Landing {
        end_stage_movement(&mut p, TICK);
        guard += 1;
        assert!(guard < 1000);
    }
    assert!((p.transform.translation.x + 500).abs() < 1000);
    assert!((p.transform.translation.y - 100_000).abs() <= 500);
}

#[test]
fn death_effect_plays_out_and_tags_itself() {
    let mut effects = vec![shadow_dancer::death_effect::DeathEffectBundle::new(
        Vec3 { x: 0, y: 0, z: 1000 },
    )];
    for _ in 0..3 {
        death_effect_animator(&mut effects, 150_000);
    }
    assert_eq!(effects[0].sprite.index, 3);
    assert!(!effects[0].marked);
    death_effect_animator(&mut effects, 150_000);
    assert!(effects[0].marked);
    assert!(effects[0].transform.translation.y > 0);
}

#[test]
fn wave_scheduler_spawns_then_advances() {
    let data = vec![WaveData {
        enemy_type: EnemyType::Pawn,
        enemy_count: 1,
        enemy_interval_us: 500_000,
        enemy_spawn_timer_us: 100_000,
        starting_wall: StartingWall::Left,
    }];
    let mut level = Level::from_data(&data);
    let mut enemies = Vec::new();
    let mut rng = rand::rngs::StdRng::seed_from_u64(11);
    // The start delay passes; the interval has not fired yet.
    wave_spawner(&mut level, 100_000, &mut enemies, &mut rng);
    assert_eq!(enemies.len(), 0);
    assert_eq!(level.1, 0);
    // The interval fires: one enemy spawns and the count drops to zero.
    wave_spawner(&mut level, 400_000, &mut enemies, &mut rng);
    assert_eq!(enemies.len(), 1);
    assert_eq!(level.0[0].enemy_count.0, 0);
    assert_eq!(level.1, 0);
    assert_eq!(enemies[0].enemy.0, EnemyState::Airborne);
    assert_eq!(enemies[0].transform.translation.x, LEFT_WALL);
    // The next firing finds the count exhausted and advances the cursor.
    wave_spawner(&mut level, 500_000, &mut enemies, &mut rng);
    assert_eq!(enemies.len(), 1);
    assert_eq!(level.1, 1);
    // Past the last wave nothing changes.
    wave_spawner(&mut level, 500_000, &mut enemies, &mut rng);
    assert_eq!(enemies.len(), 1);
    assert_eq!(level.1, 1);
}

#[test]
fn pause_gate_admits_only_started_unpaused_play() {
    let started = Player(PlayerAction::Falling, LevelState::Start);
    let intro = Player(PlayerAction::Idle, LevelState::Intro);
    assert!(shadow_dancer::pause_game(&PauseEvent::Unpaused, Some(&started)));
    assert!(!shadow_dancer::pause_game(&PauseEvent::Paused, Some(&started)));
    assert!(!shadow_dancer::pause_game(&PauseEvent::Unpaused, Some(&intro)));
    assert!(!shadow_dancer::pause_game(&PauseEvent::Unpaused, None));
}

#[test]
fn landing_plays_backwards_down_to_the_final_height() {
    let mut p = PlayerBundle::new();
    p.player = Player(PlayerAction::Landing, LevelState::Start);
    p.transform.translation = Vec3 { x: 0, y: 100_000, z: 2000 };
    p.velocity.0.y = 250_000;
    p.sprite.index = 0;
    player_scoreboard_animation(&mut p, 100_000);
    // A landing player below the flip cells jumps to the last one.
    assert_eq!(p.sprite.index, 18);
    let mut guard = 0;
    while p.player.0 != PlayerAction::Landed {
        player_scoreboard_animation(&mut p, 100_000);
        guard += 1;
        assert!(guard < 2000);
    }
    assert_eq!(p.sprite.index, 15);
    // A landed player holds the crouch cell.
    player_scoreboard_animation(&mut p, 100_000);
    assert_eq!(p.sprite.index, 14);
    // The landing completed just below the scripted final height.
    assert!(p.transform.translation.y + 500 < -100_000 + 1_000_000);
}

#[test]
fn systems_accept_empty_stores_and_the_largest_tick() {
    let mut enemies: Vec<EnemyBundle> = Vec::new();
    let mut shurikens: Vec<ShurikenBundle> = Vec::new();
    enemy_movement(&mut enemies, 10_000_000);
    gravity_system(&mut enemies, 10_000_000);
    shuriken_movement(&mut shurikens, 10_000_000);
    reflect_projectile(&mut shurikens);
    let mut world = World::new();
    despawner(&mut world);
    assert!(enemies.is_empty());
    assert!(shurikens.is_empty());
    // One whole ten-second tick moves a falling shuriken four thousand units.
    let mut one = vec![ShurikenBundle::new(Vec3 { x: 0, y: 0, z: 0 }, SHURIKEN_SPEED)];
    shuriken_movement(&mut one, 10_000_000);
    assert_eq!(one[0].transform.translation.y, -4_000_000);
    assert!(one[0].marked);
}
