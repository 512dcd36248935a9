use shadow_dancer::math::{advance_coord, apply_gravity, isqrt_ceil, reflected_velocity,
    scale_by_delta, Vec2};
use shadow_dancer::timer::{Timer, TimerMode};

#[test]
fn motion_step_exact_values() {
    // 400 units/s for one 60 Hz tick covers 6.666 units, truncated.
    assert_eq!(scale_by_delta(-400_000, 16_666), -6_666);
    assert_eq!(scale_by_delta(400_000, 16_666), 6_666);
    assert_eq!(scale_by_delta(600_000, 16_666), 9_999);
    assert_eq!(scale_by_delta(0, 16_666), 0);
    assert_eq!(scale_by_delta(1_000_000, 1_000_000), 1_000_000);
}

#[test]
fn advance_saturates_at_record_limit() {
    assert_eq!(advance_coord(0, -400_000, 16_666), -6_666);
    assert_eq!(advance_coord(999_999_999, 100_000_000, 10_000_000), 1_000_000_000);
    assert_eq!(advance_coord(-999_999_999, -100_000_000, 10_000_000), -1_000_000_000);
}

#[test]
fn gravity_decrements_velocity() {
    // 420 units/s^2 for one 60 Hz tick sheds 6.99972 units/s, truncated.
    assert_eq!(apply_gravity(600_000, 420_000, 16_666), 600_000 - 6_999);
    assert_eq!(apply_gravity(-99_999_000, 420_000, 10_000_000), -100_000_000);
}

#[test]
fn isqrt_ceil_exact_values() {
    assert_eq!(isqrt_ceil(0), 0);
    assert_eq!(isqrt_ceil(1), 1);
    assert_eq!(isqrt_ceil(2), 2);
    assert_eq!(isqrt_ceil(4), 2);
    assert_eq!(isqrt_ceil(10), 4);
    assert_eq!(isqrt_ceil(10_000_000_000), 100_000);
    assert_eq!(isqrt_ceil(u64::MAX), 0x1_0000_0000);
}

#[test]
fn reflected_velocity_follows_the_offset() {
    // A 3-4-5 triangle: the magnitude is preserved exactly.
    let v = reflected_velocity(3, 4, 500);
    assert_eq!(v, Vec2 { x: 300, y: 400 });
    let v = reflected_velocity(-3, 4, 500);
    assert_eq!(v, Vec2 { x: -300, y: 400 });
    let v = reflected_velocity(3, -4, 500);
    assert_eq!(v, Vec2 { x: 300, y: -400 });
    // A zero offset sends the shuriken along the positive x axis.
    let v = reflected_velocity(0, 0, 400_000);
    assert_eq!(v, Vec2 { x: 400_000, y: 0 });
    // Straight up toward the player.
    let v = reflected_velocity(0, 100_000, 400_000);
    assert_eq!(v, Vec2 { x: 0, y: 400_000 });
}

#[test]
fn reflected_velocity_magnitude_never_exceeds_speed() {
    let speed: i64 = 400_000;
    let offsets = [(17, 93), (-250_000, 125_000), (1, 1), (999, -1), (-3, -7)];
    for (dx, dy) in offsets {
        let v = reflected_velocity(dx, dy, speed);
        assert!(v.x * v.x + v.y * v.y <= speed * speed);
    }
}

#[test]
fn repeating_timer_wraps_and_fires() {
    let mut t = Timer::new(100, TimerMode::Repeating);
    t.tick(250);
    assert!(t.just_finished());
    assert!(t.finished());
    assert_eq!(t.elapsed_us, 50);
    t.tick(40);
    assert!(!t.just_finished());
    assert!(!t.finished());
    assert_eq!(t.elapsed_us, 90);
    t.tick(10);
    assert!(t.just_finished());
    assert_eq!(t.elapsed_us, 0);
}

#[test]
fn once_timer_finishes_once_and_stays_finished() {
    let mut t = Timer::new(100, TimerMode::Once);
    t.tick(99);
    assert!(!t.finished());
    t.tick(1);
    assert!(t.just_finished());
    assert!(t.finished());
    t.tick(50);
    assert!(!t.just_finished());
    assert!(t.finished());
    assert_eq!(t.elapsed_us, 100);
}
