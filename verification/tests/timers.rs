//! Cooldown timers, repeating animation timers, and feedback animations.

use space_shooter::effects::{Effect, EffectKind, animate_sprite};
use space_shooter::shooting::ProjectileType;
use space_shooter::timer::{RepeatTimer, Timer};

#[test]
fn a_running_timer_accumulates_and_clamps_at_its_duration() {
    let mut t = Timer::new(1_000);
    assert!(!t.finished());
    t.tick(400);
    assert_eq!(t.elapsed_us, 400);
    assert!(!t.finished());
    t.tick(700);
    assert_eq!(t.elapsed_us, 1_000);
    assert!(t.finished());
}

#[test]
fn ticking_a_ready_timer_with_zero_elapsed_changes_nothing() {
    let mut t = Timer::new(500);
    t.tick(500);
    assert!(t.finished());
    let before = t;
    t.tick(0);
    assert_eq!(t, before);
    assert!(t.finished());
}

#[test]
fn ticking_a_cooling_timer_with_zero_elapsed_changes_nothing() {
    let mut t = Timer::new(500);
    t.tick(100);
    let before = t;
    t.tick(0);
    assert_eq!(t, before);
}

#[test]
fn a_paused_timer_never_advances() {
    let mut t = Timer::new_paused(500);
    t.tick(10_000);
    assert_eq!(t.elapsed_us, 0);
    assert!(!t.finished());
    t.unpause();
    t.tick(500);
    assert!(t.finished());
}

#[test]
fn reset_starts_the_cooldown_over() {
    let mut t = Timer::new(500);
    t.tick(500);
    assert!(t.finished());
    t.reset();
    assert!(!t.finished());
    assert_eq!(t.elapsed_us, 0);
    assert_eq!(t.duration_us, 500);
}

#[test]
fn a_repeating_timer_fires_once_per_period_and_keeps_the_remainder() {
    let mut t = RepeatTimer::new(1_000);
    assert!(!t.tick(999));
    assert!(t.tick(1));
    assert_eq!(t.elapsed_us, 0);
    assert!(t.tick(1_300));
    assert_eq!(t.elapsed_us, 300);
}

#[test]
fn an_explosion_advances_twelve_frames_then_disappears() {
    let mut effects = vec![Effect::explosion(0, 0)];
    assert_eq!(effects[0].frame, 0);
    assert_eq!(effects[0].last_frame, 11);
    for expected in 1..=11 {
        animate_sprite(&mut effects, 19_000);
        assert_eq!(effects.len(), 1);
        assert_eq!(effects[0].frame, expected);
    }
    animate_sprite(&mut effects, 19_000);
    assert!(effects.is_empty());
}

#[test]
fn a_hit_flash_is_keyed_by_the_projectile_kind_and_is_short() {
    let mut effects = vec![Effect::hit_flash(ProjectileType::Stomp, 5, -5)];
    assert!(matches!(effects[0].kind, EffectKind::HitFlash(ProjectileType::Stomp)));
    animate_sprite(&mut effects, 30_000);
    assert_eq!(effects.len(), 1);
    assert_eq!(effects[0].frame, 1);
    animate_sprite(&mut effects, 30_000);
    assert!(effects.is_empty());
}

#[test]
fn a_slow_frame_does_not_advance_an_effect_early() {
    let mut effects = vec![Effect::explosion(0, 0)];
    animate_sprite(&mut effects, 18_999);
    assert_eq!(effects.len(), 1);
    assert_eq!(effects[0].frame, 0);
    animate_sprite(&mut effects, 1);
    assert_eq!(effects[0].frame, 1);
}
