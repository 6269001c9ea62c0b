use octo_survivors::sprites::SpriteAnimation;
use octo_survivors::timer::{Timer, TimerMode};

#[test]
fn once_timer_finishes_exactly_at_period() {
    let mut t = Timer::new_once(400);
    assert_eq!(t.period_ms, 400);
    assert!(!t.finished());
    t.tick(399);
    assert!(!t.finished());
    assert!(!t.just_finished());
    t.tick(1);
    assert!(t.finished());
    assert!(t.just_finished());
    // A finished one-shot timer stays finished but fires only once.
    t.tick(50);
    assert!(t.finished());
    assert!(!t.just_finished());
}

#[test]
fn once_timer_depends_only_on_total_elapsed() {
    // Any stepping that sums to 390 ms leaves the timer unfinished; any
    // stepping that sums to 410 ms leaves it finished.
    let mut fine = Timer::new_once(400);
    for _ in 0..39 {
        fine.tick(10);
    }
    let mut coarse = Timer::new_once(400);
    coarse.tick(390);
    assert!(!fine.finished());
    assert!(!coarse.finished());
    assert_eq!(fine.elapsed_ms, coarse.elapsed_ms);

    let mut fine = Timer::new_once(400);
    for _ in 0..41 {
        fine.tick(10);
    }
    let mut coarse = Timer::new_once(400);
    coarse.tick(410);
    assert!(fine.finished());
    assert!(coarse.finished());
    assert_eq!(fine.elapsed_ms, coarse.elapsed_ms);
}

#[test]
fn repeating_timer_wraps_and_fires() {
    let mut t = Timer::new_repeating(1000);
    t.tick(999);
    assert!(!t.just_finished());
    assert_eq!(t.elapsed_ms, 999);
    t.tick(1);
    assert!(t.just_finished());
    assert_eq!(t.elapsed_ms, 0);
    // A single large tick spanning more than one period still fires and
    // keeps the remainder.
    t.tick(2500);
    assert!(t.just_finished());
    assert_eq!(t.elapsed_ms, 500);
    t.tick(100);
    assert!(!t.just_finished());
    assert_eq!(t.elapsed_ms, 600);
}

#[test]
fn timer_mode_is_kept() {
    let mut once = Timer::new_once(7);
    once.tick(9);
    assert!(matches!(once.mode, TimerMode::Once));
    let mut rep = Timer::new_repeating(7);
    rep.tick(9);
    assert!(matches!(rep.mode, TimerMode::Repeating));
}

#[test]
fn animation_cycle_returns_to_start_after_atlas_len_completions() {
    // Period 0.4 s, atlas of 3 frames, starting at frame 1: after three
    // completions the index is back at 1.
    let mut a = SpriteAnimation::new(400, 1, 3);
    a.animate(400);
    assert_eq!(a.index, 2);
    a.animate(400);
    assert_eq!(a.index, 0);
    a.animate(400);
    assert_eq!(a.index, 1);
}

#[test]
fn animation_index_holds_between_completions() {
    let mut a = SpriteAnimation::new(400, 1, 3);
    a.animate(399);
    assert_eq!(a.index, 1);
    a.animate(1);
    assert_eq!(a.index, 2);
    a.animate(350);
    assert_eq!(a.index, 2);
}
