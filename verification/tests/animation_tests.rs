use step_animation::Animation;
use step_animation::AnimationData;
use step_animation::AnimationState;
use step_animation::FrameTimer;
use step_animation::animation::sync_atlas;

fn idle_walk_animation() -> Animation {
    Animation::new(vec![
        AnimationData { frames: 2, interval_ns: 500, state: AnimationState::Idling, atlas_index: 0 },
        AnimationData { frames: 6, interval_ns: 100, state: AnimationState::Walking, atlas_index: 8 },
    ])
}

#[test]
fn new_starts_at_first_variant_frame_zero() {
    let a = idle_walk_animation();
    assert_eq!(a.frame, 0);
    assert_eq!(a.current, 0);
    assert_eq!(a.state(), AnimationState::Idling);
    assert_eq!(a.get_atlas_index(), 0);
    assert!(!a.changed());
    assert_eq!(a.timer.duration_ns, 500);
    assert_eq!(a.timer.elapsed_ns, 0);
}

#[test]
fn timer_completion_advances_frame() {
    let mut a = idle_walk_animation();
    a.update_timer(499);
    assert_eq!(a.frame, 0);
    assert!(!a.changed());
    a.update_timer(1);
    assert_eq!(a.frame, 1);
    assert!(a.changed());
    assert_eq!(a.get_atlas_index(), 1);
}

#[test]
fn frame_cycles_in_range_and_wraps() {
    let mut a = idle_walk_animation();
    a.update_state(AnimationState::Walking);
    // Six frames of 100 ns each: the index walks 1, 2, 3, 4, 5, 0, 1, ...
    let mut seen = Vec::new();
    for _ in 0..13 {
        a.update_timer(100);
        assert!(a.frame < 6);
        seen.push(a.frame);
    }
    assert_eq!(seen, vec![1, 2, 3, 4, 5, 0, 1, 2, 3, 4, 5, 0, 1]);
}

#[test]
fn oversized_delta_wraps_timer_remainder() {
    let mut t = FrameTimer::new(100);
    t.tick(250);
    assert!(t.just_finished);
    assert_eq!(t.elapsed_ns, 50);
    t.tick(30);
    assert!(!t.just_finished);
    assert_eq!(t.elapsed_ns, 80);
}

#[test]
fn timer_saturates_on_huge_delta() {
    let mut t = FrameTimer::new(7);
    t.tick(3);
    assert_eq!(t.elapsed_ns, 3);
    t.tick(u64::MAX);
    assert!(t.just_finished);
    assert_eq!(t.elapsed_ns, u64::MAX % 7);
}

#[test]
fn switching_state_resets_frame_and_timer() {
    let mut a = idle_walk_animation();
    a.update_timer(500);
    assert_eq!(a.frame, 1);
    a.update_state(AnimationState::Walking);
    assert_eq!(a.frame, 0);
    assert_eq!(a.current, 1);
    assert_eq!(a.state(), AnimationState::Walking);
    assert_eq!(a.timer.elapsed_ns, 0);
    assert_eq!(a.timer.duration_ns, 100);
    assert_eq!(a.get_atlas_index(), 8);
}

#[test]
fn repeated_state_is_a_no_op() {
    let mut a = idle_walk_animation();
    a.update_timer(230);
    let before_elapsed = a.timer.elapsed_ns;
    a.update_state(AnimationState::Idling);
    assert_eq!(a.frame, 0);
    assert_eq!(a.current, 0);
    assert_eq!(a.timer.elapsed_ns, before_elapsed);
}

#[test]
fn switch_picks_first_matching_variant() {
    let mut a = Animation::new(vec![
        AnimationData { frames: 1, interval_ns: 10, state: AnimationState::Idling, atlas_index: 0 },
        AnimationData { frames: 3, interval_ns: 20, state: AnimationState::Walking, atlas_index: 4 },
        AnimationData { frames: 9, interval_ns: 30, state: AnimationState::Walking, atlas_index: 50 },
    ]);
    a.update_state(AnimationState::Walking);
    assert_eq!(a.current, 1);
    assert_eq!(a.get_atlas_index(), 4);
}

#[test]
fn atlas_written_only_when_animation_advanced() {
    let mut a = idle_walk_animation();
    let mut slot: usize = 77;
    a.update_timer(100);
    sync_atlas(&a, &mut slot);
    assert_eq!(slot, 77);
    a.update_timer(400);
    assert!(a.changed());
    sync_atlas(&a, &mut slot);
    assert_eq!(slot, 1);
}
