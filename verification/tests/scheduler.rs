use crossfade::scheduler::{AnimationScheduler, Phase};

#[test]
fn initial_state_holds_slide_zero() {
    let s = AnimationScheduler::new(3, 5000, 3000, 0);
    assert_eq!(s.current_idx, 0);
    assert_eq!(s.next_idx, 1);
    assert_eq!(s.mix_numer, 0);
    assert_eq!(s.phase, Phase::Holding);
    assert_eq!(s.last_switch_time, 0);
}

#[test]
fn three_slide_timeline() {
    // images = [a, b, c], interval 5000 ms, transition 3000 ms.
    let mut s = AnimationScheduler::new(3, 5000, 3000, 0);
    assert_eq!((s.current_idx, s.next_idx), (0, 1));
    assert_eq!(s.phase, Phase::Holding);

    // The hold runs until strictly more than interval_ms has passed.
    s.tick(5000);
    assert_eq!(s.phase, Phase::Holding);
    s.tick(5001);
    assert_eq!(s.phase, Phase::Transitioning);
    assert_eq!(s.transition_start_time, 5001);

    // Halfway through the transition the blend weight is exactly 1/2.
    s.tick(6501);
    assert_eq!(s.mix_numer, 1500);
    assert_eq!(s.transition_ms, 3000);

    // At transition_start_time + transition_ms the next tick finalizes.
    s.tick(8001);
    assert_eq!(s.phase, Phase::Holding);
    assert_eq!((s.current_idx, s.next_idx), (1, 2));
    assert_eq!(s.mix_numer, 0);
    assert_eq!(s.last_switch_time, 8001);
}

#[test]
fn hold_boundary_is_strict() {
    let mut s = AnimationScheduler::new(2, 100, 50, 0);
    s.tick(100);
    assert_eq!(s.phase, Phase::Holding);
    s.tick(101);
    assert_eq!(s.phase, Phase::Transitioning);
}

#[test]
fn finalize_boundary_is_inclusive() {
    let mut s = AnimationScheduler::new(2, 100, 50, 0);
    s.tick(101);
    assert_eq!(s.phase, Phase::Transitioning);
    assert_eq!(s.transition_start_time, 101);
    // One millisecond short of the full transition: still blending.
    s.tick(150);
    assert_eq!(s.phase, Phase::Transitioning);
    assert_eq!(s.mix_numer, 49);
    // Exactly transition_start_time + transition_ms: finalized.
    s.tick(151);
    assert_eq!(s.phase, Phase::Holding);
    assert_eq!(s.mix_numer, 0);
    assert_eq!((s.current_idx, s.next_idx), (1, 0));
}

#[test]
fn mix_is_monotonic_and_bounded_within_episode() {
    let mut s = AnimationScheduler::new(2, 1000, 400, 0);
    s.tick(1001);
    assert_eq!(s.phase, Phase::Transitioning);
    let mut previous = 0u64;
    for t in [1001u64, 1050, 1100, 1100, 1250, 1399, 1400] {
        s.tick(t);
        assert_eq!(s.phase, Phase::Transitioning);
        assert!(s.mix_numer >= previous);
        assert!(s.mix_numer <= s.transition_ms);
        previous = s.mix_numer;
    }
    // The episode began at 1001, so it finalizes at 1401.
    s.tick(1401);
    assert_eq!(s.phase, Phase::Holding);
    assert_eq!(s.mix_numer, 0);
}

#[test]
fn current_index_advances_mod_n_over_full_cycles() {
    // Five full interval+transition cycles over three slides: the
    // current index ends at 5 mod 3 == 2, having wrapped once.
    let mut s = AnimationScheduler::new(3, 5000, 3000, 0);
    let mut now = 0u64;
    for k in 0..5u64 {
        now += 5001;
        s.tick(now);
        assert_eq!(s.phase, Phase::Transitioning);
        now += 3000;
        s.tick(now);
        assert_eq!(s.phase, Phase::Holding);
        assert_eq!(s.current_idx as u64, (k + 1) % 3);
    }
    assert_eq!(s.current_idx, 2);
}

#[test]
fn single_slide_blends_self_to_self() {
    // images = [a]: the cyclic successor of slide 0 is slide 0 itself,
    // so the blend is self-to-self and no index leaves the range.
    let mut s = AnimationScheduler::new(1, 5000, 3000, 0);
    assert_eq!((s.current_idx, s.next_idx), (0, 0));
    s.tick(5001);
    assert_eq!(s.phase, Phase::Transitioning);
    s.tick(6500);
    assert_eq!((s.current_idx, s.next_idx), (0, 0));
    s.tick(8001);
    assert_eq!(s.phase, Phase::Holding);
    assert_eq!((s.current_idx, s.next_idx), (0, 0));
}

#[test]
fn zero_length_transition_finalizes_at_once() {
    let mut s = AnimationScheduler::new(2, 10, 0, 0);
    s.tick(11);
    assert_eq!(s.phase, Phase::Transitioning);
    assert_eq!(s.mix_numer, 0);
    s.tick(11);
    assert_eq!(s.phase, Phase::Holding);
    assert_eq!(s.current_idx, 1);
    assert_eq!(s.mix_numer, 0);
}
