use voce::filter::gate::SlidingVoteGate;

#[test]
fn fail_open_initial_state() {
    let gate: SlidingVoteGate<f32> = SlidingVoteGate::new(0.8, 3);
    assert!(gate.current_pass, "gate must start in pass (fail-open) state");
}

#[test]
fn mutes_only_when_all_window_frames_fail() {
    let mut gate: SlidingVoteGate<f32> = SlidingVoteGate::new(0.8, 3);
    gate.update(0.5); // fail
    assert!(gate.current_pass, "one fail in window of 3 should not mute");
    gate.update(0.5); // fail
    assert!(gate.current_pass, "two fails in window of 3 should not mute");
    gate.update(0.5); // fail — now all 3 frames below threshold
    assert!(!gate.current_pass, "three consecutive fails should mute");
}

#[test]
fn one_passing_frame_reopens() {
    let mut gate: SlidingVoteGate<f32> = SlidingVoteGate::new(0.8, 3);
    gate.update(0.5);
    gate.update(0.5);
    gate.update(0.5); // all failed → muted
    assert!(!gate.current_pass);
    gate.update(0.9); // one passing frame displaces oldest fail
    assert!(gate.current_pass, "a passing frame should reopen the speaker gate");
}

#[test]
fn reset_restores_fail_open() {
    let mut gate: SlidingVoteGate<f32> = SlidingVoteGate::new(0.8, 3);
    gate.update(0.1);
    gate.update(0.1);
    gate.update(0.1); // muted
    gate.reset();
    assert!(gate.current_pass, "reset must restore fail-open state");
    assert_eq!(gate.last_similarity, 0.0);
}

#[test]
fn threshold_is_inclusive_and_last_similarity_kept() {
    let mut gate: SlidingVoteGate<f32> = SlidingVoteGate::new(0.75, 1);
    assert!(gate.update(0.75));
    assert_eq!(gate.last_similarity, 0.75);
    assert!(!gate.update(0.74));
    assert!(gate.update(0.9));
}

#[test]
fn mutes_again_only_after_a_full_failing_window() {
    let mut gate: SlidingVoteGate<f32> = SlidingVoteGate::new(0.8, 3);
    for _ in 0..3 {
        gate.update(0.1);
    }
    assert!(!gate.current_pass);
    assert!(gate.update(0.95));
    assert!(gate.update(0.1));
    assert!(gate.update(0.1));
    assert!(!gate.update(0.1));
}

#[test]
fn empty_vote_window_always_mutes() {
    let mut gate: SlidingVoteGate<f32> = SlidingVoteGate::new(0.8, 0);
    assert!(!gate.update(0.99));
}

#[test]
fn record_vote_uses_given_decision() {
    let mut gate: SlidingVoteGate<i32> = SlidingVoteGate::new(5, 2);
    assert!(gate.record_vote(1, false));
    assert!(!gate.record_vote(1, false));
    assert!(gate.record_vote(1, true));
    assert_eq!(gate.last_similarity, 1);
}
