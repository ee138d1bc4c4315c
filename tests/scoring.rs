use gc_viewer::controller::{Controller, A_BUTTON, B_BUTTON, R_BUTTON, Y_BUTTON};
use gc_viewer::input_sequence::{ControllerAction, InputSequence, InputSequenceState};
use gc_viewer::scoring::{verdict_of, ActionSuccess};

fn two_steps(window: std::ops::Range<i32>) -> InputSequence {
    let mut seq = InputSequence::new("pair");
    seq.add(vec![ControllerAction::Press(Y_BUTTON)], 0);
    seq.add(vec![ControllerAction::Press(B_BUTTON)], window);
    seq
}

fn run_pair(seq: &InputSequence, second: u64) -> InputSequenceState<'_> {
    let pad = Controller::new();
    let mut state = InputSequenceState::new(seq);
    assert!(!state.action(ControllerAction::Press(Y_BUTTON), &pad, 1_000_000));
    assert!(state.action(ControllerAction::Press(B_BUTTON), &pad, 1_000_000 + second));
    state
}

#[test]
fn half_frame_residual_gives_exact_share() {
    let seq = two_steps(3..3);
    // 58_333 us is 3.49998 frames: on time for phases below 0.50002.
    let state = run_pair(&seq, 58_333);
    assert_eq!(state.success_rate(), Some(500_020));
}

#[test]
fn wide_window_is_on_time_under_every_phase() {
    let seq = two_steps(1..2);
    let state = run_pair(&seq, 25_000);
    assert_eq!(state.success_rate(), Some(1_000_000));
}

#[test]
fn rate_stays_within_bounds() {
    let seq = two_steps(2..3);
    for second in [0u64, 1, 16_667, 33_333, 41_000, 50_000, 58_000, 66_667, 90_000] {
        let state = run_pair(&seq, second);
        let rate = state.success_rate().unwrap();
        assert!(rate <= 1_000_000);
    }
}

#[test]
fn quarter_frame_early_is_on_time_three_quarters_of_the_time() {
    let seq = two_steps(3..3);
    // 45_833 us is 2.74998 frames: frame 3 once the phase passes 0.25002.
    let state = run_pair(&seq, 45_833);
    assert_eq!(state.success_rate(), Some(749_980));
    let info = state.sequence_info().unwrap();
    assert_eq!(info[1].2, ActionSuccess::Early);
}

#[test]
fn three_step_run_with_shared_reference() {
    let mut seq = InputSequence::new("hax wavedash");
    seq.add(vec![ControllerAction::Press(Y_BUTTON)], 0);
    seq.add(vec![ControllerAction::Press(R_BUTTON)], 2..3);
    seq.add_from(vec![ControllerAction::Press(A_BUTTON)], 0..1, 0);
    let pad = Controller::new();
    let mut state = InputSequenceState::new(&seq);
    assert!(!state.action(ControllerAction::Press(Y_BUTTON), &pad, 0));
    assert!(!state.action(ControllerAction::Press(R_BUTTON), &pad, 41_667));
    assert!(state.action(ControllerAction::Press(A_BUTTON), &pad, 45_000));
    let info = state.sequence_info().unwrap();
    assert_eq!(info.len(), 3);
    assert_eq!(info[1].2, ActionSuccess::Success);
    assert_eq!(info[2].2, ActionSuccess::LateMiss);
    assert_eq!(info[2].1, 3_333);
    // Step three is 2.7 frames after step one, so it always misses [0, 1].
    assert_eq!(state.success_rate(), Some(0));
}

#[test]
fn window_ends_are_successes() {
    assert_eq!(verdict_of(50_000, 3, 6, 1), ActionSuccess::Success);
    assert_eq!(verdict_of(100_000, 3, 6, 1), ActionSuccess::Success);
    assert_eq!(verdict_of(0, 0, 0, 1), ActionSuccess::Success);
}

#[test]
fn every_verdict_has_its_band() {
    // Window [3, 3], one soft frame on each side.
    assert_eq!(verdict_of(16_666, 3, 3, 1), ActionSuccess::EarlyMiss);
    assert_eq!(verdict_of(33_333, 3, 3, 1), ActionSuccess::EarlyMiss);
    assert_eq!(verdict_of(33_334, 3, 3, 1), ActionSuccess::Early);
    assert_eq!(verdict_of(49_999, 3, 3, 1), ActionSuccess::Early);
    assert_eq!(verdict_of(50_001, 3, 3, 1), ActionSuccess::Late);
    assert_eq!(verdict_of(66_666, 3, 3, 1), ActionSuccess::Late);
    assert_eq!(verdict_of(66_667, 3, 3, 1), ActionSuccess::LateMiss);
}

#[test]
fn wider_soft_band() {
    assert_eq!(verdict_of(66_667, 3, 3, 2), ActionSuccess::Late);
    assert_eq!(verdict_of(16_667, 3, 3, 2), ActionSuccess::Early);
}

#[test]
fn first_step_of_report_is_success_with_no_delay() {
    let seq = two_steps(3..3);
    let state = run_pair(&seq, 10_000);
    let info = state.sequence_info().unwrap();
    assert_eq!(info[0].0, ControllerAction::Press(Y_BUTTON));
    assert_eq!(info[0].1, 0);
    assert_eq!(info[0].2, ActionSuccess::Success);
    assert_eq!(info[1].2, ActionSuccess::EarlyMiss);
}

#[test]
fn frame_numbers_checked_against_windows() {
    let seq = two_steps(2..3);
    let state = InputSequenceState::new(&seq);
    assert!(state.is_successful(&vec![0, 2]));
    assert!(state.is_successful(&vec![0, 3]));
    assert!(!state.is_successful(&vec![0, 4]));
    assert!(!state.is_successful(&vec![5, 6]));
    assert!(state.is_successful(&vec![5]));
    assert!(state.is_successful(&vec![]));
}

#[test]
fn run_dated_before_its_start_has_no_rate() {
    let seq = two_steps(0..3);
    let pad = Controller::new();
    let mut state = InputSequenceState::new(&seq);
    state.action(ControllerAction::Press(Y_BUTTON), &pad, 100_000);
    assert!(state.action(ControllerAction::Press(B_BUTTON), &pad, 90_000));
    assert!(state.success_rate().is_none());
    let info = state.sequence_info().unwrap();
    assert_eq!(info[1].1, 0);
    assert_eq!(info[1].2, ActionSuccess::Success);
}
