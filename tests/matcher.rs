use gc_viewer::controller::{Controller, A_BUTTON, B_BUTTON, X_BUTTON, Y_BUTTON};
use gc_viewer::input_sequence::{
    make_some_sequences, ControllerAction, InputSequence, InputSequenceState, NO_REFERENCE,
};
use gc_viewer::scoring::ActionSuccess;
use gc_viewer::zones::{up_smash, SquareZone, Zone};

fn jc_shine() -> InputSequence {
    let mut seq = InputSequence::new("jc shine");
    seq.add(vec![ControllerAction::Press(Y_BUTTON)], 0);
    seq.add_from(vec![ControllerAction::Press(B_BUTTON)], 3, 0);
    seq
}

#[test]
fn exact_three_frame_delay_is_a_sure_success() {
    let seq = jc_shine();
    let pad = Controller::new();
    let mut state = InputSequenceState::new(&seq);
    assert!(!state.action(ControllerAction::Press(Y_BUTTON), &pad, 0));
    assert!(state.action(ControllerAction::Press(B_BUTTON), &pad, 50_000));
    let info = state.sequence_info().unwrap();
    assert_eq!(info.len(), 2);
    assert_eq!(info[0].2, ActionSuccess::Success);
    assert_eq!(info[1].2, ActionSuccess::Success);
    assert_eq!(info[1].1, 50_000);
    assert_eq!(state.success_rate(), Some(1_000_000));
}

#[test]
fn step_past_the_soft_band_never_lands_on_its_frame() {
    let seq = jc_shine();
    let pad = Controller::new();
    let mut state = InputSequenceState::new(&seq);
    assert!(!state.action(ControllerAction::Press(Y_BUTTON), &pad, 0));
    // 67 ms is 4.02 frames: past the window's end plus the one soft frame.
    assert!(state.action(ControllerAction::Press(B_BUTTON), &pad, 67_000));
    let info = state.sequence_info().unwrap();
    assert_eq!(info[1].2, ActionSuccess::LateMiss);
    assert_eq!(state.success_rate(), Some(0));
}

#[test]
fn slightly_late_step() {
    let seq = jc_shine();
    let pad = Controller::new();
    let mut state = InputSequenceState::new(&seq);
    assert!(!state.action(ControllerAction::Press(Y_BUTTON), &pad, 0));
    // 3.6 frames: after the window, within one frame of it.
    assert!(state.action(ControllerAction::Press(B_BUTTON), &pad, 60_000));
    let info = state.sequence_info().unwrap();
    assert_eq!(info[1].2, ActionSuccess::Late);
    let rate = state.success_rate().unwrap();
    assert!(0 < rate && rate < 1_000_000);
    assert_eq!(rate, 400_000);
}

#[test]
fn long_pause_restarts_and_rejects_late_second_step() {
    let seq = jc_shine();
    let pad = Controller::new();
    let mut state = InputSequenceState::new(&seq);
    assert!(!state.action(ControllerAction::Press(Y_BUTTON), &pad, 0));
    assert_eq!(state.state, 1);
    assert!(!state.action(ControllerAction::Press(B_BUTTON), &pad, 200_000));
    assert_eq!(state.state, 0);
    assert!(state.history.is_empty());
    assert!(state.completed.is_none());
}

#[test]
fn timeout_lets_the_late_action_start_a_new_attempt() {
    let seq = jc_shine();
    let pad = Controller::new();
    let mut state = InputSequenceState::new(&seq);
    state.action(ControllerAction::Press(Y_BUTTON), &pad, 0);
    // 150 ms is 9 frames: more than 3 + 5 frames after the first press.
    assert!(!state.action(ControllerAction::Press(Y_BUTTON), &pad, 150_000));
    assert_eq!(state.state, 1);
    assert_eq!(state.history.len(), 1);
    assert_eq!(state.history[0].1, 150_000);
    assert!(state.action(ControllerAction::Press(B_BUTTON), &pad, 200_000));
}

#[test]
fn within_tolerance_the_attempt_survives() {
    let seq = jc_shine();
    let pad = Controller::new();
    let mut state = InputSequenceState::new(&seq);
    state.action(ControllerAction::Press(Y_BUTTON), &pad, 0);
    // 5 frames: past the window's end plus one, but inside the timeout.
    assert!(state.action(ControllerAction::Press(B_BUTTON), &pad, 83_333));
    let info = state.sequence_info().unwrap();
    assert_eq!(info[1].2, ActionSuccess::LateMiss);
}

#[test]
fn tighter_timeout_restarts_sooner() {
    let mut seq = jc_shine();
    seq.set_tolerances(1, 1);
    let pad = Controller::new();
    let mut state = InputSequenceState::new(&seq);
    state.action(ControllerAction::Press(Y_BUTTON), &pad, 0);
    assert!(!state.action(ControllerAction::Press(B_BUTTON), &pad, 83_333));
    assert_eq!(state.state, 0);
}

#[test]
fn unexpected_actions_are_ignored() {
    let seq = jc_shine();
    let pad = Controller::new();
    let mut state = InputSequenceState::new(&seq);
    state.action(ControllerAction::Press(Y_BUTTON), &pad, 0);
    assert!(!state.action(ControllerAction::Press(A_BUTTON), &pad, 10_000));
    assert!(!state.action(ControllerAction::Release(Y_BUTTON), &pad, 20_000));
    assert_eq!(state.state, 1);
    assert_eq!(state.history.len(), 1);
    assert!(state.action(ControllerAction::Press(B_BUTTON), &pad, 50_000));
}

#[test]
fn completion_archives_and_resets() {
    let seq = jc_shine();
    let pad = Controller::new();
    let mut state = InputSequenceState::new(&seq);
    state.action(ControllerAction::Press(Y_BUTTON), &pad, 1_000);
    assert_eq!(state.history.len(), 1);
    assert!(state.action(ControllerAction::Press(B_BUTTON), &pad, 51_000));
    assert_eq!(state.state, 0);
    assert!(state.history.is_empty());
    let run = state.completed_sequence().unwrap();
    assert_eq!(run.len(), 2);
    assert_eq!(run[0].1, 1_000);
    assert_eq!(run[1].1, 51_000);
    assert_eq!(run[1].0, ControllerAction::Press(B_BUTTON));
}

#[test]
fn identical_streams_give_identical_results() {
    let seq = jc_shine();
    let pad = Controller::new();
    let events = [
        (ControllerAction::Press(Y_BUTTON), 0u64),
        (ControllerAction::Press(X_BUTTON), 10_000),
        (ControllerAction::Press(B_BUTTON), 60_000),
        (ControllerAction::Press(Y_BUTTON), 70_000),
        (ControllerAction::Press(B_BUTTON), 400_000),
    ];
    let mut first = InputSequenceState::new(&seq);
    let mut second = InputSequenceState::new(&seq);
    for (action, time) in events.iter() {
        let a = first.action(*action, &pad, *time);
        let b = second.action(*action, &pad, *time);
        assert_eq!(a, b);
        assert_eq!(first.state, second.state);
        assert_eq!(first.history, second.history);
    }
    assert_eq!(first.completed, second.completed);
    assert_eq!(first.success_rate(), second.success_rate());
}

#[test]
fn either_listed_action_satisfies_a_step() {
    let mut seq = InputSequence::new("short hop");
    seq.add(vec![ControllerAction::Press(Y_BUTTON), ControllerAction::Press(X_BUTTON)], 0);
    seq.add(vec![ControllerAction::Release(Y_BUTTON), ControllerAction::Release(X_BUTTON)], 1..2);
    let pad = Controller::new();
    let mut state = InputSequenceState::new(&seq);
    assert!(!state.action(ControllerAction::Press(X_BUTTON), &pad, 0));
    assert!(state.action(ControllerAction::Release(X_BUTTON), &pad, 25_000));
    assert_eq!(state.success_rate(), Some(1_000_000));
}

#[test]
fn empty_template_never_completes() {
    let seq = InputSequence::new("nothing");
    let pad = Controller::new();
    let mut state = InputSequenceState::new(&seq);
    assert!(!state.action(ControllerAction::Press(A_BUTTON), &pad, 0));
    assert!(state.completed.is_none());
    assert!(state.sequence_info().is_none());
    assert!(state.success_rate().is_none());
}

#[test]
fn single_step_run_has_no_score() {
    let mut seq = InputSequence::new("tap");
    seq.add(vec![ControllerAction::Press(A_BUTTON)], 0);
    let pad = Controller::new();
    let mut state = InputSequenceState::new(&seq);
    assert!(state.action(ControllerAction::Press(A_BUTTON), &pad, 5));
    assert_eq!(state.completed_sequence().unwrap().len(), 1);
    assert!(state.sequence_info().is_none());
    assert!(state.success_rate().is_none());
}

#[test]
fn no_run_yet_has_no_report() {
    let seq = jc_shine();
    let state = InputSequenceState::new(&seq);
    assert!(state.completed_sequence().is_none());
    assert!(state.sequence_info().is_none());
    assert!(state.success_rate().is_none());
}

#[test]
fn reset_abandons_the_attempt() {
    let seq = jc_shine();
    let pad = Controller::new();
    let mut state = InputSequenceState::new(&seq);
    state.action(ControllerAction::Press(Y_BUTTON), &pad, 0);
    state.reset();
    assert_eq!(state.state, 0);
    assert!(state.history.is_empty());
    assert!(!state.action(ControllerAction::Press(B_BUTTON), &pad, 50_000));
}

#[test]
fn templates_record_windows_and_references() {
    let mut seq = InputSequence::new("wavedash");
    seq.add(vec![ControllerAction::Press(Y_BUTTON)], 0);
    seq.add(vec![ControllerAction::Press(B_BUTTON)], 2..3);
    seq.add_from(vec![ControllerAction::Press(A_BUTTON)], 0..1, 0);
    assert_eq!(seq.name(), "wavedash");
    assert_eq!(seq.actions.len(), 3);
    assert_eq!(seq.actions[0].from, NO_REFERENCE);
    assert_eq!((seq.actions[1].start, seq.actions[1].end, seq.actions[1].from), (2, 3, 0));
    assert_eq!((seq.actions[2].start, seq.actions[2].end, seq.actions[2].from), (0, 1, 0));
}

#[test]
fn built_in_templates() {
    let seqs = make_some_sequences();
    assert_eq!(seqs.len(), 15);
    assert_eq!(seqs[0].name(), "3f short hop");
    assert_eq!(seqs[5].name(), "jc shine");
    assert_eq!(seqs[14].name(), "adt");
    assert_eq!(seqs[3].actions.len(), 3);
    assert_eq!(seqs[3].actions[2].from, 1);
    assert_eq!(seqs[4].actions[2].from, 0);
    for seq in seqs.iter() {
        for (i, step) in seq.actions.iter().enumerate().skip(1) {
            assert!(step.from < i);
        }
    }
}

#[test]
fn zones_compare_by_name() {
    let same_name = SquareZone::new(0, 1, 0, 1, "up smash");
    let a = ControllerAction::CEnter(Zone::SquareZone(up_smash()));
    let b = ControllerAction::CEnter(Zone::SquareZone(same_name));
    let c = ControllerAction::Enter(Zone::SquareZone(up_smash()));
    assert!(a.same_as(&b));
    assert!(a == b);
    assert!(a != c);
    assert!(ControllerAction::LEnter((43, 140)) == ControllerAction::LEnter((43, 140)));
    assert!(ControllerAction::LEnter((43, 140)) != ControllerAction::REnter((43, 140)));
}
