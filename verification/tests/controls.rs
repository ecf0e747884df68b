use car_sim::controls::{DriveMode, Event, FrameAction, Inputs, Key, SimulationLoop};

const KEYS: [Key; 7] = [Key::W, Key::A, Key::S, Key::D, Key::P, Key::Escape, Key::Other];

fn held(is_moving: bool, is_reversing: bool, is_turning_left: bool, is_turning_right: bool) -> Inputs {
    Inputs { is_moving, is_reversing, is_turning_left, is_turning_right }
}

#[test]
fn a_new_game_runs_with_no_key_held() {
    let state = SimulationLoop::new();
    assert_eq!(state.inputs, held(false, false, false, false));
    assert_eq!(state.inputs, Inputs::new());
    assert!(!state.is_paused);
    assert_eq!(state.frame_action(), FrameAction::Advance);
}

#[test]
fn each_driving_key_sets_its_own_flag() {
    let cases = [
        (Key::W, held(true, false, false, false)),
        (Key::S, held(false, true, false, false)),
        (Key::A, held(false, false, true, false)),
        (Key::D, held(false, false, false, true)),
    ];
    for (key, expected) in cases {
        let mut state = SimulationLoop::new();
        assert!(!state.handle_event(Event::KeyPressed(key)));
        assert_eq!(state.inputs, expected);
        assert!(!state.is_paused);
        assert!(!state.handle_event(Event::KeyReleased(key)));
        assert_eq!(state.inputs, held(false, false, false, false));
    }
}

#[test]
fn releasing_a_key_leaves_the_others_held() {
    let mut state = SimulationLoop::new();
    state.handle_event(Event::KeyPressed(Key::W));
    state.handle_event(Event::KeyPressed(Key::A));
    state.handle_event(Event::KeyPressed(Key::D));
    state.handle_event(Event::KeyPressed(Key::S));
    assert_eq!(state.inputs, held(true, true, true, true));
    state.handle_event(Event::KeyReleased(Key::A));
    assert_eq!(state.inputs, held(true, true, false, true));
    state.handle_event(Event::KeyReleased(Key::W));
    assert_eq!(state.inputs, held(false, true, false, true));
}

#[test]
fn pressing_p_flips_the_pause() {
    let mut state = SimulationLoop::new();
    assert!(!state.handle_event(Event::KeyPressed(Key::P)));
    assert!(state.is_paused);
    assert_eq!(state.frame_action(), FrameAction::Hold);
    assert!(!state.handle_event(Event::KeyReleased(Key::P)));
    assert!(state.is_paused);
    assert!(!state.handle_event(Event::KeyPressed(Key::P)));
    assert!(!state.is_paused);
    assert_eq!(state.frame_action(), FrameAction::Advance);
    assert_eq!(state.inputs, held(false, false, false, false));
}

#[test]
fn keys_are_taken_in_while_paused() {
    let mut state = SimulationLoop::new();
    state.handle_event(Event::KeyPressed(Key::P));
    state.handle_event(Event::KeyPressed(Key::W));
    assert!(state.is_paused);
    assert_eq!(state.inputs, held(true, false, false, false));
}

#[test]
fn closing_and_escape_close_the_window() {
    let mut state = SimulationLoop::new();
    state.handle_event(Event::KeyPressed(Key::W));
    let before = state;
    assert!(state.handle_event(Event::Closed));
    assert_eq!(state, before);
    assert!(state.handle_event(Event::KeyPressed(Key::Escape)));
    assert_eq!(state, before);
    assert!(!state.handle_event(Event::KeyReleased(Key::Escape)));
    assert_eq!(state, before);
}

#[test]
fn only_closing_and_escape_close_the_window() {
    for key in KEYS {
        let mut state = SimulationLoop::new();
        assert_eq!(state.handle_event(Event::KeyPressed(key)), key == Key::Escape);
        assert!(!state.handle_event(Event::KeyReleased(key)));
    }
    assert!(!SimulationLoop::new().handle_event(Event::Other));
}

#[test]
fn other_keys_and_events_change_nothing() {
    let mut state = SimulationLoop::new();
    state.handle_event(Event::KeyPressed(Key::D));
    let before = state;
    state.handle_event(Event::KeyPressed(Key::Other));
    assert_eq!(state, before);
    state.handle_event(Event::KeyReleased(Key::Other));
    assert_eq!(state, before);
    state.handle_event(Event::Other);
    assert_eq!(state, before);
}

#[test]
fn set_key_sets_and_clears() {
    let mut inputs = Inputs::new();
    inputs.set_key(Key::S, true);
    assert_eq!(inputs, held(false, true, false, false));
    inputs.set_key(Key::S, true);
    assert_eq!(inputs, held(false, true, false, false));
    inputs.set_key(Key::P, true);
    inputs.set_key(Key::Escape, true);
    inputs.set_key(Key::Other, true);
    assert_eq!(inputs, held(false, true, false, false));
    inputs.set_key(Key::S, false);
    assert_eq!(inputs, Inputs::new());
}

#[test]
fn right_cancels_left() {
    assert_eq!(held(false, false, false, false).turn_signal(), 0);
    assert_eq!(held(false, false, true, false).turn_signal(), -1);
    assert_eq!(held(false, false, false, true).turn_signal(), 1);
    assert_eq!(held(false, false, true, true).turn_signal(), 0);
    assert_eq!(held(true, true, true, false).turn_signal(), -1);
}

#[test]
fn reverse_wins_over_forward() {
    assert_eq!(held(false, false, false, false).drive_mode(), DriveMode::Idle);
    assert_eq!(held(true, false, false, false).drive_mode(), DriveMode::Forward);
    assert_eq!(held(false, true, false, false).drive_mode(), DriveMode::Reverse);
    assert_eq!(held(true, true, false, false).drive_mode(), DriveMode::Reverse);
    assert_eq!(held(false, false, true, true).drive_mode(), DriveMode::Idle);
}
