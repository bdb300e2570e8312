use server_supervisor::lifecycle::{on_close_requested, on_window_event, CloseAction, WindowEvent};
use server_supervisor::state::{Lifecycle, SupervisorState};

#[test]
fn a_new_state_holds_nothing() {
    let state: SupervisorState<u32> = SupervisorState::new();
    assert_eq!(state.server_port(), None);
    assert!(!state.has_child());
    assert_eq!(state.lifecycle(), Lifecycle::Running);
}

#[test]
fn the_first_port_offered_is_recorded() {
    let mut state: SupervisorState<u32> = SupervisorState::new();
    assert!(state.record_port(50123));
    assert_eq!(state.server_port(), Some(50123));
}

#[test]
fn a_recorded_port_stays_whatever_is_offered_later() {
    let mut state: SupervisorState<u32> = SupervisorState::new();
    assert!(state.record_port(50123));
    assert!(!state.record_port(3210));
    assert!(!state.record_port(0));
    assert!(!state.record_port(50123));
    assert_eq!(state.server_port(), Some(50123));
}

#[test]
fn querying_the_port_repeatedly_returns_the_same_value() {
    let mut state: SupervisorState<u32> = SupervisorState::new();
    assert_eq!(state.server_port(), None);
    assert_eq!(state.server_port(), None);
    state.record_port(4711);
    for _ in 0..5 {
        assert_eq!(state.server_port(), Some(4711));
    }
    assert_eq!(state.attach_child(1), None);
    assert_eq!(state.server_port(), Some(4711));
    on_close_requested(&mut state);
    assert_eq!(state.server_port(), Some(4711));
    on_close_requested(&mut state);
    assert_eq!(state.server_port(), Some(4711));
}

#[test]
fn port_zero_is_a_port_like_any_other() {
    let mut state: SupervisorState<u32> = SupervisorState::new();
    assert!(state.record_port(0));
    assert_eq!(state.server_port(), Some(0));
    assert!(!state.record_port(9));
    assert_eq!(state.server_port(), Some(0));
}

#[test]
fn a_child_is_taken_in_once() {
    let mut state: SupervisorState<u32> = SupervisorState::new();
    assert_eq!(state.attach_child(11), None);
    assert!(state.has_child());
    assert_eq!(state.attach_child(12), Some(12));
    assert!(state.has_child());
    assert_eq!(
        on_close_requested(&mut state),
        vec![CloseAction::PreventClose, CloseAction::Terminate(11), CloseAction::CloseWindow]
    );
}

#[test]
fn a_child_offered_after_the_close_comes_back() {
    let mut state: SupervisorState<u32> = SupervisorState::new();
    on_close_requested(&mut state);
    assert_eq!(state.attach_child(5), Some(5));
    assert!(!state.has_child());
    assert_eq!(state.lifecycle(), Lifecycle::Terminated);
}

#[test]
fn attaching_a_child_does_not_touch_the_port() {
    let mut state: SupervisorState<u32> = SupervisorState::new();
    state.record_port(6000);
    state.attach_child(1);
    assert_eq!(state.server_port(), Some(6000));
    assert_eq!(state.lifecycle(), Lifecycle::Running);
}

#[test]
fn close_with_a_child_terminates_it_between_hold_and_close() {
    let mut state: SupervisorState<&str> = SupervisorState::new();
    state.record_port(50000);
    state.attach_child("backend");
    let actions = on_close_requested(&mut state);
    assert_eq!(
        actions,
        vec![
            CloseAction::PreventClose,
            CloseAction::Terminate("backend"),
            CloseAction::CloseWindow
        ]
    );
    assert!(!state.has_child());
    assert_eq!(state.lifecycle(), Lifecycle::Terminated);
    assert_eq!(state.server_port(), Some(50000));
}

#[test]
fn close_without_a_child_only_holds_and_closes() {
    let mut state: SupervisorState<u32> = SupervisorState::new();
    let actions = on_close_requested(&mut state);
    assert_eq!(actions, vec![CloseAction::PreventClose, CloseAction::CloseWindow]);
    assert_eq!(state.lifecycle(), Lifecycle::Terminated);
    assert!(!state.has_child());
}

#[test]
fn closing_twice_terminates_the_child_once() {
    let mut state: SupervisorState<u32> = SupervisorState::new();
    state.record_port(50000);
    state.attach_child(42);
    let first = on_window_event(&mut state, WindowEvent::CloseRequested);
    let second = on_window_event(&mut state, WindowEvent::CloseRequested);
    let signals = first
        .iter()
        .chain(second.iter())
        .filter(|action| matches!(action, CloseAction::Terminate(_)))
        .count();
    assert_eq!(signals, 1);
    assert_eq!(
        first,
        vec![CloseAction::PreventClose, CloseAction::Terminate(42), CloseAction::CloseWindow]
    );
    assert_eq!(second, vec![CloseAction::PreventClose, CloseAction::CloseWindow]);
}

#[test]
fn a_second_close_changes_nothing() {
    let mut state: SupervisorState<u32> = SupervisorState::new();
    state.record_port(1234);
    state.attach_child(1);
    on_close_requested(&mut state);
    let before = (state.server_port(), state.has_child(), state.lifecycle());
    let actions = on_close_requested(&mut state);
    let after = (state.server_port(), state.has_child(), state.lifecycle());
    assert_eq!(before, after);
    assert!(actions.iter().all(|action| !matches!(action, CloseAction::Terminate(_))));
}

#[test]
fn other_window_events_do_nothing() {
    let mut state: SupervisorState<u32> = SupervisorState::new();
    state.record_port(1234);
    state.attach_child(8);
    let actions = on_window_event(&mut state, WindowEvent::Other);
    assert_eq!(actions, vec![]);
    assert!(state.has_child());
    assert_eq!(state.lifecycle(), Lifecycle::Running);
    assert_eq!(state.server_port(), Some(1234));
}

#[test]
fn the_child_is_given_up_at_most_once_over_any_run() {
    for seed in 0u32..2000 {
        let mut state: SupervisorState<u32> = SupervisorState::new();
        let mut code = seed;
        let mut releases = 0;
        let mut first_port = None;
        for step in 0..12u32 {
            let held = state.has_child();
            match code % 4 {
                0 => {
                    state.server_port();
                },
                1 => {
                    let port = (code % 60000) as u16;
                    if state.record_port(port) {
                        assert_eq!(first_port, None);
                        first_port = Some(port);
                    }
                },
                2 => {
                    state.attach_child(step);
                },
                _ => {
                    let actions = on_window_event(&mut state, WindowEvent::CloseRequested);
                    assert_eq!(
                        actions.iter().any(|a| matches!(a, CloseAction::Terminate(_))),
                        held
                    );
                },
            }
            if held && !state.has_child() {
                releases += 1;
                assert_eq!(code % 4, 3);
            }
            assert_eq!(state.server_port(), first_port);
            code = code.wrapping_mul(1103515245).wrapping_add(12345) >> 2;
        }
        assert!(releases <= 1);
    }
}
