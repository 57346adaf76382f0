use frame_loop::event::{Key, KeyState, PlatformEvent};
use frame_loop::geometry::{reconcile_size, Dimensions, Measurement};

#[test]
fn close_request_is_a_trigger() {
    assert!(PlatformEvent::CloseRequested.is_termination_trigger());
}

#[test]
fn escape_is_a_trigger_in_either_state() {
    for state in [KeyState::Pressed, KeyState::Released] {
        let event = PlatformEvent::Keyboard { state, key: Some(Key::Escape) };
        assert!(event.is_termination_trigger());
    }
}

#[test]
fn nothing_else_is_a_trigger() {
    for state in [KeyState::Pressed, KeyState::Released] {
        for key in [Some(Key::Other), None] {
            let event = PlatformEvent::Keyboard { state, key };
            assert!(!event.is_termination_trigger());
        }
    }
    assert!(!PlatformEvent::Other.is_termination_trigger());
}

#[test]
fn equal_sizes_need_no_resize() {
    let size = Dimensions { width: 600, height: 420 };
    assert_eq!(reconcile_size(Some(Measurement { ui: size, window: size })), None);
}

#[test]
fn missing_root_rectangle_needs_no_resize() {
    assert_eq!(reconcile_size(None), None);
}

#[test]
fn differing_sizes_resize_to_the_window() {
    let ui = Dimensions { width: 600, height: 420 };
    for window in [
        Dimensions { width: 601, height: 420 },
        Dimensions { width: 600, height: 419 },
        Dimensions { width: 0, height: 0 },
        Dimensions { width: u32::MAX, height: u32::MAX },
        Dimensions { width: 420, height: 600 },
    ] {
        assert_eq!(reconcile_size(Some(Measurement { ui, window })), Some(window));
    }
}
