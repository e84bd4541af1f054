use bottomless_pit::input::{InputEvent, InputHandle, Key, MouseKey, KEYBOARD_KEYS, MOUSE_KEYS};

fn key_event(key: Key, pressed: bool) -> InputEvent {
    InputEvent::Keyboard { key: Some(key), pressed }
}

#[test]
fn new_handle_has_nothing_held() {
    let h = InputHandle::new();
    assert!(h.is_key_up(Key::W));
    assert!(!h.is_key_down(Key::W));
    assert!(!h.is_key_pressed(Key::W));
    assert!(!h.is_key_released(Key::W));
    assert!(h.is_mouse_key_up(MouseKey::Left));
    assert!(!h.is_mouse_key_down(MouseKey::Left));
}

#[test]
fn press_then_hold_then_release() {
    let mut h = InputHandle::new();
    assert!(h.process_input(key_event(Key::A, true)));
    assert!(h.is_key_down(Key::A));
    assert!(h.is_key_pressed(Key::A));
    assert!(!h.is_key_released(Key::A));

    h.end_of_frame_refresh();
    assert!(h.is_key_down(Key::A));
    assert!(!h.is_key_pressed(Key::A));

    assert!(h.process_input(key_event(Key::A, false)));
    assert!(h.is_key_up(Key::A));
    assert!(h.is_key_released(Key::A));
    assert!(!h.is_key_pressed(Key::A));

    h.end_of_frame_refresh();
    assert!(!h.is_key_released(Key::A));
}

#[test]
fn key_event_touches_only_its_key() {
    let mut h = InputHandle::new();
    h.process_input(key_event(Key::Space, true));
    assert!(h.is_key_down(Key::Space));
    assert!(!h.is_key_down(Key::Tab));
    assert!(!h.is_key_down(Key::Key1));
    assert!(!h.is_mouse_key_down(MouseKey::Left));
}

#[test]
fn mouse_buttons() {
    let mut h = InputHandle::new();
    assert!(h.process_input(InputEvent::Mouse { button: MouseKey::Right, pressed: true }));
    assert!(h.is_mouse_key_down(MouseKey::Right));
    assert!(!h.is_mouse_key_up(MouseKey::Right));
    assert!(h.is_mouse_key_pressed(MouseKey::Right));
    assert!(!h.is_mouse_key_down(MouseKey::Left));
    h.end_of_frame_refresh();
    h.process_input(InputEvent::Mouse { button: MouseKey::Right, pressed: false });
    assert!(h.is_mouse_key_released(MouseKey::Right));
    assert!(h.is_mouse_key_up(MouseKey::Right));
}

#[test]
fn mouse_up_reads_the_mouse_state() {
    let mut h = InputHandle::new();
    h.process_input(key_event(Key::Key1, true));
    assert!(h.is_mouse_key_up(MouseKey::Left));
}

#[test]
fn events_taken_or_not() {
    let mut h = InputHandle::new();
    assert!(!h.process_input(InputEvent::Keyboard { key: None, pressed: true }));
    assert!(h.process_input(InputEvent::CursorMoved));
    assert!(!h.process_input(InputEvent::Other));
}

#[test]
fn key_slots() {
    assert_eq!(Key::Key1.index(), 0);
    assert_eq!(Key::A.index(), 10);
    assert_eq!(Key::Tab.index(), 110);
    assert_eq!(Key::Unrecognized.index(), KEYBOARD_KEYS);
    assert_eq!(MouseKey::Left.index(), 0);
    assert_eq!(MouseKey::Other.index(), MOUSE_KEYS - 1);
}
