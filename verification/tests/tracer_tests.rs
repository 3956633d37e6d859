use event_trace::keys::{convert_key_name, has_key_name, Key};
use event_trace::mouse::{
    button_code, get_mouse_event_from_mask, mouse_mask, Button, MouseLogEvents, MOUSE_TYPE_DOWN,
    MOUSE_TYPE_TRACKPAD, MOUSE_TYPE_UP, MOUSE_TYPE_WHEEL,
};
use event_trace::tracer::{
    key_send, modifier_flags, mouse_send, saturate_i32, stop_log, InputEvent, KeyBuffer,
    Modifiers, MouseEvent, TracerAction, TracerState, STOP_MARK_X,
};

const NO_MODS: Modifiers = Modifiers { alt: false, ctrl: false, shift: false, command: false };

#[test]
fn mask_decoding_of_each_event() {
    assert_eq!(get_mouse_event_from_mask(1 << 3 | 1), MouseLogEvents::LB_DOWN);
    assert_eq!(get_mouse_event_from_mask(1 << 3 | 2), MouseLogEvents::LB_UP);
    assert_eq!(get_mouse_event_from_mask(2 << 3 | 1), MouseLogEvents::RB_DOWN);
    assert_eq!(get_mouse_event_from_mask(2 << 3 | 2), MouseLogEvents::RB_UP);
    assert_eq!(get_mouse_event_from_mask(4 << 3 | 1), MouseLogEvents::MID_DOWN);
    assert_eq!(get_mouse_event_from_mask(4 << 3 | 2), MouseLogEvents::MID_UP);
    assert_eq!(get_mouse_event_from_mask(4 << 3 | 3), MouseLogEvents::SCROLL);
    assert_eq!(get_mouse_event_from_mask(4), MouseLogEvents::SCROLL);
}

#[test]
fn mask_decoding_edge_cases() {
    // a move, an unknown kind, an unknown button, the back button
    assert_eq!(get_mouse_event_from_mask(0), MouseLogEvents::UNDEFINED);
    assert_eq!(get_mouse_event_from_mask(5), MouseLogEvents::UNDEFINED);
    assert_eq!(get_mouse_event_from_mask(3 << 3 | 1), MouseLogEvents::UNDEFINED);
    assert_eq!(get_mouse_event_from_mask(8 << 3 | 2), MouseLogEvents::UNDEFINED);
    // negative masks: arithmetic shift and low bits
    assert_eq!(get_mouse_event_from_mask(-1), MouseLogEvents::UNDEFINED);
    assert_eq!(get_mouse_event_from_mask(-5), MouseLogEvents::SCROLL);
    assert_eq!(get_mouse_event_from_mask(i32::MIN | 1), MouseLogEvents::UNDEFINED);
}

#[test]
fn event_text_is_quoted_name() {
    assert_eq!(MouseLogEvents::LB_DOWN.to_string(), "\"LB_DOWN\"");
    assert_eq!(MouseLogEvents::SCROLL.to_string(), "\"SCROLL\"");
    assert_eq!(MouseLogEvents::UNDEFINED.to_string(), "\"UNDEFINED\"");
    assert_eq!(MouseLogEvents::MID_UP.name(), "MID_UP");
}

#[test]
fn mask_encoding() {
    assert_eq!(button_code(Button::Left), 1);
    assert_eq!(button_code(Button::Unknown(7)), 0);
    assert_eq!(mouse_mask(MOUSE_TYPE_DOWN, Button::Left), 9);
    assert_eq!(mouse_mask(MOUSE_TYPE_UP, Button::Right), 18);
    assert_eq!(mouse_mask(MOUSE_TYPE_WHEEL, Button::Middle), 35);
    assert_eq!(mouse_mask(MOUSE_TYPE_TRACKPAD, Button::Unknown(3)), 4);
}

#[test]
fn mask_round_trip() {
    for b in [Button::Left, Button::Right, Button::Middle, Button::Unknown(9)] {
        let down = get_mouse_event_from_mask(mouse_mask(MOUSE_TYPE_DOWN, b));
        let up = get_mouse_event_from_mask(mouse_mask(MOUSE_TYPE_UP, b));
        let wheel = get_mouse_event_from_mask(mouse_mask(MOUSE_TYPE_WHEEL, b));
        let (ed, eu) = match b {
            Button::Left => (MouseLogEvents::LB_DOWN, MouseLogEvents::LB_UP),
            Button::Right => (MouseLogEvents::RB_DOWN, MouseLogEvents::RB_UP),
            Button::Middle => (MouseLogEvents::MID_DOWN, MouseLogEvents::MID_UP),
            Button::Unknown(_) => (MouseLogEvents::UNDEFINED, MouseLogEvents::UNDEFINED),
        };
        assert_eq!(down, ed);
        assert_eq!(up, eu);
        assert_eq!(wheel, MouseLogEvents::SCROLL);
    }
}

#[test]
fn key_names() {
    assert_eq!(convert_key_name(Key::Alt), "VK_MENU");
    assert_eq!(convert_key_name(Key::AltGr), "RAlt");
    assert_eq!(convert_key_name(Key::KeyA), "VK_A");
    assert_eq!(convert_key_name(Key::Num0), "VK_0");
    assert_eq!(convert_key_name(Key::Quote), "'");
    assert_eq!(convert_key_name(Key::BackSlash), "\\");
    assert_eq!(convert_key_name(Key::BackQuote), "`");
    assert_eq!(convert_key_name(Key::KpReturn), "VK_ENTER");
    assert_eq!(convert_key_name(Key::Return), "VK_ENTER");
    assert_eq!(convert_key_name(Key::Kp9), "VK_NUMPAD9");
    assert_eq!(convert_key_name(Key::F12), "VK_F12");
    assert_eq!(convert_key_name(Key::MetaLeft), "Meta");
}

#[test]
fn keys_without_names() {
    assert!(has_key_name(Key::Escape));
    assert!(!has_key_name(Key::F13));
    assert!(!has_key_name(Key::NumLock));
    assert!(!has_key_name(Key::Unknown(42)));
    assert!(!has_key_name(Key::RawKey(1)));
    assert!(!has_key_name(Key::Lang5));
}

#[test]
fn key_buffer_set_semantics() {
    let mut b = KeyBuffer::new();
    assert!(!b.contains(Key::Alt));
    b.insert(Key::Alt);
    b.insert(Key::Alt);
    b.insert(Key::ShiftLeft);
    assert!(b.contains(Key::Alt) && b.contains(Key::ShiftLeft));
    b.remove(Key::Alt);
    assert!(!b.contains(Key::Alt));
    assert!(b.contains(Key::ShiftLeft));
    b.remove(Key::KeyQ);
    assert!(b.contains(Key::ShiftLeft));
}

#[test]
fn modifier_flags_use_left_keys() {
    let mut b = KeyBuffer::new();
    b.insert(Key::ControlRight);
    b.insert(Key::ShiftRight);
    b.insert(Key::MetaRight);
    assert_eq!(modifier_flags(&b), NO_MODS);
    b.insert(Key::ControlLeft);
    b.insert(Key::Alt);
    assert_eq!(
        modifier_flags(&b),
        Modifiers { alt: true, ctrl: true, shift: false, command: false }
    );
}

#[test]
fn mouse_and_key_messages() {
    let mut b = KeyBuffer::new();
    b.insert(Key::MetaLeft);
    let m = mouse_send(
        MouseEvent { x: 5, y: -6, button: Button::Right, mouse_type: MOUSE_TYPE_UP },
        &b,
    );
    assert_eq!(m.mask, 18);
    assert_eq!((m.x, m.y), (5, -6));
    assert!(m.modifiers.command && !m.modifiers.alt);
    let k = key_send(Key::KeyZ, false, &b);
    assert_eq!(k.name, "VK_Z");
    assert!(!k.down);
    assert!(k.modifiers.command);
}

#[test]
fn saturation_of_wheel_deltas() {
    assert_eq!(saturate_i32(0), 0);
    assert_eq!(saturate_i32(-120), -120);
    assert_eq!(saturate_i32(i64::MAX), i32::MAX);
    assert_eq!(saturate_i32(i64::MIN), i32::MIN);
    assert_eq!(saturate_i32(i32::MAX as i64 + 1), i32::MAX);
    // the same as converting through a float
    for v in [i64::MAX, i64::MIN, 3_000_000_000, -3_000_000_000, 17] {
        assert_eq!(saturate_i32(v), (v as f64) as i32);
    }
}

#[test]
fn stopped_tracer_drops_events() {
    let mut t = TracerState::new();
    let r = t.event_handler(InputEvent::KeyPress(Key::F20));
    assert!(matches!(r, TracerAction::Stopped));
    let r = t.event_handler(InputEvent::MouseMove { x: 3, y: 4 });
    assert!(matches!(r, TracerAction::Stopped));
    assert_eq!((t.mouse_x, t.mouse_y), (0, 0));
    assert!(!t.keys.contains(Key::F20));
}

#[test]
fn tracer_session_scenario() {
    let mut t = TracerState::new();
    t.start();
    assert!(matches!(t.event_handler(InputEvent::MouseMove { x: 100, y: 200 }), TracerAction::Pass));
    match t.event_handler(InputEvent::KeyPress(Key::ControlLeft)) {
        TracerAction::Key(k) => {
            assert_eq!(k.name, "VK_CONTROL");
            assert!(k.down);
            assert!(k.modifiers.ctrl);
        }
        _ => panic!("expected a key event"),
    }
    match t.event_handler(InputEvent::ButtonPress(Button::Left)) {
        TracerAction::Mouse(m) => {
            assert_eq!(m.mask, 9);
            assert_eq!((m.x, m.y), (100, 200));
            assert!(m.modifiers.ctrl);
        }
        _ => panic!("expected a mouse event"),
    }
    match t.event_handler(InputEvent::KeyRelease(Key::ControlLeft)) {
        TracerAction::Key(k) => {
            assert!(!k.down);
            // modifiers are read before the key leaves the buffer
            assert!(k.modifiers.ctrl);
        }
        _ => panic!("expected a key event"),
    }
    assert!(!t.keys.contains(Key::ControlLeft));
    match t.event_handler(InputEvent::ButtonRelease(Button::Left)) {
        TracerAction::Mouse(m) => {
            assert_eq!(m.mask, 10);
            assert_eq!(m.modifiers, NO_MODS);
        }
        _ => panic!("expected a mouse event"),
    }
    match t.event_handler(InputEvent::Wheel { delta_x: 0, delta_y: -1 }) {
        TracerAction::Mouse(m) => {
            assert_eq!(m.mask, 35);
            assert_eq!((m.x, m.y), (0, -1));
        }
        _ => panic!("expected a mouse event"),
    }
    assert_eq!((t.mouse_x, t.mouse_y), (100, 200));
}

#[test]
fn held_keys_follow_last_event() {
    let mut t = TracerState::new();
    t.start();
    let _ = t.event_handler(InputEvent::KeyPress(Key::KeyA));
    let _ = t.event_handler(InputEvent::KeyPress(Key::KeyB));
    let _ = t.event_handler(InputEvent::KeyRelease(Key::KeyA));
    let _ = t.event_handler(InputEvent::KeyPress(Key::KeyA));
    let _ = t.event_handler(InputEvent::KeyRelease(Key::KeyB));
    assert!(t.keys.contains(Key::KeyA));
    assert!(!t.keys.contains(Key::KeyB));
}

#[test]
fn stop_mark_message() {
    let s = stop_log();
    assert_eq!(s.mask, 0);
    assert_eq!(s.x, STOP_MARK_X);
    assert_eq!(s.x, -123);
    assert_eq!(s.y, 0);
    assert_eq!(s.modifiers, NO_MODS);
}
