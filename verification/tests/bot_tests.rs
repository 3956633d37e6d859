use event_trace::bot::{
    BotAction, ClientKey, DisplayInfo, KeyCode, KeyboardMode, ModifierKey, PeerInfo, PermissionName, TauriBot,
    CTRL_CLICK_RELEASE_MASK,
};

fn bot() -> event_trace::bot::Bot {
    let mut t = TauriBot::new();
    assert_eq!(t.0.id, "");
    t.set_id("peer-1".to_string());
    let b = t.inner();
    assert_eq!(b.id, "peer-1");
    b
}

#[test]
fn constant_answers() {
    let b = bot();
    assert!(!b.is_file_transfer());
    assert!(!b.is_rdp());
    assert!(!b.is_port_forward());
    assert!(!b.is_restarting_remote_device());
    assert_eq!(b.get_keyboard_mode(), "legacy");
    assert_eq!(b.peer_platform(), "Windows");
    assert_eq!(PermissionName::Recording.as_str(), "recording");
}

#[test]
fn key_strokes() {
    let b = bot();
    let s = b.input_key("a", None, true, false, false, true, false, false).unwrap();
    assert_eq!(s.key, KeyCode::Chr('a' as u32));
    assert_eq!(s.mode, KeyboardMode::Legacy);
    assert!(s.down && !s.press);
    assert!(s.ctrl && !s.alt);
    // a press wins over down
    let s = b.input_key("é", Some(ClientKey::ControlKey(3)), true, true, true, false, false, true).unwrap();
    assert_eq!(s.key, KeyCode::Chr('é' as u32));
    assert!(s.press && !s.down);
    // longer names go through the key map
    let s = b.input_key("VK_MENU", Some(ClientKey::ControlKey(1)), false, false, false, false, false, false).unwrap();
    assert_eq!(s.key, KeyCode::ControlKey(1));
    assert!(!s.down && !s.press);
    let s = b.input_key("Raw", Some(ClientKey::Raw(99)), true, false, false, false, false, false).unwrap();
    assert_eq!(s.key, KeyCode::Chr(99));
    assert!(b.input_key("UNKNOWN", None, true, false, false, false, false, false).is_none());
    assert!(b.input_key("", None, true, false, false, false, false, false).is_none());
}

#[test]
fn flutter_key_codes() {
    let b = bot();
    assert_eq!(b.handle_flutter_key_event(65, 30), Some((65, 30)));
    assert_eq!(b.handle_flutter_key_event(-1, 30), None);
    assert_eq!(b.handle_flutter_key_event(65, -2), None);
}

#[test]
fn mouse_modifier_order() {
    let b = bot();
    let m = b.to_mouse_event(9, 1, 2, true, true, true, true, false);
    assert_eq!(m.modifiers, vec![ModifierKey::Alt, ModifierKey::Shift, ModifierKey::Control, ModifierKey::Meta]);
    let m = b.to_mouse_event(9, 1, 2, false, true, false, false, true);
    assert_eq!(m.modifiers, vec![ModifierKey::Control, ModifierKey::Scroll]);
    assert_eq!((m.mask, m.x, m.y), (9, 1, 2));
}

#[test]
fn ctrl_click_on_macos() {
    let b = bot();
    let sent = b.send_mouse(9, 3, 4, false, true, false, false, false, true, "Windows");
    assert_eq!(sent.len(), 2);
    assert_eq!(sent[1].mask, CTRL_CLICK_RELEASE_MASK);
    assert_eq!((sent[1].x, sent[1].y), (3, 4));
    assert_eq!(b.send_mouse(9, 3, 4, false, true, false, false, false, true, "Mac OS").len(), 1);
    assert_eq!(b.send_mouse(9, 3, 4, false, true, false, false, false, false, "Windows").len(), 1);
    assert_eq!(b.send_mouse(9, 3, 4, false, false, false, false, false, true, "Windows").len(), 1);
    assert_eq!(b.send_mouse(10, 3, 4, false, true, false, false, false, true, "Windows").len(), 1);
}

fn display(x: i32) -> DisplayInfo {
    DisplayInfo { x, y: 0, width: 1920, height: 1080, cursor_embedded: false }
}

#[test]
fn peer_info_with_displays() {
    let b = bot();
    let pi = PeerInfo {
        version_number: 1001009,
        username: "u".to_string(),
        displays: vec![display(0), display(1920)],
        current_display: 1,
    };
    let a = b.handle_peer_info(&pi, 1001010);
    assert_eq!(a.len(), 5);
    assert!(matches!(a[0], BotAction::UiSetPermission { name: PermissionName::Restart, enabled: false }));
    assert!(matches!(a[1], BotAction::UiSetDisplay(d) if d.x == 1920));
    assert!(matches!(a[2], BotAction::UiUpdatePrivacyMode));
    assert!(matches!(a[3], BotAction::OnConnected));
    assert!(matches!(a[4], BotAction::AddRecentDocument));
}

#[test]
fn peer_info_without_display() {
    let b = bot();
    let pi = PeerInfo { version_number: 1001010, username: String::new(), displays: vec![], current_display: 0 };
    let a = b.handle_peer_info(&pi, 1001010);
    assert_eq!(a.len(), 2);
    assert!(matches!(a[0], BotAction::UpdatePrivacyMode));
    match &a[1] {
        BotAction::ShowMsgBox(m) => {
            assert_eq!(m.msgtype, "error");
            assert_eq!(m.title, "Remote Error");
            assert_eq!(m.text, "No Display");
            assert_eq!(m.link, "");
        }
        _ => panic!("expected a message box"),
    }
}

#[test]
fn test_delay_echo() {
    let b = bot();
    assert!(matches!(b.handle_test_delay(false), Some(BotAction::EchoTestDelay)));
    assert!(b.handle_test_delay(true).is_none());
}
