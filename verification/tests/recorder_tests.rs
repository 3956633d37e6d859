use event_trace::bot::{Bot, BotAction, DefaultOptions, DisplayInfo, LocalIdentity, PeerInfo, PermissionName};
use event_trace::recorder::{
    handle_back_msg_block_input, handle_back_msg_privacy_mode, handle_back_notification,
    BackNotification, BlockInputState, BotSync, CodecFormat, LocalMessage, LoopEvent, Macro,
    MiscMessage, PrivacyModeState, Rect, StepEvent, UiData,
};

fn identity() -> LocalIdentity {
    LocalIdentity { id: "123456789".to_string(), user_name: "alice".to_string(), version: "1.2.3".to_string() }
}

fn session() -> Macro {
    Macro::new(Bot { id: "p".to_string() })
}

fn shown(a: &BotAction) -> (String, String, String, String) {
    match a {
        BotAction::ShowMsgBox(m) => (m.msgtype.clone(), m.title.clone(), m.text.clone(), m.link.clone()),
        _ => panic!("expected a message box"),
    }
}

fn strs(a: &str, b: &str, c: &str, d: &str) -> (String, String, String, String) {
    (a.to_string(), b.to_string(), c.to_string(), d.to_string())
}

#[test]
fn defaults() {
    let m = session();
    assert!(!m.first_frame && !m.recording_macro && !m.enable_kb_macro && !m.enable_mouse_macro);
    assert_eq!(m.video_format, CodecFormat::Unknown);
    assert!(m.step_events.is_empty());
    assert_eq!(m.old_clipboard, "");
    assert_eq!(m.data_count, 0);
    assert_eq!(BotSync::default(), BotSync::Forward);
    assert_eq!(Rect::default(), Rect { x0: 0, y0: 0, x1: 0, y1: 0 });
}

#[test]
fn macro_toggle() {
    let mut m = session();
    m.macro_start_stop();
    assert!(m.recording_macro && m.enable_kb_macro && m.enable_mouse_macro);
    m.macro_start_stop();
    assert!(!m.recording_macro);
    assert!(m.enable_kb_macro && m.enable_mouse_macro);
    assert!(m.step_events.is_empty());
}

#[test]
fn stopping_keeps_recorded_steps() {
    let mut m = session();
    m.macro_start_stop();
    m.step_events.push(StepEvent {
        time_ms: 5,
        screen: vec![1, 2],
        mouse_pos: (3, 4),
        window_title: "t".to_string(),
        window_class: "c".to_string(),
        window_rect: Rect::default(),
    });
    m.macro_start_stop();
    assert!(!m.recording_macro);
    assert_eq!(m.step_events.len(), 1);
    assert_eq!(m.step_events[0].time_ms, 5);
    assert_eq!(m.step_events[0].screen, vec![1, 2]);
    m.macro_start_stop();
    assert!(m.step_events.is_empty());
}

#[test]
fn video_frames_record_codec() {
    let mut m = session();
    let s = m.handle_msg_from_local(LocalMessage::VideoFrame(CodecFormat::VP9));
    assert!(s.keep_running);
    assert!(m.first_frame);
    assert_eq!(m.video_format, CodecFormat::VP9);
    assert!(matches!(s.actions[..], [BotAction::ForwardVideoFrame]));
    let _ = m.handle_msg_from_local(LocalMessage::VideoFrame(CodecFormat::H264));
    assert_eq!(m.video_format, CodecFormat::H264);
}

#[test]
fn peer_info_then_clipboard() {
    let mut m = session();
    let info = PeerInfo {
        version_number: 2,
        username: "u".to_string(),
        displays: vec![DisplayInfo { x: 0, y: 0, width: 800, height: 600, cursor_embedded: true }],
        current_display: 0,
    };
    m.set_old_clipboard("copied".to_string());
    let s = m.handle_msg_from_local(LocalMessage::PeerInfo { info, min_restart_version: 1 });
    assert!(s.keep_running);
    assert_eq!(s.actions.len(), 6);
    assert!(matches!(s.actions[4], BotAction::CheckClipboardFileContext));
    assert!(matches!(&s.actions[5], BotAction::SendClipboardLater(t) if t == "copied"));
    m.set_old_clipboard(String::new());
    let info = PeerInfo { version_number: 2, username: "u".to_string(), displays: vec![], current_display: 0 };
    let s = m.handle_msg_from_local(LocalMessage::PeerInfo { info, min_restart_version: 1 });
    assert_eq!(s.actions.len(), 3);
    assert!(matches!(s.actions[2], BotAction::CheckClipboardFileContext));
}

#[test]
fn misc_messages() {
    let mut m = session();
    let s = m.handle_msg_from_local(
        LocalMessage::Misc(MiscMessage::PermissionInfo { permission: PermissionName::File, enabled: false }),
    );
    assert!(matches!(
        s.actions[..],
        [BotAction::CheckClipboardFileContext, BotAction::SetPermission { name: PermissionName::File, enabled: false }]
    ));
    let s = m.handle_msg_from_local(
        LocalMessage::Misc(MiscMessage::PermissionInfo { permission: PermissionName::Audio, enabled: true }),
    );
    assert!(matches!(s.actions[..], [BotAction::SetPermission { name: PermissionName::Audio, enabled: true }]));
    let d = DisplayInfo { x: 1, y: 2, width: 0, height: 600, cursor_embedded: false };
    let s = m.handle_msg_from_local(LocalMessage::Misc(MiscMessage::SwitchDisplay(d)));
    assert!(matches!(s.actions[..], [BotAction::SwitchDisplay, BotAction::ResetVideo]));
    let d = DisplayInfo { x: 1, y: 2, width: 800, height: 600, cursor_embedded: false };
    let s = m.handle_msg_from_local(LocalMessage::Misc(MiscMessage::SwitchDisplay(d)));
    assert!(matches!(s.actions[..], [BotAction::SwitchDisplay, BotAction::ResetVideo, BotAction::SetDisplay(_)]));
    let s = m.handle_msg_from_local(LocalMessage::Misc(MiscMessage::CloseReason("bye".to_string())));
    assert!(!s.keep_running);
    assert_eq!(shown(&s.actions[0]), strs("error", "Connection Error", "bye", ""));
}

#[test]
fn uac_prompts() {
    let mut m = session();
    let s = m.handle_msg_from_local(LocalMessage::Misc(MiscMessage::Uac(true)));
    assert_eq!(shown(&s.actions[0]), strs("custom-uac-nocancel", "Prompt", "Please wait for confirmation of UAC...", ""));
    let s = m.handle_msg_from_local(LocalMessage::Misc(MiscMessage::Uac(false)));
    assert!(matches!(&s.actions[0], BotAction::CancelMsgBox(t)
        if t == "custom-uac-nocancel-Prompt-Please wait for confirmation of UAC...-"));
    let s = m.handle_msg_from_local(LocalMessage::Misc(MiscMessage::ForegroundWindowElevated(false)));
    assert!(matches!(&s.actions[0], BotAction::CancelMsgBox(t)
        if t == "custom-elevated-foreground-nocancel-Prompt-elevated_foreground_window_tip-"));
}

#[test]
fn message_box_links() {
    let mut m = session();
    let mk = |link: &str, helper: Option<&str>| LocalMessage::MessageBox {
        msgtype: "info".to_string(),
        title: "T".to_string(),
        text: "x".to_string(),
        link: link.to_string(),
        helper_link: helper.map(|h| h.to_string()),
    };
    let s = m.handle_msg_from_local(mk("rustdesk://connect", None));
    assert_eq!(shown(&s.actions[0]).3, "rustdesk://connect");
    let s = m.handle_msg_from_local(mk("setup", Some("https://help/setup")));
    assert_eq!(shown(&s.actions[0]).3, "https://help/setup");
    let s = m.handle_msg_from_local(mk("https://evil", None));
    assert_eq!(shown(&s.actions[0]).3, "");
}

#[test]
fn hash_reply_request() {
    let mut m = session();
    let s = m.handle_msg_from_local(LocalMessage::Hash { local: identity() });
    assert!(s.keep_running);
    match &s.actions[..] {
        [BotAction::SendProcessingRequest(p)] => {
            assert_eq!(p.my_id, "007");
            assert_eq!(p.session_id, 1);
            assert!(p.password.is_empty());
            assert_eq!(p.username, "123456789");
            assert_eq!(p.my_name, "alice");
            assert_eq!(p.version, "1.2.3");
            assert_eq!(p.option, Some(DefaultOptions));
        }
        _ => panic!("expected a processing request"),
    }
}

#[test]
fn status_tick_resets_counter() {
    let mut m = session();
    m.data_count = 4096;
    assert!(m.io_step(LoopEvent::StatusTick).actions.is_empty());
    assert_eq!(m.data_count, 0);
}

#[test]
fn other_peer_messages() {
    let mut m = session();
    assert!(matches!(m.handle_msg_from_local(LocalMessage::Hash { local: identity() }).actions[..], [BotAction::SendProcessingRequest(_)]));
    assert!(matches!(m.handle_msg_from_local(LocalMessage::AudioFrame).actions[..], [BotAction::ForwardAudioFrame]));
    assert!(matches!(m.handle_msg_from_local(LocalMessage::Clipboard).actions[..], [BotAction::UpdateClipboard]));
    assert!(matches!(m.handle_msg_from_local(LocalMessage::TestDelay { from_client: false }).actions[..], [BotAction::EchoTestDelay]));
    assert!(m.handle_msg_from_local(LocalMessage::TestDelay { from_client: true }).actions.is_empty());
    assert!(m.handle_msg_from_local(LocalMessage::CursorData).actions.is_empty());
    assert!(m.handle_msg_from_local(LocalMessage::LoginError).keep_running);
}

#[test]
fn block_input_reports() {
    assert!(matches!(handle_back_msg_block_input(BlockInputState::BlkOnSucceeded)[..], [BotAction::StoreBlockInputState(true)]));
    let a = handle_back_msg_block_input(BlockInputState::BlkOnFailed);
    assert_eq!(shown(&a[0]), strs("custom-error", "Block user input", "Failed", ""));
    assert!(matches!(a[1], BotAction::StoreBlockInputState(false)));
    let a = handle_back_msg_block_input(BlockInputState::BlkOffFailed);
    assert_eq!(a.len(), 1);
    assert_eq!(shown(&a[0]), strs("custom-error", "Unblock user input", "Failed", ""));
    assert!(handle_back_msg_block_input(BlockInputState::BlkStateUnknown).is_empty());
}

#[test]
fn privacy_mode_reports() {
    let s = handle_back_msg_privacy_mode(PrivacyModeState::PrvOnByOther);
    assert!(!s.keep_running);
    assert_eq!(shown(&s.actions[0]), strs("error", "Connecting...", "Someone turns on privacy mode, exit", ""));
    assert_eq!(s.actions.len(), 1);
    let s = handle_back_msg_privacy_mode(PrivacyModeState::PrvOnSucceeded);
    assert!(s.keep_running);
    assert_eq!(shown(&s.actions[0]), strs("custom-nocancel", "Privacy mode", "In privacy mode", ""));
    assert!(matches!(s.actions[1], BotAction::StorePrivacyMode(true)));
    let s = handle_back_msg_privacy_mode(PrivacyModeState::PrvOffFailed);
    assert_eq!(s.actions.len(), 1);
    let s = handle_back_msg_privacy_mode(PrivacyModeState::PrvStateUnknown);
    assert!(s.keep_running && s.actions.is_empty());
    let s = handle_back_notification(BackNotification::PrivacyMode(PrivacyModeState::PrvOffByPeer));
    assert_eq!(shown(&s.actions[0]), strs("custom-error", "Privacy mode", "Peer exit", ""));
    assert!(handle_back_notification(BackNotification::Other).actions.is_empty());
}

#[test]
fn ui_messages() {
    let mut m = session();
    assert!(!m.handle_msg_from_ui(UiData::Close).keep_running);
    assert!(matches!(m.handle_msg_from_ui(UiData::Message).actions[..], [BotAction::ForwardToPeer]));
    assert!(matches!(m.handle_msg_from_ui(UiData::ToggleClipboardFile).actions[..], [BotAction::CheckClipboardFileContext]));
    assert!(m.handle_msg_from_ui(UiData::Login).actions.is_empty());
}

#[test]
fn loop_turns() {
    let mut m = session();
    assert!(m.start_clipboard());
    let s = m.io_step(LoopEvent::TimerTick { silent_ms: 29999 });
    assert!(s.keep_running && matches!(s.actions[..], [BotAction::RearmTimer]));
    let s = m.io_step(LoopEvent::TimerTick { silent_ms: 30000 });
    assert!(!s.keep_running);
    assert_eq!(shown(&s.actions[0]), strs("error", "Connection Error", "Timeout", ""));
    let s = m.io_step(LoopEvent::PeerClosed);
    assert!(!s.keep_running);
    assert_eq!(shown(&s.actions[0]), strs("error", "Connection Error", "Reset by the peer", ""));
    assert!(m.io_step(LoopEvent::UiClosed).keep_running);
    assert!(m.io_step(LoopEvent::StatusTick).keep_running);
    assert!(matches!(m.io_step(LoopEvent::ClipboardFile).actions[..], [BotAction::ForwardClipboardFile]));
    let s = m.io_step(
        LoopEvent::FromPeer(LocalMessage::Misc(MiscMessage::BackNotification(
            BackNotification::PrivacyMode(PrivacyModeState::PrvOnByOther),
        ))),
    );
    assert!(!s.keep_running);
    assert!(!m.io_step(LoopEvent::FromUi(UiData::Close)).keep_running);
}
