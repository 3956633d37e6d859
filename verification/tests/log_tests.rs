use event_trace::session_log::{
    multipart_content_type, upload_frame_path,
    closing_chunk, data_json_path, frame_path, handle_event, plan_save, record_chunk,
    session_dir, session_header, EventRecord, SavePlan, TracedInput,
};
use event_trace::text::{
    decimal_i32, decimal_u128, str_contains, str_equal, str_starts_with, trim_trailing_nul,
    window_text,
};
use event_trace::window::RECT;
use event_trace::mouse::MouseLogEvents as E;

#[test]
fn decimal_rendering() {
    assert_eq!(decimal_u128(0), "0");
    assert_eq!(decimal_u128(7), "7");
    assert_eq!(decimal_u128(10), "10");
    assert_eq!(decimal_u128(1725029869123), "1725029869123");
    assert_eq!(decimal_u128(u128::MAX), u128::MAX.to_string());
    assert_eq!(decimal_i32(-5), "-5");
    assert_eq!(decimal_i32(i32::MIN), "-2147483648");
    assert_eq!(decimal_i32(i32::MAX), "2147483647");
}

#[test]
fn substring_search() {
    assert!(str_contains("\"LB_down\"", "down"));
    assert!(!str_contains("\"LB_DOWN\"", "down"));
    assert!(str_contains("abc", ""));
    assert!(!str_contains("do", "down"));
    assert!(str_contains("down", "down"));
    assert!(str_starts_with("rustdesk://x", "rustdesk://"));
    assert!(!str_starts_with("https://x", "rustdesk://"));
    assert!(str_equal("Mac OS", "Mac OS"));
    assert!(!str_equal("Mac OS", "Windows"));
}

#[test]
fn trailing_nul_trimming() {
    assert_eq!(trim_trailing_nul("title\0\0\0"), "title");
    assert_eq!(trim_trailing_nul("a\0b\0"), "a\0b");
    assert_eq!(trim_trailing_nul("\0\0"), "");
    assert_eq!(trim_trailing_nul("none"), "none");
}

#[test]
fn wide_buffer_text() {
    let mut buf = [0u16; 8];
    for (i, c) in "Notepad".encode_utf16().enumerate() {
        buf[i] = c;
    }
    assert_eq!(window_text(&buf), Some("Notepad".to_string()));
    // a supplementary character as a surrogate pair
    let pair: Vec<u16> = "a\u{1F600}".encode_utf16().chain([0, 0]).collect();
    assert_eq!(window_text(&pair), Some("a\u{1F600}".to_string()));
    // an unpaired surrogate is invalid
    assert_eq!(window_text(&[0x41, 0xD800, 0]), None);
    assert_eq!(window_text(&[0; 4]), Some(String::new()));
}

#[test]
fn session_paths() {
    let id: u128 = 0x67e5504410b1426f9247bb680e5fe0c8;
    let dir = session_dir("/tmp", id);
    assert_eq!(dir, "/tmp/EventLogger/session-67e55044-10b1-426f-9247-bb680e5fe0c8/");
    assert_eq!(session_dir("C:\\T", 0), "C:\\T/EventLogger/session-00000000-0000-0000-0000-000000000000/");
    assert_eq!(data_json_path(&dir), format!("{}data.json", dir));
    assert_eq!(frame_path("/d/", 1700000000123), "/d/1700000000123.png");
}

#[test]
fn log_chunks_make_a_json_array() {
    let mut log = session_header().to_string();
    log.push_str(&record_chunk("{\"a\":1}"));
    log.push_str(&record_chunk("{\"a\":2}"));
    log.push_str(closing_chunk());
    assert_eq!(log, "[{\"a\":1},{\"a\":2},{}]");
    // an empty session is a one-element array
    let empty = format!("{}{}", session_header(), closing_chunk());
    assert_eq!(empty, "[{}]");
    let parsed: serde_json::Value = serde_json::from_str(&log).unwrap();
    assert_eq!(parsed.as_array().unwrap().len(), 3);
}

#[test]
fn save_plans() {
    assert_eq!(plan_save(-123, "\"LB_DOWN\""), SavePlan::CloseLog);
    assert_eq!(plan_save(-123, "anything"), SavePlan::CloseLog);
    assert_eq!(plan_save(10, "\"LB_DOWN\""), SavePlan::Record { capture: true });
    assert_eq!(plan_save(10, "key down: true"), SavePlan::Record { capture: false });
    assert_eq!(plan_save(-122, ""), SavePlan::Record { capture: true });
}

#[test]
fn traced_inputs() {
    let q = handle_event(
        TracedInput::Mouse { mask: 9, x: 4, y: 5, modifiers: "[Alt]".to_string() },
        (1, 2),
    )
    .unwrap();
    assert_eq!((q.x, q.y), (4, 5));
    assert_eq!(q.event, "\"LB_DOWN\"");
    assert_eq!(q.modifiers, "[Alt]");
    let q = handle_event(
        TracedInput::Key { text: "chr: 65".to_string(), modifiers: "[]".to_string() },
        (1, 2),
    )
    .unwrap();
    assert_eq!((q.x, q.y), (1, 2));
    assert_eq!(q.event, "chr: 65");
    assert!(handle_event(TracedInput::Other, (0, 0)).is_none());
}

#[test]
fn stop_mark_closes_the_log() {
    let stop = event_trace::tracer::stop_log();
    let q = handle_event(
        TracedInput::Mouse { mask: stop.mask, x: stop.x, y: stop.y, modifiers: String::new() },
        (0, 0),
    )
    .unwrap();
    assert_eq!(plan_save(q.x, &q.event), SavePlan::CloseLog);
}

#[test]
fn records_carry_window_and_event() {
    let q = handle_event(
        TracedInput::Mouse { mask: 10, x: 7, y: 8, modifiers: "[]".to_string() },
        (0, 0),
    )
    .unwrap();
    let r = EventRecord::new(
        42,
        "\\Device\\app.exe".to_string(),
        "Title".to_string(),
        "Class".to_string(),
        RECT { left: -8, top: 0, right: 1928, bottom: 1048 },
        q,
    );
    assert_eq!(r.timestamp, 42);
    assert_eq!(r.window_left, -8);
    assert_eq!(r.window_bottom, 1048);
    assert_eq!(r.event, "\"LB_UP\"");
    assert_eq!((r.mouse_x_pos, r.mouse_y_pos), (7, 8));
    assert_eq!(r.title, "Title");
}

#[test]
fn rect_text() {
    let r = RECT { left: -8, top: 0, right: 1928, bottom: 1048 };
    assert_eq!(r.to_string(), "RECT { left: -8, top: 0, right: 1928, bottom: 1048 }");
}

#[test]
fn upload_texts() {
    assert_eq!(upload_frame_path("/s/"), "/s/frame.png");
    assert_eq!(multipart_content_type("abc123"), "multipart/form-data; boundary=\"abc123\"");
}

#[test]
fn mouse_events_are_always_captured() {

    for e in [E::LB_DOWN, E::LB_UP, E::RB_DOWN, E::RB_UP, E::MID_DOWN, E::MID_UP, E::SCROLL, E::UNDEFINED] {
        assert_eq!(plan_save(1, &e.to_string()), SavePlan::Record { capture: true });
    }
}
