use vstd::prelude::*;
use crate::mouse::{get_mouse_event_from_mask, spec_mouse_event};
use crate::text::{decimal_u128, spec_contains, spec_decimal, str_contains};
use crate::tracer::STOP_MARK_X;
use crate::window::RECT;

verus! {

/// The lower-case hexadecimal digit for `d` in `0..16`.
pub open spec fn hex_char(d: int) -> char {
    if d < 10 {
        (('0' as int) + d) as char
    } else {
        (('a' as int) + d - 10) as char
    }
}

/// Nibble `n` of a 128-bit identifier, counting from the most significant.
pub open spec fn id_nibble(id: u128, n: int) -> int {
    (id as int / vstd::arithmetic::power::pow(16, (31 - n) as nat)) % 16
}

/// The number of hyphens before position `i` of the hyphenated form.
pub open spec fn hyphens_before(i: int) -> int {
    if i < 8 {
        0
    } else if i < 13 {
        1
    } else if i < 18 {
        2
    } else if i < 23 {
        3
    } else {
        4
    }
}

/// The hyphenated lower-case form of a session identifier: its 32 hex
/// digits, most significant first, grouped 8-4-4-4-12.
pub open spec fn spec_session_id_text(id: u128) -> Seq<char> {
    Seq::new(
        36,
        |i: int|
            if i == 8 || i == 13 || i == 18 || i == 23 {
                '-'
            } else {
                hex_char(id_nibble(id, i - hyphens_before(i)))
            },
    )
}

/// Calls `uuid::Uuid::from_u128(id).to_string()`. The contract claims the
/// text is the UUID's hyphenated lower-case form: the 16 bytes of `id` in
/// big-endian order as 32 hex digits in groups 8-4-4-4-12.
#[verifier::external_body]
fn session_id_text(id: u128) -> (r: String)
    ensures
        r@ == spec_session_id_text(id),
{
    uuid::Uuid::from_u128(id).to_string()
}

/// The directory of a session's log: `<temp>/EventLogger/session-<id>/`.
pub open spec fn spec_session_dir(temp_dir: Seq<char>, session_id: u128) -> Seq<char> {
    temp_dir + "/EventLogger/session-"@ + spec_session_id_text(session_id) + "/"@
}

/// The directory of a session's log under the temporary directory.
pub fn session_dir(temp_dir: &str, session_id: u128) -> (r: String)
    ensures
        r@ == spec_session_dir(temp_dir@, session_id),
{
    let mut s = String::from_str(temp_dir);
    s.append("/EventLogger/session-");
    let id = session_id_text(session_id);
    s.append(id.as_str());
    s.append("/");
    s
}

/// The event log file of a session directory: `<dir>data.json`.
pub fn data_json_path(dir: &str) -> (r: String)
    ensures
        r@ == dir@ + "data.json"@,
{
    let mut s = String::from_str(dir);
    s.append("data.json");
    s
}

/// The screenshot file of an event: `<dir><time in ms>.png`.
pub fn frame_path(dir: &str, time_ms: u128) -> (r: String)
    ensures
        r@ == dir@ + spec_decimal(time_ms as nat) + ".png"@,
{
    let mut s = String::from_str(dir);
    let t = decimal_u128(time_ms);
    s.append(t.as_str());
    s.append(".png");
    s
}

/// The screenshot uploaded for element matching: `<dir>frame.png`.
pub fn upload_frame_path(dir: &str) -> (r: String)
    ensures
        r@ == dir@ + "frame.png"@,
{
    let mut s = String::from_str(dir);
    s.append("frame.png");
    s
}

/// The content type of a multipart upload with this boundary:
/// `multipart/form-data; boundary="<boundary>"`.
pub fn multipart_content_type(boundary: &str) -> (r: String)
    ensures
        r@ == "multipart/form-data; boundary=\""@ + boundary@ + "\""@,
{
    let mut s = String::from_str("multipart/form-data; boundary=\"");
    s.append(boundary);
    s.append("\"");
    s
}

/// The text a new session's log starts with: `[`.
pub fn session_header() -> (r: &'static str)
    ensures
        r@ == "["@,
{
    "["
}

/// The text appended for one record: its JSON text and a comma.
pub fn record_chunk(json: &str) -> (r: String)
    ensures
        r@ == json@ + ","@,
{
    let mut s = String::from_str(json);
    s.append(",");
    s
}

/// The text that closes a session's log: an empty object and `]`, so that
/// the trailing comma of the last record is followed by a value.
pub fn closing_chunk() -> (r: &'static str)
    ensures
        r@ == "{}]"@,
{
    "{}]"
}

/// The records' chunks one after another: each record's text followed by
/// a comma, as `record_chunk` writes them.
pub open spec fn record_chunks(records: Seq<Seq<char>>) -> Seq<char>
    decreases records.len(),
{
    if records.len() == 0 {
        Seq::empty()
    } else {
        record_chunks(records.drop_last()) + records.last() + ","@
    }
}

/// The text of a session's log file after its header, these records and
/// its closing chunk were written, in that order.
pub open spec fn session_log_text(records: Seq<Seq<char>>) -> Seq<char> {
    "["@ + record_chunks(records) + "{}]"@
}

/// Texts joined by a separator.
pub open spec fn join(items: Seq<Seq<char>>, sep: Seq<char>) -> Seq<char>
    decreases items.len(),
{
    if items.len() == 0 {
        Seq::empty()
    } else if items.len() == 1 {
        items[0]
    } else {
        join(items.drop_last(), sep) + sep + items.last()
    }
}

proof fn lemma_chunks_join(records: Seq<Seq<char>>)
    requires
        records.len() > 0,
    ensures
        record_chunks(records.drop_last()) + records.last() == join(records, ","@),
    decreases records.len(),
{
    let init = records.drop_last();
    if init.len() == 0 {
        assert(record_chunks(init) =~= Seq::<char>::empty());
        assert(record_chunks(init) + records.last() =~= records.last());
    } else {
        lemma_chunks_join(init);
        assert(init.drop_last() =~= records.drop_last().drop_last());
        assert(record_chunks(init) =~= record_chunks(init.drop_last()) + init.last() + ","@);
        assert(join(records, ","@) == join(init, ","@) + ","@ + records.last());
        assert(record_chunks(init) + records.last() =~= join(init, ","@) + ","@ + records.last());
    }
}

/// A session's log is a bracketed, comma-separated list of its records
/// followed by an empty object: after the header, records r1..rn and the
/// closing chunk, the file holds `[r1,...,rn,{}]`.
pub proof fn law_session_log(records: Seq<Seq<char>>)
    ensures
        session_log_text(records) == "["@ + join(records.push("{}"@), ","@) + "]"@,
{
    reveal_strlit("{}]");
    reveal_strlit("{}");
    reveal_strlit("]");
    let all = records.push("{}"@);
    lemma_chunks_join(all);
    assert(all.drop_last() =~= records);
    assert("{}]"@ =~= "{}"@ + "]"@);
    assert(session_log_text(records) =~= "["@ + (record_chunks(records) + "{}"@) + "]"@);
}

/// An input event delivered to the server side of the tracer, with the
/// texts the transport renders for it.
pub enum TracedInput {
    /// A mouse event: its mask, position, and its modifiers as rendered.
    Mouse { mask: i32, x: i32, y: i32, modifiers: String },
    /// A key event: the key event and its modifiers as rendered.
    Key { text: String, modifiers: String },
    /// Any other input.
    Other,
}

/// What is saved for one traced input.
pub struct SaveRequest {
    pub x: i32,
    pub y: i32,
    pub event: String,
    pub modifiers: String,
}

/// Decides what to save for a traced input: for a mouse event, its own
/// position and the quoted name of the event its mask stands for; for a
/// key event, the last known pointer position and the key's text; nothing
/// for other input.
pub fn handle_event(input: TracedInput, mouse_pos: (i32, i32)) -> (r: Option<SaveRequest>)
    ensures
        match input {
            TracedInput::Mouse { mask, x, y, modifiers } => r matches Some(q) && q.x == x && q.y
                == y && q.event@ == seq!['"'] + spec_mouse_event(mask as int).spec_name() + seq![
                '"'] && q.modifiers@ == modifiers@,
            TracedInput::Key { text, modifiers } => r matches Some(q) && q.x == mouse_pos.0 && q.y
                == mouse_pos.1 && q.event@ == text@ && q.modifiers@ == modifiers@,
            TracedInput::Other => r is None,
        },
{
    match input {
        TracedInput::Mouse { mask, x, y, modifiers } => {
            let event = get_mouse_event_from_mask(mask);
            Some(SaveRequest { x, y, event: event.to_string(), modifiers })
        },
        TracedInput::Key { text, modifiers } => Some(
            SaveRequest { x: mouse_pos.0, y: mouse_pos.1, event: text, modifiers },
        ),
        TracedInput::Other => None,
    }
}

/// What saving a traced input does to the session's log.
#[derive(Clone, Copy, Debug, PartialEq, Eq, Structural)]
pub enum SavePlan {
    /// The end-of-session mark: the log is closed.
    CloseLog,
    /// A record is appended; a screenshot is saved with it when `capture`.
    Record { capture: bool },
}

/// The plan for saving an input at x coordinate `x` with event text `event`.
pub open spec fn spec_plan_save(x: i32, event: Seq<char>) -> SavePlan {
    if x == STOP_MARK_X {
        SavePlan::CloseLog
    } else {
        SavePlan::Record { capture: !spec_contains(event, "down"@) }
    }
}

/// Decides how an input is saved: the end-of-session mark (x = -123)
/// closes the log; anything else appends a record, with a screenshot
/// unless the event text contains `down`.
pub fn plan_save(x: i32, event: &str) -> (r: SavePlan)
    ensures
        r == spec_plan_save(x, event@),
{
    if x == STOP_MARK_X {
        SavePlan::CloseLog
    } else {
        SavePlan::Record { capture: !str_contains(event, "down") }
    }
}

/// One record of a session's log.
pub struct EventRecord {
    pub timestamp: u128,
    pub process_path: String,
    pub title: String,
    pub class_name: String,
    pub window_left: i32,
    pub window_top: i32,
    pub window_right: i32,
    pub window_bottom: i32,
    pub event: String,
    pub mouse_x_pos: i32,
    pub mouse_y_pos: i32,
    pub modifiers: String,
}

impl EventRecord {
    /// Assembles the record of a saved input from the focused window's
    /// process path, title, class name and rectangle.
    pub fn new(
        timestamp: u128,
        process_path: String,
        title: String,
        class_name: String,
        rect: RECT,
        request: SaveRequest,
    ) -> (r: EventRecord)
        ensures
            r.timestamp == timestamp,
            r.process_path == process_path,
            r.title == title,
            r.class_name == class_name,
            r.window_left == rect.left,
            r.window_top == rect.top,
            r.window_right == rect.right,
            r.window_bottom == rect.bottom,
            r.event == request.event,
            r.mouse_x_pos == request.x,
            r.mouse_y_pos == request.y,
            r.modifiers == request.modifiers,
    {
        EventRecord {
            timestamp,
            process_path,
            title,
            class_name,
            window_left: rect.left,
            window_top: rect.top,
            window_right: rect.right,
            window_bottom: rect.bottom,
            event: request.event,
            mouse_x_pos: request.x,
            mouse_y_pos: request.y,
            modifiers: request.modifiers,
        }
    }
}

proof fn lemma_no_d(hay: Seq<char>)
    requires
        forall|j: int| 0 <= j < hay.len() ==> hay[j] != 'd',
    ensures
        !spec_contains(hay, "down"@),
{
    reveal_strlit("down");
    if spec_contains(hay, "down"@) {
        let i = choose|i: int|
            0 <= i && i + 4 <= hay.len() && #[trigger] hay.subrange(i, i + 4) == "down"@;
        assert(hay.subrange(i, i + 4)[0] == 'd');
    }
}

/// The end-of-session mark that `stop_log` sends (x = -123) closes the log,
/// whatever its event text; an input at any other x appends a record.
pub proof fn law_stop_mark_closes_log(x: i32, event: Seq<char>)
    ensures
        spec_plan_save(STOP_MARK_X, event) == SavePlan::CloseLog,
        x != STOP_MARK_X ==> spec_plan_save(x, event) is Record,
{
}

/// Every mouse event of a session is saved with a screenshot: the logged
/// text of a mouse event is its upper-case name in quotes, which never
/// contains `down`.
pub proof fn law_mouse_events_captured(x: i32, mask: int)
    requires
        x != STOP_MARK_X,
    ensures
        spec_plan_save(x, seq!['"'] + spec_mouse_event(mask).spec_name() + seq!['"'])
            == (SavePlan::Record { capture: true }),
{
    let e = spec_mouse_event(mask);
    let t = seq!['"'] + e.spec_name() + seq!['"'];
    reveal_strlit("LB_DOWN");
    reveal_strlit("LB_UP");
    reveal_strlit("RB_DOWN");
    reveal_strlit("RB_UP");
    reveal_strlit("MID_DOWN");
    reveal_strlit("MID_UP");
    reveal_strlit("SCROLL");
    reveal_strlit("UNDEFINED");
    assert forall|j: int| 0 <= j < t.len() implies t[j] != 'd' by {
        if 0 < j < t.len() - 1 {
            assert(t[j] == e.spec_name()[j - 1]);
        }
    }
    lemma_no_d(t);
}

} // verus!
