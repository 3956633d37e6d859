use vstd::prelude::*;
use crate::bot::{
    is_processing_request,
    msgbox,
    processing_request,
    LocalIdentity,
    peer_info_len,
    peer_info_ok,
    restart_prefix,
    shows_box,
    Bot,
    BotAction,
    DisplayInfo,
    MsgBox,
    PeerInfo,
    PermissionName,
};
use crate::text::str_starts_with;

verus! {

/// The video codec of a frame.
#[derive(Clone, Copy, Debug, PartialEq, Eq, Structural)]
pub enum CodecFormat {
    Unknown,
    VP8,
    VP9,
    AV1,
    H264,
    H265,
}

/// The peer's report on blocking the user's input.
#[derive(Clone, Copy, Debug, PartialEq, Eq, Structural)]
pub enum BlockInputState {
    BlkStateUnknown,
    BlkOnSucceeded,
    BlkOnFailed,
    BlkOffSucceeded,
    BlkOffFailed,
}

/// The peer's report on privacy mode.
#[derive(Clone, Copy, Debug, PartialEq, Eq, Structural)]
pub enum PrivacyModeState {
    PrvStateUnknown,
    PrvOnByOther,
    PrvNotSupported,
    PrvOnSucceeded,
    PrvOnFailedDenied,
    PrvOnFailedPlugin,
    PrvOnFailed,
    PrvOffSucceeded,
    PrvOffByPeer,
    PrvOffFailed,
    PrvOffUnknown,
}

/// A notification sent back by the peer.
#[derive(Clone, Copy, Debug, PartialEq, Eq, Structural)]
pub enum BackNotification {
    BlockInput(BlockInputState),
    PrivacyMode(PrivacyModeState),
    Other,
}

/// A miscellaneous message from the peer.
pub enum MiscMessage {
    AudioFormat,
    ChatMessage,
    PermissionInfo { permission: PermissionName, enabled: bool },
    SwitchDisplay(DisplayInfo),
    CloseReason(String),
    BackNotification(BackNotification),
    Uac(bool),
    ForegroundWindowElevated(bool),
    Other,
}

/// A message from the peer, as far as the session reads it.
pub enum LocalMessage {
    /// The peer's hash; `local` is the local identity the host reports
    /// when it arrives.
    Hash { local: LocalIdentity },
    VideoFrame(CodecFormat),
    LoginError,
    /// A successful login with the peer's description; `min_restart_version`
    /// is the oldest version that may be asked to restart.
    PeerInfo { info: PeerInfo, min_restart_version: i64 },
    CursorData,
    CursorId,
    CursorPosition,
    Clipboard,
    Cliprdr,
    Misc(MiscMessage),
    TestDelay { from_client: bool },
    AudioFrame,
    /// A message box the peer asks to show; `helper_link` is the helper
    /// page known under the box's link, if any.
    MessageBox { msgtype: String, title: String, text: String, link: String, helper_link: Option<String> },
    Other,
}

/// A message from the user interface.
pub enum UiData {
    Close,
    Login,
    ToggleClipboardFile,
    Message,
    RecordScreen,
    Other,
}

/// What wakes the session's loop.
pub enum LoopEvent {
    /// A message from the peer.
    FromPeer(LocalMessage),
    /// The peer's stream ended.
    PeerClosed,
    /// A message from the user interface.
    FromUi(UiData),
    /// The user interface's channel is closed.
    UiClosed,
    /// A local clipboard-file message.
    ClipboardFile,
    /// The connection timer fired; the peer has been silent this long.
    TimerTick { silent_ms: u64 },
    /// The status timer fired: the byte counter is reset.
    StatusTick,
}

/// The loop events that end a session: the peer's stream ending, a
/// silence of 30 seconds, the user interface closing the session, the peer
/// giving a close reason, and someone else turning privacy mode on.
pub open spec fn ends_session(ev: &LoopEvent) -> bool {
    match ev {
        LoopEvent::PeerClosed => true,
        LoopEvent::TimerTick { silent_ms } => *silent_ms >= SEC30_MS,
        LoopEvent::FromUi(UiData::Close) => true,
        LoopEvent::FromPeer(LocalMessage::Misc(MiscMessage::CloseReason(_))) => true,
        LoopEvent::FromPeer(
            LocalMessage::Misc(
                MiscMessage::BackNotification(
                    BackNotification::PrivacyMode(PrivacyModeState::PrvOnByOther),
                ),
            ),
        ) => true,
        _ => false,
    }
}

/// The outcome of handling one message: whether the session goes on, and
/// the work it asks for, in order.
pub struct Step {
    pub keep_running: bool,
    pub actions: Vec<BotAction>,
}

/// A recorded step of a macro.
pub struct StepEvent {
    pub time_ms: u64,
    pub screen: Vec<u8>,
    pub mouse_pos: (u8, u8),
    pub window_title: String,
    pub window_class: String,
    pub window_rect: Rect,
}

/// A rectangle in byte coordinates.
#[derive(Clone, Copy, Debug, PartialEq, Eq, Structural)]
pub struct Rect {
    pub x0: u8,
    pub y0: u8,
    pub x1: u8,
    pub y1: u8,
}

impl Default for Rect {
    fn default() -> (r: Rect)
        ensures
            r == (Rect { x0: 0, y0: 0, x1: 0, y1: 0 }),
    {
        Rect { x0: 0, y0: 0, x1: 0, y1: 0 }
    }
}

/// How the bot follows the user.
#[derive(Clone, Copy, Debug, PartialEq, Eq, Structural)]
pub enum BotSync {
    Sync,
    Forward,
}

impl Default for BotSync {
    fn default() -> (r: BotSync)
        ensures
            r == BotSync::Forward,
    {
        BotSync::Forward
    }
}

/// The interval after which a silent peer is given up, in milliseconds.
pub const SEC30_MS: u64 = 30000;

/// The observable state of a macro session.
pub struct MacroState {
    pub first_frame: bool,
    pub video_format: CodecFormat,
    pub recording_macro: bool,
    pub enable_mouse_macro: bool,
    pub enable_kb_macro: bool,
    pub steps: Seq<StepEvent>,
    pub clipboard: Seq<char>,
    pub data_count: u64,
}

/// The state after starting or stopping a macro recording: a running
/// recording stops; otherwise both macros are enabled and a new, empty
/// recording starts. Stopping keeps the recorded steps.
pub open spec fn spec_start_stop(s: MacroState) -> MacroState {
    if s.recording_macro {
        MacroState { recording_macro: false, ..s }
    } else {
        MacroState {
            enable_mouse_macro: true,
            enable_kb_macro: true,
            steps: Seq::empty(),
            recording_macro: true,
            ..s
        }
    }
}

/// Starting and then stopping a recording leaves no recording running,
/// both macros enabled and no step recorded; the rest of the state stays.
pub proof fn law_start_then_stop(s: MacroState)
    requires
        !s.recording_macro,
    ensures
        !spec_start_stop(spec_start_stop(s)).recording_macro,
        spec_start_stop(spec_start_stop(s)).enable_mouse_macro,
        spec_start_stop(spec_start_stop(s)).enable_kb_macro,
        spec_start_stop(spec_start_stop(s)).steps.len() == 0,
        spec_start_stop(spec_start_stop(s)).clipboard == s.clipboard,
        spec_start_stop(spec_start_stop(s)).first_frame == s.first_frame,
        spec_start_stop(spec_start_stop(s)).video_format == s.video_format,
{
}

/// The message box shown for a block-input report, by title; its type is
/// `custom-error` and its text `Failed`.
pub open spec fn block_input_box(s: BlockInputState) -> Option<Seq<char>> {
    match s {
        BlockInputState::BlkOnFailed => Some("Block user input"@),
        BlockInputState::BlkOffFailed => Some("Unblock user input"@),
        _ => None,
    }
}

/// The block-input state stored for a block-input report.
pub open spec fn block_input_store(s: BlockInputState) -> Option<bool> {
    match s {
        BlockInputState::BlkOnSucceeded => Some(true),
        BlockInputState::BlkOnFailed => Some(false),
        BlockInputState::BlkOffSucceeded => Some(false),
        _ => None,
    }
}

/// The message box (type, title, text) shown for a privacy-mode report.
pub open spec fn privacy_box(s: PrivacyModeState) -> Option<(Seq<char>, Seq<char>, Seq<char>)> {
    match s {
        PrivacyModeState::PrvOnByOther => Some(
            ("error"@, "Connecting..."@, "Someone turns on privacy mode, exit"@),
        ),
        PrivacyModeState::PrvNotSupported => Some(
            ("custom-error"@, "Privacy mode"@, "Unsupported"@),
        ),
        PrivacyModeState::PrvOnSucceeded => Some(
            ("custom-nocancel"@, "Privacy mode"@, "In privacy mode"@),
        ),
        PrivacyModeState::PrvOnFailedDenied => Some(
            ("custom-error"@, "Privacy mode"@, "Peer denied"@),
        ),
        PrivacyModeState::PrvOnFailedPlugin => Some(
            ("custom-error"@, "Privacy mode"@, "Please install plugins"@),
        ),
        PrivacyModeState::PrvOnFailed => Some(("custom-error"@, "Privacy mode"@, "Failed"@)),
        PrivacyModeState::PrvOffSucceeded => Some(
            ("custom-nocancel"@, "Privacy mode"@, "Out privacy mode"@),
        ),
        PrivacyModeState::PrvOffByPeer => Some(("custom-error"@, "Privacy mode"@, "Peer exit"@)),
        PrivacyModeState::PrvOffFailed => Some(
            ("custom-error"@, "Privacy mode"@, "Failed to turn off"@),
        ),
        PrivacyModeState::PrvOffUnknown => Some(("custom-error"@, "Privacy mode"@, "Turned off"@)),
        _ => None,
    }
}

/// The privacy-mode setting stored for a privacy-mode report.
pub open spec fn privacy_store(s: PrivacyModeState) -> Option<bool> {
    match s {
        PrivacyModeState::PrvNotSupported => Some(false),
        PrivacyModeState::PrvOnSucceeded => Some(true),
        PrivacyModeState::PrvOnFailedDenied => Some(false),
        PrivacyModeState::PrvOnFailedPlugin => Some(false),
        PrivacyModeState::PrvOnFailed => Some(false),
        PrivacyModeState::PrvOffSucceeded => Some(false),
        PrivacyModeState::PrvOffByPeer => Some(false),
        PrivacyModeState::PrvOffUnknown => Some(false),
        _ => None,
    }
}

/// The number of actions an optional action contributes.
pub open spec fn count<T>(o: Option<T>) -> int {
    if o is Some {
        1
    } else {
        0
    }
}

/// The actions are: the box `(msgtype, title, text)` with an empty link
/// when there is one, then the stored value when there is one.
pub open spec fn box_then_store(
    actions: Seq<BotAction>,
    shown: Option<(Seq<char>, Seq<char>, Seq<char>)>,
    store: Option<bool>,
    is_privacy: bool,
) -> bool {
    &&& actions.len() == count(shown) + count(store)
    &&& shown matches Some(b) ==> shows_box(actions[0], b.0, b.1, b.2, ""@)
    &&& store matches Some(v) ==> actions[actions.len() - 1] == (if is_privacy {
        BotAction::StorePrivacyMode(v)
    } else {
        BotAction::StoreBlockInputState(v)
    })
}

fn show_then_store(shown: Option<MsgBox>, store: Option<bool>, is_privacy: bool) -> (r: Vec<BotAction>)
    ensures
        r@.len() == count(shown) + count(store),
        shown matches Some(m) ==> r@[0] == BotAction::ShowMsgBox(m),
        store matches Some(v) ==> r@[r@.len() - 1] == (if is_privacy {
            BotAction::StorePrivacyMode(v)
        } else {
            BotAction::StoreBlockInputState(v)
        }),
{
    let mut r: Vec<BotAction> = Vec::new();
    match shown {
        Some(m) => r.push(BotAction::ShowMsgBox(m)),
        None => {},
    }
    match store {
        Some(v) => {
            if is_privacy {
                r.push(BotAction::StorePrivacyMode(v));
            } else {
                r.push(BotAction::StoreBlockInputState(v));
            }
        },
        None => {},
    }
    r
}

/// The actions for a block-input report: a failure is reported in a box;
/// the state is stored as on after a successful block, as off after a
/// failed block or a successful unblock.
pub fn handle_back_msg_block_input(state: BlockInputState) -> (r: Vec<BotAction>)
    ensures
        box_then_store(
            r@,
            match block_input_box(state) {
                Some(t) => Some(("custom-error"@, t, "Failed"@)),
                None => None,
            },
            block_input_store(state),
            false,
        ),
{
    match state {
        BlockInputState::BlkOnSucceeded => show_then_store(None, Some(true), false),
        BlockInputState::BlkOnFailed => show_then_store(
            Some(msgbox("custom-error", "Block user input", "Failed", "")),
            Some(false),
            false,
        ),
        BlockInputState::BlkOffSucceeded => show_then_store(None, Some(false), false),
        BlockInputState::BlkOffFailed => show_then_store(
            Some(msgbox("custom-error", "Unblock user input", "Failed", "")),
            None,
            false,
        ),
        _ => show_then_store(None, None, false),
    }
}

/// The actions for a privacy-mode report, and whether the session goes
/// on: it ends when someone else turned privacy mode on.
pub fn handle_back_msg_privacy_mode(state: PrivacyModeState) -> (r: Step)
    ensures
        r.keep_running == (state != PrivacyModeState::PrvOnByOther),
        box_then_store(r.actions@, privacy_box(state), privacy_store(state), true),
{
    let (keep_running, actions) = match state {
        PrivacyModeState::PrvOnByOther => (
            false,
            show_then_store(
                Some(msgbox("error", "Connecting...", "Someone turns on privacy mode, exit", "")),
                None,
                true,
            ),
        ),
        PrivacyModeState::PrvNotSupported => (
            true,
            show_then_store(
                Some(msgbox("custom-error", "Privacy mode", "Unsupported", "")),
                Some(false),
                true,
            ),
        ),
        PrivacyModeState::PrvOnSucceeded => (
            true,
            show_then_store(
                Some(msgbox("custom-nocancel", "Privacy mode", "In privacy mode", "")),
                Some(true),
                true,
            ),
        ),
        PrivacyModeState::PrvOnFailedDenied => (
            true,
            show_then_store(
                Some(msgbox("custom-error", "Privacy mode", "Peer denied", "")),
                Some(false),
                true,
            ),
        ),
        PrivacyModeState::PrvOnFailedPlugin => (
            true,
            show_then_store(
                Some(msgbox("custom-error", "Privacy mode", "Please install plugins", "")),
                Some(false),
                true,
            ),
        ),
        PrivacyModeState::PrvOnFailed => (
            true,
            show_then_store(
                Some(msgbox("custom-error", "Privacy mode", "Failed", "")),
                Some(false),
                true,
            ),
        ),
        PrivacyModeState::PrvOffSucceeded => (
            true,
            show_then_store(
                Some(msgbox("custom-nocancel", "Privacy mode", "Out privacy mode", "")),
                Some(false),
                true,
            ),
        ),
        PrivacyModeState::PrvOffByPeer => (
            true,
            show_then_store(
                Some(msgbox("custom-error", "Privacy mode", "Peer exit", "")),
                Some(false),
                true,
            ),
        ),
        PrivacyModeState::PrvOffFailed => (
            true,
            show_then_store(
                Some(msgbox("custom-error", "Privacy mode", "Failed to turn off", "")),
                None,
                true,
            ),
        ),
        PrivacyModeState::PrvOffUnknown => (
            true,
            show_then_store(
                Some(msgbox("custom-error", "Privacy mode", "Turned off", "")),
                Some(false),
                true,
            ),
        ),
        _ => (true, show_then_store(None, None, true)),
    };
    Step { keep_running, actions }
}

/// The outcome of a notification sent back by the peer: a block-input
/// report never ends the session; a privacy-mode report ends it only when
/// someone else turned privacy mode on; other notifications do nothing.
pub open spec fn back_notification_ok(
    notification: BackNotification,
    keep_running: bool,
    actions: Seq<BotAction>,
) -> bool {
    match notification {
        BackNotification::BlockInput(s) => keep_running && box_then_store(
            actions,
            match block_input_box(s) {
                Some(t) => Some(("custom-error"@, t, "Failed"@)),
                None => None,
            },
            block_input_store(s),
            false,
        ),
        BackNotification::PrivacyMode(s) => keep_running == (s != PrivacyModeState::PrvOnByOther)
            && box_then_store(actions, privacy_box(s), privacy_store(s), true),
        BackNotification::Other => keep_running && actions.len() == 0,
    }
}

/// The actions for a notification sent back by the peer, and whether the
/// session goes on.
pub fn handle_back_notification(notification: BackNotification) -> (r: Step)
    ensures
        back_notification_ok(notification, r.keep_running, r.actions@),
{
    match notification {
        BackNotification::BlockInput(s) => Step {
            keep_running: true,
            actions: handle_back_msg_block_input(s),
        },
        BackNotification::PrivacyMode(s) => handle_back_msg_privacy_mode(s),
        BackNotification::Other => Step { keep_running: true, actions: Vec::new() },
    }
}

/// A list of one action.
pub fn single(a: BotAction) -> (r: Vec<BotAction>)
    ensures
        r@ == seq![a],
{
    let mut r: Vec<BotAction> = Vec::new();
    r.push(a);
    assert(r@ =~= seq![a]);
    r
}

/// The tag of a message box: its four texts joined by `-`.
pub open spec fn spec_msgbox_tag(
    msgtype: Seq<char>,
    title: Seq<char>,
    text: Seq<char>,
    link: Seq<char>,
) -> Seq<char> {
    msgtype + "-"@ + title + "-"@ + text + "-"@ + link
}

fn msgbox_tag(msgtype: &str, title: &str, text: &str, link: &str) -> (r: String)
    ensures
        r@ == spec_msgbox_tag(msgtype@, title@, text@, link@),
{
    let mut s = String::from_str(msgtype);
    s.append("-");
    s.append(title);
    s.append("-");
    s.append(text);
    s.append("-");
    s.append(link);
    s
}

/// A prompt that is shown while `on` and cancelled by its tag otherwise.
pub open spec fn prompt_ok(
    on: bool,
    actions: Seq<BotAction>,
    msgtype: Seq<char>,
    title: Seq<char>,
    text: Seq<char>,
) -> bool {
    &&& actions.len() == 1
    &&& on ==> shows_box(actions[0], msgtype, title, text, ""@)
    &&& !on ==> (actions[0] matches BotAction::CancelMsgBox(tag) && tag@ == spec_msgbox_tag(
        msgtype,
        title,
        text,
        ""@,
    ))
}

fn prompt(on: bool, msgtype: &str, title: &str, text: &str) -> (r: Vec<BotAction>)
    ensures
        prompt_ok(on, r@, msgtype@, title@, text@),
{
    let mut r: Vec<BotAction> = Vec::new();
    if on {
        r.push(BotAction::ShowMsgBox(msgbox(msgtype, title, text, "")));
    } else {
        r.push(BotAction::CancelMsgBox(msgbox_tag(msgtype, title, text, "")));
        proof {
            reveal_strlit("");
        }
    }
    r
}

/// The link shown with a message box from the peer: a `rustdesk://` link
/// as it is, another link replaced by the helper page known under it, or
/// by nothing when none is known.
pub open spec fn shown_link(link: Seq<char>, helper: Option<Seq<char>>) -> Seq<char> {
    if "rustdesk://"@.len() <= link.len() && link.subrange(0, "rustdesk://"@.len() as int)
        == "rustdesk://"@ {
        link
    } else {
        match helper {
            Some(h) => h,
            None => ""@,
        }
    }
}

/// The outcome of a miscellaneous message from the peer.
pub open spec fn misc_ok(m: &Macro, misc: MiscMessage, keep_running: bool, actions: Seq<BotAction>) -> bool {
    match misc {
        MiscMessage::AudioFormat => keep_running && actions == seq![BotAction::ForwardAudioFormat],
        MiscMessage::ChatMessage => keep_running && actions.len() == 0,
        MiscMessage::PermissionInfo { permission, enabled } => keep_running && if permission
            == PermissionName::File {
            if !enabled && m.handler.spec_is_file_transfer() {
                actions.len() == 0
            } else {
                actions == seq![
                    BotAction::CheckClipboardFileContext,
                    BotAction::SetPermission { name: PermissionName::File, enabled },
                ]
            }
        } else {
            actions == seq![BotAction::SetPermission { name: permission, enabled }]
        },
        MiscMessage::SwitchDisplay(d) => keep_running && actions == seq![
            BotAction::SwitchDisplay,
            BotAction::ResetVideo,
        ] + if d.width > 0 && d.height > 0 {
            seq![BotAction::SetDisplay(d)]
        } else {
            Seq::empty()
        },
        MiscMessage::CloseReason(c) => !keep_running && actions.len() == 1 && shows_box(
            actions[0],
            "error"@,
            "Connection Error"@,
            c@,
            ""@,
        ),
        MiscMessage::BackNotification(n) => back_notification_ok(n, keep_running, actions),
        MiscMessage::Uac(on) => keep_running && prompt_ok(
            on,
            actions,
            "custom-uac-nocancel"@,
            "Prompt"@,
            "Please wait for confirmation of UAC..."@,
        ),
        MiscMessage::ForegroundWindowElevated(on) => keep_running && prompt_ok(
            on,
            actions,
            "custom-elevated-foreground-nocancel"@,
            "Prompt"@,
            "elevated_foreground_window_tip"@,
        ),
        MiscMessage::Other => keep_running && actions.len() == 0,
    }
}

/// The outcome of a message from the peer, for a session in state
/// `before` that ends in state `after`; a clipboard text of the session is
/// sent to a peer that logs in.
pub open spec fn local_step_ok(
    before: &Macro,
    after: MacroState,
    msg: LocalMessage,
    keep_running: bool,
    actions: Seq<BotAction>,
) -> bool {
    let old_clipboard = before.old_clipboard@;
    match msg {
        LocalMessage::Hash { local } => keep_running && actions.len() == 1 && (actions[0] matches BotAction::SendProcessingRequest(p) && is_processing_request(p, local)),
        LocalMessage::VideoFrame(f) => {
            &&& keep_running
            &&& actions == seq![BotAction::ForwardVideoFrame]
            &&& after == (MacroState {
                first_frame: true,
                video_format: f,
                ..before.state()
            })
        },
        LocalMessage::PeerInfo { info, min_restart_version } => {
            let n = peer_info_len(&info, min_restart_version);
            let clip = !(before.handler.spec_is_file_transfer()
                || before.handler.spec_is_port_forward()) && old_clipboard.len() > 0;
            &&& keep_running
            &&& peer_info_ok(actions.subrange(0, n), &info, min_restart_version)
            &&& actions.len() == (if clip {
                n + 2
            } else {
                n + 1
            })
            &&& actions[n] == BotAction::CheckClipboardFileContext
            &&& clip ==> (actions[n + 1] matches BotAction::SendClipboardLater(t)
                && t@ == old_clipboard)
        },
        LocalMessage::Clipboard => keep_running && actions == seq![
            BotAction::UpdateClipboard,
        ],
        LocalMessage::Misc(m) => misc_ok(before, m, keep_running, actions),
        LocalMessage::TestDelay { from_client } => keep_running && actions == (
        if from_client {
            Seq::<BotAction>::empty()
        } else {
            seq![BotAction::EchoTestDelay]
        }),
        LocalMessage::AudioFrame => keep_running && actions == seq![
            BotAction::ForwardAudioFrame,
        ],
        LocalMessage::MessageBox { msgtype, title, text, link, helper_link } => {
            &&& keep_running
            &&& actions.len() == 1
            &&& shows_box(
                actions[0],
                msgtype@,
                title@,
                text@,
                shown_link(
                    link@,
                    match helper_link {
                        Some(h) => Some(h@),
                        None => None,
                    },
                ),
            )
        },
        _ => keep_running && actions.len() == 0,
    }
}

/// The outcome of a message from the user interface.
pub open spec fn ui_step_ok(data: UiData, keep_running: bool, actions: Seq<BotAction>) -> bool {
    &&& keep_running == !(data is Close)
    &&& actions == match data {
        UiData::ToggleClipboardFile => seq![BotAction::CheckClipboardFileContext],
        UiData::Message => seq![BotAction::ForwardToPeer],
        _ => Seq::<BotAction>::empty(),
    }
}

/// The state of a macro session: the decisions it has made so far.
pub struct Macro {
    /// The session it drives.
    pub handler: Bot,
    pub first_frame: bool,
    pub video_format: CodecFormat,
    pub recording_macro: bool,
    pub enable_mouse_macro: bool,
    pub enable_kb_macro: bool,
    pub step_events: Vec<StepEvent>,
    /// The last clipboard text seen locally.
    pub old_clipboard: String,
    /// Bytes received since the last status report.
    pub data_count: u64,
}

impl Macro {
    /// The observable state.
    pub open spec fn state(&self) -> MacroState {
        MacroState {
            first_frame: self.first_frame,
            video_format: self.video_format,
            recording_macro: self.recording_macro,
            enable_mouse_macro: self.enable_mouse_macro,
            enable_kb_macro: self.enable_kb_macro,
            steps: self.step_events@,
            clipboard: self.old_clipboard@,
            data_count: self.data_count,
        }
    }

    /// A session that has seen no frame, with no macro enabled or recorded,
    /// no clipboard text and no byte counted.
    pub fn new(handler: Bot) -> (r: Macro)
        ensures
            r.handler == handler,
            r.state() == (MacroState {
                first_frame: false,
                video_format: CodecFormat::Unknown,
                recording_macro: false,
                enable_mouse_macro: false,
                enable_kb_macro: false,
                steps: Seq::empty(),
                clipboard: Seq::empty(),
                data_count: 0,
            }),
    {
        Macro {
            handler,
            first_frame: false,
            video_format: CodecFormat::Unknown,
            recording_macro: false,
            enable_mouse_macro: false,
            enable_kb_macro: false,
            step_events: Vec::new(),
            old_clipboard: String::new(),
            data_count: 0,
        }
    }

    /// Starts or stops recording a macro.
    pub fn macro_start_stop(&mut self)
        ensures
            final(self).handler == old(self).handler,
            final(self).state() == spec_start_stop(old(self).state()),
    {
        if self.recording_macro {
            self.recording_macro = false;
        } else {
            self.enable_mouse_macro = true;
            self.enable_kb_macro = true;
            self.step_events = Vec::new();
            self.recording_macro = true;
        }
    }

    /// Records the clipboard text last seen locally.
    pub fn set_old_clipboard(&mut self, text: String)
        ensures
            final(self).handler == old(self).handler,
            final(self).state() == (MacroState { clipboard: text@, ..old(self).state() }),
    {
        self.old_clipboard = text;
    }

    /// Whether the clipboard service starts: not for file transfers or
    /// port forwarding.
    pub fn start_clipboard(&self) -> (r: bool)
        ensures
            r == !(self.handler.spec_is_file_transfer() || self.handler.spec_is_port_forward()),
    {
        !(self.handler.is_file_transfer() || self.handler.is_port_forward())
    }

    /// The message box shown when the peer's stream ends; the session ends.
    pub fn on_peer_closed(&self) -> (r: MsgBox)
        ensures
            r.shows("error"@, "Connection Error"@, "Reset by the peer"@, ""@),
    {
        if self.handler.is_restarting_remote_device() {
            msgbox("restarting", "Restarting Remote Device", "remote_restarting_tip", "")
        } else {
            msgbox("error", "Connection Error", "Reset by the peer", "")
        }
    }

    /// On the connection timer: a peer silent for 30 seconds or more is
    /// given up with a `Timeout` box and the session ends; otherwise the
    /// timer is rearmed.
    pub fn on_timer_tick(&self, silent_ms: u64) -> (r: Option<MsgBox>)
        ensures
            silent_ms >= SEC30_MS <==> r is Some,
            r matches Some(m) ==> m.shows("error"@, "Connection Error"@, "Timeout"@, ""@),
    {
        if silent_ms >= SEC30_MS {
            Some(msgbox("error", "Connection Error", "Timeout", ""))
        } else {
            None
        }
    }

    /// Handles a message from the peer: says whether the session goes on
    /// and what work it asks for. A video frame marks the first frame seen
    /// and records the frame's codec; nothing else changes the state.
    pub fn handle_msg_from_local(&mut self, msg: LocalMessage) -> (r: Step)
        requires
            msg matches LocalMessage::PeerInfo { info, .. } ==> (info.displays@.len() > 0
                ==> 0 <= info.current_display < info.displays@.len()),
        ensures
            final(self).handler == old(self).handler,
            !(msg is VideoFrame) ==> final(self).state() == old(self).state(),
            local_step_ok(old(self), final(self).state(), msg, r.keep_running, r.actions@),
    {
        match msg {
            LocalMessage::Hash { local } => Step {
                keep_running: true,
                actions: single(BotAction::SendProcessingRequest(processing_request(local))),
            },
            LocalMessage::VideoFrame(incoming_format) => {
                if !self.first_frame {
                    self.first_frame = true;
                }
                if self.video_format != incoming_format {
                    self.video_format = incoming_format;
                }
                Step { keep_running: true, actions: single(BotAction::ForwardVideoFrame) }
            },
            LocalMessage::PeerInfo { info, min_restart_version } => {
                let mut actions = self.handler.handle_peer_info(&info, min_restart_version);
                let ghost peer = actions@;
                actions.push(BotAction::CheckClipboardFileContext);
                if !(self.handler.is_file_transfer() || self.handler.is_port_forward()) {
                    if self.old_clipboard.as_str().unicode_len() > 0 {
                        actions.push(BotAction::SendClipboardLater(self.old_clipboard.clone()));
                    }
                }
                assert(actions@.subrange(0, peer.len() as int) =~= peer);
                Step { keep_running: true, actions }
            },
            LocalMessage::Clipboard => Step {
                keep_running: true,
                actions: single(BotAction::UpdateClipboard),
            },
            LocalMessage::Misc(m) => self.handle_misc(m),
            LocalMessage::TestDelay { from_client } => {
                let mut actions: Vec<BotAction> = Vec::new();
                match self.handler.handle_test_delay(from_client) {
                    Some(a) => actions.push(a),
                    None => {},
                }
                assert(actions@ =~= (if from_client {
                    Seq::<BotAction>::empty()
                } else {
                    seq![BotAction::EchoTestDelay]
                }));
                Step { keep_running: true, actions }
            },
            LocalMessage::AudioFrame => Step {
                keep_running: true,
                actions: single(BotAction::ForwardAudioFrame),
            },
            LocalMessage::MessageBox { msgtype, title, text, link, helper_link } => {
                let ghost helper_view: Option<Seq<char>> = match &helper_link {
                    Some(h) => Some(h@),
                    None => None,
                };
                let ghost link_view = link@;
                let keep = str_starts_with(link.as_str(), "rustdesk://");
                let shown = if !keep {
                    match helper_link {
                        Some(v) => v,
                        None => String::new(),
                    }
                } else {
                    link
                };
                proof {
                    reveal_strlit("");
                    assert(shown@ == shown_link(link_view, helper_view));
                }
                let b = MsgBox { msgtype, title, text, link: shown };
                Step { keep_running: true, actions: single(BotAction::ShowMsgBox(b)) }
            },
            _ => Step { keep_running: true, actions: Vec::new() },
        }
    }

    /// Handles a message from the user interface: `Close` ends the
    /// session, a message is passed on to the peer, a clipboard-file toggle
    /// re-checks the clipboard file context; the rest does nothing.
    pub fn handle_msg_from_ui(&mut self, data: UiData) -> (r: Step)
        ensures
            final(self).handler == old(self).handler,
            final(self).state() == old(self).state(),
            ui_step_ok(data, r.keep_running, r.actions@),
    {
        match data {
            UiData::Close => Step { keep_running: false, actions: Vec::new() },
            UiData::ToggleClipboardFile => Step {
                keep_running: true,
                actions: single(BotAction::CheckClipboardFileContext),
            },
            UiData::Message => Step { keep_running: true, actions: single(BotAction::ForwardToPeer) },
            _ => Step { keep_running: true, actions: Vec::new() },
        }
    }

    /// One turn of the session's loop.
    pub fn io_step(&mut self, ev: LoopEvent) -> (r: Step)
        requires
            ev matches LoopEvent::FromPeer(LocalMessage::PeerInfo { info, .. }) ==> (
            info.displays@.len() > 0 ==> 0 <= info.current_display < info.displays@.len()),
        ensures
            r.keep_running == !ends_session(&ev),
            final(self).handler == old(self).handler,
            !(ev matches LoopEvent::FromPeer(LocalMessage::VideoFrame(_))) && !(ev is StatusTick)
                ==> final(self).state() == old(self).state(),
            ev is StatusTick ==> final(self).state() == (MacroState {
                data_count: 0,
                ..old(self).state()
            }),
            match ev {
                LoopEvent::PeerClosed => !r.keep_running && r.actions@.len() == 1 && shows_box(
                    r.actions@[0],
                    "error"@,
                    "Connection Error"@,
                    "Reset by the peer"@,
                    ""@,
                ),
                LoopEvent::UiClosed => r.keep_running && r.actions@.len() == 0,
                LoopEvent::ClipboardFile => r.keep_running && r.actions@ == seq![
                    BotAction::ForwardClipboardFile,
                ],
                LoopEvent::TimerTick { silent_ms } => if silent_ms >= SEC30_MS {
                    !r.keep_running && r.actions@.len() == 1 && shows_box(
                        r.actions@[0],
                        "error"@,
                        "Connection Error"@,
                        "Timeout"@,
                        ""@,
                    )
                } else {
                    r.keep_running && r.actions@ == seq![BotAction::RearmTimer]
                },
                LoopEvent::StatusTick => r.keep_running && r.actions@.len() == 0,
                LoopEvent::FromPeer(msg) => local_step_ok(
                    old(self),
                    final(self).state(),
                    msg,
                    r.keep_running,
                    r.actions@,
                ),
                LoopEvent::FromUi(data) => ui_step_ok(data, r.keep_running, r.actions@),
            },
    {
        match ev {
            LoopEvent::FromPeer(msg) => self.handle_msg_from_local(msg),
            LoopEvent::PeerClosed => {
                let b = self.on_peer_closed();
                Step { keep_running: false, actions: single(BotAction::ShowMsgBox(b)) }
            },
            LoopEvent::FromUi(data) => self.handle_msg_from_ui(data),
            LoopEvent::UiClosed => Step { keep_running: true, actions: Vec::new() },
            LoopEvent::ClipboardFile => Step {
                keep_running: true,
                actions: single(BotAction::ForwardClipboardFile),
            },
            LoopEvent::TimerTick { silent_ms } => match self.on_timer_tick(silent_ms) {
                Some(b) => Step { keep_running: false, actions: single(BotAction::ShowMsgBox(b)) },
                None => Step { keep_running: true, actions: single(BotAction::RearmTimer) },
            },
            LoopEvent::StatusTick => {
                self.data_count = 0;
                Step { keep_running: true, actions: Vec::new() }
            },
        }
    }

    fn handle_misc(&mut self, misc: MiscMessage) -> (r: Step)
        ensures
            final(self).handler == old(self).handler,
            final(self).state() == old(self).state(),
            misc_ok(old(self), misc, r.keep_running, r.actions@),
    {
        match misc {
            MiscMessage::AudioFormat => Step {
                keep_running: true,
                actions: single(BotAction::ForwardAudioFormat),
            },
            MiscMessage::ChatMessage => Step { keep_running: true, actions: Vec::new() },
            MiscMessage::PermissionInfo { permission, enabled } => {
                let mut actions: Vec<BotAction> = Vec::new();
                match permission {
                    PermissionName::File => {
                        if !enabled && self.handler.is_file_transfer() {
                            return Step { keep_running: true, actions };
                        }
                        actions.push(BotAction::CheckClipboardFileContext);
                        actions.push(BotAction::SetPermission { name: PermissionName::File, enabled });
                        assert(actions@ =~= seq![
                            BotAction::CheckClipboardFileContext,
                            BotAction::SetPermission { name: PermissionName::File, enabled },
                        ]);
                    },
                    _ => {
                        actions.push(BotAction::SetPermission { name: permission, enabled });
                        assert(actions@ =~= seq![BotAction::SetPermission { name: permission, enabled }]);
                    },
                }
                assert(misc_ok(old(self), misc, true, actions@));
                Step { keep_running: true, actions }
            },
            MiscMessage::SwitchDisplay(d) => {
                let mut actions: Vec<BotAction> = Vec::new();
                actions.push(BotAction::SwitchDisplay);
                actions.push(BotAction::ResetVideo);
                if d.width > 0 && d.height > 0 {
                    actions.push(BotAction::SetDisplay(d));
                    assert(actions@ =~= seq![BotAction::SwitchDisplay, BotAction::ResetVideo]
                        + seq![BotAction::SetDisplay(d)]);
                } else {
                    assert(actions@ =~= seq![BotAction::SwitchDisplay, BotAction::ResetVideo]
                        + Seq::<BotAction>::empty());
                }
                assert(misc_ok(old(self), misc, true, actions@));
                Step { keep_running: true, actions }
            },
            MiscMessage::CloseReason(c) => {
                let b = msgbox("error", "Connection Error", c.as_str(), "");
                Step { keep_running: false, actions: single(BotAction::ShowMsgBox(b)) }
            },
            MiscMessage::BackNotification(n) => handle_back_notification(n),
            MiscMessage::Uac(on) => Step {
                keep_running: true,
                actions: prompt(
                    on,
                    "custom-uac-nocancel",
                    "Prompt",
                    "Please wait for confirmation of UAC...",
                ),
            },
            MiscMessage::ForegroundWindowElevated(on) => Step {
                keep_running: true,
                actions: prompt(
                    on,
                    "custom-elevated-foreground-nocancel",
                    "Prompt",
                    "elevated_foreground_window_tip",
                ),
            },
            MiscMessage::Other => Step { keep_running: true, actions: Vec::new() },
        }
    }
}

} // verus!
