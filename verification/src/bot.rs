use vstd::prelude::*;
use crate::text::str_equal;

verus! {

/// The session handle of the scenario bot.
pub struct Bot {
    /// The identifier of the remote peer.
    pub id: String,
}

/// The bot as the desktop front end holds it.
pub struct TauriBot(pub Bot);

impl TauriBot {
    /// A bot with an empty peer identifier.
    pub fn new() -> (r: TauriBot)
        ensures
            r.0.id@ == Seq::<char>::empty(),
    {
        TauriBot(Bot { id: String::new() })
    }

    /// Sets the identifier of the remote peer.
    pub fn set_id(&mut self, id: String)
        ensures
            final(self).0.id == id,
    {
        self.0.id = id;
    }

    /// A copy of the bot.
    pub fn inner(&self) -> (r: Bot)
        ensures
            r.id@ == self.0.id@,
    {
        Bot { id: self.0.id.clone() }
    }
}

/// A permission the remote side can grant or withdraw.
#[derive(Clone, Copy, Debug, PartialEq, Eq, Structural)]
pub enum PermissionName {
    Keyboard,
    Clipboard,
    Audio,
    File,
    Restart,
    Recording,
}

impl PermissionName {
    /// The name under which the permission is shown.
    pub open spec fn spec_text(self) -> Seq<char> {
        match self {
            PermissionName::Keyboard => "keyboard"@,
            PermissionName::Clipboard => "clipboard"@,
            PermissionName::Audio => "audio"@,
            PermissionName::File => "file"@,
            PermissionName::Restart => "restart"@,
            PermissionName::Recording => "recording"@,
        }
    }

    /// The name under which the permission is shown.
    pub fn as_str(&self) -> (r: &'static str)
        ensures
            r@ == self.spec_text(),
    {
        match self {
            PermissionName::Keyboard => "keyboard",
            PermissionName::Clipboard => "clipboard",
            PermissionName::Audio => "audio",
            PermissionName::File => "file",
            PermissionName::Restart => "restart",
            PermissionName::Recording => "recording",
        }
    }
}

/// A message box to show.
pub struct MsgBox {
    pub msgtype: String,
    pub title: String,
    pub text: String,
    pub link: String,
}

impl MsgBox {
    /// The box has these four texts.
    pub open spec fn shows(self, msgtype: Seq<char>, title: Seq<char>, text: Seq<char>, link: Seq<char>) -> bool {
        &&& self.msgtype@ == msgtype
        &&& self.title@ == title
        &&& self.text@ == text
        &&& self.link@ == link
    }
}

/// A message box with four literal texts.
pub fn msgbox(msgtype: &str, title: &str, text: &str, link: &str) -> (r: MsgBox)
    ensures
        r.shows(msgtype@, title@, text@, link@),
{
    MsgBox {
        msgtype: String::from_str(msgtype),
        title: String::from_str(title),
        text: String::from_str(text),
        link: String::from_str(link),
    }
}

/// A display of the remote peer.
#[derive(Clone, Copy, Debug, PartialEq, Eq, Structural)]
pub struct DisplayInfo {
    pub x: i32,
    pub y: i32,
    pub width: i32,
    pub height: i32,
    pub cursor_embedded: bool,
}

/// What the bot reads of the peer's description.
pub struct PeerInfo {
    /// The peer's version, as a comparable number.
    pub version_number: i64,
    pub username: String,
    pub displays: Vec<DisplayInfo>,
    pub current_display: i32,
}

/// Work the session asks of its surroundings.
pub enum BotAction {
    /// Ask the user interface to show a permission as granted or not.
    UiSetPermission { name: PermissionName, enabled: bool },
    /// Record a permission change on the session.
    SetPermission { name: PermissionName, enabled: bool },
    /// Ask the user interface to show this display.
    UiSetDisplay(DisplayInfo),
    /// Reinitialize the session's video for this display.
    SetDisplay(DisplayInfo),
    /// Switch the session to the display the peer switched to.
    SwitchDisplay,
    /// Ask the user interface to refresh the privacy-mode state.
    UiUpdatePrivacyMode,
    /// Refresh the session's privacy-mode state.
    UpdatePrivacyMode,
    /// Store the privacy-mode setting.
    StorePrivacyMode(bool),
    /// Store the block-input state.
    StoreBlockInputState(bool),
    /// Show a message box.
    ShowMsgBox(MsgBox),
    /// Close the message box with this tag.
    CancelMsgBox(String),
    /// Start grabbing the keyboard and enter the session.
    OnConnected,
    /// Record the peer among the recent documents.
    AddRecentDocument,
    /// Answer the peer's hash with this processing request.
    SendProcessingRequest(ProcessingRequest),
    /// Pass the video frame to the video thread.
    ForwardVideoFrame,
    /// Reset the video thread.
    ResetVideo,
    /// Pass the audio format to the audio thread.
    ForwardAudioFormat,
    /// Pass the audio frame to the audio thread.
    ForwardAudioFrame,
    /// Send the test-delay message back to the peer.
    EchoTestDelay,
    /// Apply the peer's clipboard locally.
    UpdateClipboard,
    /// Send this clipboard text to the peer after the clipboard interval.
    SendClipboardLater(String),
    /// Re-check whether clipboard file transfer is enabled.
    CheckClipboardFileContext,
    /// Pass the user interface's message on to the peer.
    ForwardToPeer,
    /// Pass the local clipboard-file message on to the peer.
    ForwardClipboardFile,
    /// Rearm the connection timer for another 30 seconds.
    RearmTimer,
}

/// How the local side names itself to the peer, as the host reports it.
pub struct LocalIdentity {
    /// The local device's identifier.
    pub id: String,
    /// The local user's name.
    pub user_name: String,
    /// The local program's version.
    pub version: String,
}

/// The session options sent with a request: all at their defaults.
#[derive(Clone, Copy, Debug, PartialEq, Eq, Structural)]
pub struct DefaultOptions;

/// The request that answers the peer's hash.
pub struct ProcessingRequest {
    pub username: String,
    pub password: Vec<u8>,
    pub my_id: String,
    pub my_name: String,
    pub option: Option<DefaultOptions>,
    pub session_id: u64,
    pub version: String,
}

/// The request built from the local identity: the device identifier as
/// user name, no password, `007` as own id, the user's name, the default
/// options, session 1 and the local version.
pub open spec fn is_processing_request(p: ProcessingRequest, local: LocalIdentity) -> bool {
    &&& p.username@ == local.id@
    &&& p.password@.len() == 0
    &&& p.my_id@ == "007"@
    &&& p.my_name@ == local.user_name@
    &&& p.option == Some(DefaultOptions)
    &&& p.session_id == 1
    &&& p.version@ == local.version@
}

/// The request that answers the peer's hash.
pub fn processing_request(local: LocalIdentity) -> (r: ProcessingRequest)
    ensures
        is_processing_request(r, local),
{
    ProcessingRequest {
        username: local.id,
        password: Vec::new(),
        my_id: String::from_str("007"),
        my_name: local.user_name,
        option: Some(DefaultOptions),
        session_id: 1,
        version: local.version,
    }
}

/// The action is showing a message box with these texts.
pub open spec fn shows_box(
    a: BotAction,
    msgtype: Seq<char>,
    title: Seq<char>,
    text: Seq<char>,
    link: Seq<char>,
) -> bool {
    a matches BotAction::ShowMsgBox(m) && m.shows(msgtype, title, text, link)
}

/// The number of actions before the display handling: one when the
/// restart permission is hidden, none otherwise.
pub open spec fn restart_prefix(pi: &PeerInfo, min_restart_version: i64) -> int {
    if pi.version_number < min_restart_version {
        1
    } else {
        0
    }
}

/// The number of actions for a peer's description.
pub open spec fn peer_info_len(pi: &PeerInfo, min_restart_version: i64) -> int {
    restart_prefix(pi, min_restart_version) + if pi.displays@.len() == 0 {
        2int
    } else {
        4int
    }
}

/// The actions for a peer's description: the restart permission hidden
/// from a peer older than `min_restart_version`; then, with no display, a
/// privacy-mode refresh and a `No Display` error; otherwise the current
/// display shown, a privacy-mode refresh in the user interface, entering
/// the session and recording the peer among the recent documents.
pub open spec fn peer_info_ok(r: Seq<BotAction>, pi: &PeerInfo, min_restart_version: i64) -> bool {
    let k = restart_prefix(pi, min_restart_version);
    &&& r.len() == peer_info_len(pi, min_restart_version)
    &&& k == 1 ==> r[0] == (BotAction::UiSetPermission {
        name: PermissionName::Restart,
        enabled: false,
    })
    &&& pi.displays@.len() == 0 ==> r[k] == BotAction::UpdatePrivacyMode && shows_box(
        r[k + 1],
        "error"@,
        "Remote Error"@,
        "No Display"@,
        ""@,
    )
    &&& pi.displays@.len() > 0 ==> r[k] == BotAction::UiSetDisplay(
        pi.displays@[pi.current_display as int],
    ) && r[k + 1] == BotAction::UiUpdatePrivacyMode && r[k + 2] == BotAction::OnConnected && r[k
        + 3] == BotAction::AddRecentDocument
}

/// A key of the remote keyboard protocol.
#[derive(Clone, Copy, Debug, PartialEq, Eq, Structural)]
pub enum ClientKey {
    /// A character.
    Chr(u32),
    /// A control key, by its protocol number.
    ControlKey(i32),
    /// A raw character code.
    Raw(u32),
}

/// The key field of a key message: a character or a control key.
#[derive(Clone, Copy, Debug, PartialEq, Eq, Structural)]
pub enum KeyCode {
    Chr(u32),
    ControlKey(i32),
}

/// How the peer interprets key messages.
#[derive(Clone, Copy, Debug, PartialEq, Eq, Structural)]
pub enum KeyboardMode {
    Legacy,
    Mapped,
    Translate,
    Auto,
}

/// A key message, before the legacy modifier keys are added to it from
/// the `alt`, `ctrl`, `shift` and `command` flags.
#[derive(Clone, Copy, Debug, PartialEq, Eq, Structural)]
pub struct KeyStroke {
    pub key: KeyCode,
    pub mode: KeyboardMode,
    pub down: bool,
    pub press: bool,
    pub alt: bool,
    pub ctrl: bool,
    pub shift: bool,
    pub command: bool,
}

/// The key message for a key: a character or raw code is sent as a
/// character, a control key as a control key; a press is sent as a press,
/// otherwise the key is sent down or up; the message is in legacy mode.
pub open spec fn spec_key_stroke(
    key: ClientKey,
    down: bool,
    press: bool,
    alt: bool,
    ctrl: bool,
    shift: bool,
    command: bool,
) -> KeyStroke {
    KeyStroke {
        key: match key {
            ClientKey::Chr(c) => KeyCode::Chr(c),
            ClientKey::ControlKey(k) => KeyCode::ControlKey(k),
            ClientKey::Raw(r) => KeyCode::Chr(r),
        },
        mode: KeyboardMode::Legacy,
        down: !press && down,
        press,
        alt,
        ctrl,
        shift,
        command,
    }
}

/// A key message carries each modifier flag in its own field, the press
/// flag as given, the down flag only without a press, and legacy mode; a
/// character or raw code becomes a character, a control key stays one.
pub proof fn law_key_stroke(
    key: ClientKey,
    down: bool,
    press: bool,
    alt: bool,
    ctrl: bool,
    shift: bool,
    command: bool,
)
    ensures
        spec_key_stroke(key, down, press, alt, ctrl, shift, command).alt == alt,
        spec_key_stroke(key, down, press, alt, ctrl, shift, command).ctrl == ctrl,
        spec_key_stroke(key, down, press, alt, ctrl, shift, command).shift == shift,
        spec_key_stroke(key, down, press, alt, ctrl, shift, command).command == command,
        spec_key_stroke(key, down, press, alt, ctrl, shift, command).press == press,
        spec_key_stroke(key, down, press, alt, ctrl, shift, command).down == (down && !press),
        spec_key_stroke(key, down, press, alt, ctrl, shift, command).mode == KeyboardMode::Legacy,
        key matches ClientKey::Chr(c) ==> spec_key_stroke(key, down, press, alt, ctrl, shift, command).key == KeyCode::Chr(c),
        key matches ClientKey::Raw(c) ==> spec_key_stroke(key, down, press, alt, ctrl, shift, command).key == KeyCode::Chr(c),
        key matches ClientKey::ControlKey(k) ==> spec_key_stroke(key, down, press, alt, ctrl, shift, command).key == KeyCode::ControlKey(k),
{
}

/// A modifier sent with a mouse event.
#[derive(Clone, Copy, Debug, PartialEq, Eq, Structural)]
pub enum ModifierKey {
    Alt,
    Shift,
    Control,
    Meta,
    Scroll,
}

/// A mouse message for the peer.
pub struct RemoteMouseEvent {
    pub mask: i32,
    pub x: i32,
    pub y: i32,
    pub modifiers: Vec<ModifierKey>,
}

/// The modifiers of a mouse message, in the order Alt, Shift, Control,
/// Meta, Scroll.
pub open spec fn spec_mouse_modifiers(
    alt: bool,
    ctrl: bool,
    shift: bool,
    command: bool,
    scroll: bool,
) -> Seq<ModifierKey> {
    (if alt { seq![ModifierKey::Alt] } else { Seq::empty() }) + (if shift {
        seq![ModifierKey::Shift]
    } else {
        Seq::empty()
    }) + (if ctrl { seq![ModifierKey::Control] } else { Seq::empty() }) + (if command {
        seq![ModifierKey::Meta]
    } else {
        Seq::empty()
    }) + (if scroll { seq![ModifierKey::Scroll] } else { Seq::empty() })
}

/// A mouse message holds each modifier exactly when its own flag is set,
/// whatever the other flags, at most once, and in the order Alt, Shift,
/// Control, Meta, Scroll.
pub proof fn law_mouse_modifiers(alt: bool, ctrl: bool, shift: bool, command: bool, scroll: bool)
    ensures
        spec_mouse_modifiers(alt, ctrl, shift, command, scroll).contains(ModifierKey::Alt) <==> alt,
        spec_mouse_modifiers(alt, ctrl, shift, command, scroll).contains(ModifierKey::Shift) <==> shift,
        spec_mouse_modifiers(alt, ctrl, shift, command, scroll).contains(ModifierKey::Control)
            <==> ctrl,
        spec_mouse_modifiers(alt, ctrl, shift, command, scroll).contains(ModifierKey::Meta)
            <==> command,
        spec_mouse_modifiers(alt, ctrl, shift, command, scroll).contains(ModifierKey::Scroll)
            <==> scroll,
        spec_mouse_modifiers(alt, ctrl, shift, command, scroll).no_duplicates(),
        spec_mouse_modifiers(alt, ctrl, shift, command, scroll).len() == (if alt { 1int } else { 0int })
            + (if shift { 1int } else { 0int }) + (if ctrl { 1int } else { 0int }) + (if command {
            1int
        } else {
            0int
        }) + (if scroll { 1int } else { 0int }),
        forall|i: int, j: int|
            0 <= i < j < spec_mouse_modifiers(alt, ctrl, shift, command, scroll).len() ==> rank(
                spec_mouse_modifiers(alt, ctrl, shift, command, scroll)[i],
            ) < rank(spec_mouse_modifiers(alt, ctrl, shift, command, scroll)[j]),
{
    let a: Seq<ModifierKey> = if alt { seq![ModifierKey::Alt] } else { Seq::empty() };
    let b: Seq<ModifierKey> = if shift { seq![ModifierKey::Shift] } else { Seq::empty() };
    let c: Seq<ModifierKey> = if ctrl { seq![ModifierKey::Control] } else { Seq::empty() };
    let d: Seq<ModifierKey> = if command { seq![ModifierKey::Meta] } else { Seq::empty() };
    let e: Seq<ModifierKey> = if scroll { seq![ModifierKey::Scroll] } else { Seq::empty() };
    let s = spec_mouse_modifiers(alt, ctrl, shift, command, scroll);
    assert(s =~= a + b + c + d + e);
    let na = a.len() as int;
    let nb = na + b.len();
    let nc = nb + c.len();
    let nd = nc + d.len();
    assert forall|i: int| 0 <= i < s.len() implies rank(#[trigger] s[i]) == (if i < na {
        0int
    } else if i < nb {
        1int
    } else if i < nc {
        2int
    } else if i < nd {
        3int
    } else {
        4int
    }) by {}
    assert(alt ==> s[0] == ModifierKey::Alt);
    assert(shift ==> s[na] == ModifierKey::Shift);
    assert(ctrl ==> s[nb] == ModifierKey::Control);
    assert(command ==> s[nc] == ModifierKey::Meta);
    assert(scroll ==> s[nd] == ModifierKey::Scroll);
}

/// The place of a modifier in a mouse message's order.
pub open spec fn rank(m: ModifierKey) -> int {
    match m {
        ModifierKey::Alt => 0,
        ModifierKey::Shift => 1,
        ModifierKey::Control => 2,
        ModifierKey::Meta => 3,
        ModifierKey::Scroll => 4,
    }
}

/// The mask of the left-button release that follows a control-click.
pub const CTRL_CLICK_RELEASE_MASK: i32 = 10;

impl Bot {
    /// Sessions of this bot are never file transfers.
    pub open spec fn spec_is_file_transfer(&self) -> bool {
        false
    }

    /// Sessions of this bot never forward a port.
    pub open spec fn spec_is_port_forward(&self) -> bool {
        false
    }

    /// Whether the session is a file transfer: never.
    pub fn is_file_transfer(&self) -> (r: bool)
        ensures
            r == self.spec_is_file_transfer(),
    {
        false
    }

    /// Whether the session is a remote desktop protocol session: never.
    pub fn is_rdp(&self) -> (r: bool)
        ensures
            !r,
    {
        false
    }

    /// Whether the session forwards a port: never.
    pub fn is_port_forward(&self) -> (r: bool)
        ensures
            r == self.spec_is_port_forward(),
    {
        false
    }

    /// Whether the remote device is being restarted: never.
    pub fn is_restarting_remote_device(&self) -> (r: bool)
        ensures
            !r,
    {
        false
    }

    /// The keyboard mode: always `legacy`.
    pub fn get_keyboard_mode(&self) -> (r: String)
        ensures
            r@ == "legacy"@,
    {
        String::from_str("legacy")
    }

    /// The peer's platform: always `Windows`.
    pub fn peer_platform(&self) -> (r: String)
        ensures
            r@ == "Windows"@,
    {
        String::from_str("Windows")
    }

    /// Builds the key message for a key.
    fn _input_key(
        &self,
        key: ClientKey,
        down: bool,
        press: bool,
        alt: bool,
        ctrl: bool,
        shift: bool,
        command: bool,
    ) -> (r: KeyStroke)
        ensures
            r == spec_key_stroke(key, down, press, alt, ctrl, shift, command),
    {
        let v: u8 = if press {
            3
        } else if down {
            1
        } else {
            0
        };
        let code = match key {
            ClientKey::Chr(chr) => KeyCode::Chr(chr),
            ClientKey::ControlKey(k) => KeyCode::ControlKey(k),
            ClientKey::Raw(raw) => KeyCode::Chr(raw),
        };
        KeyStroke { key: code, mode: KeyboardMode::Legacy, down: v == 1, press: v == 3, alt, ctrl, shift, command }
    }

    /// The key message for a key given by name: a one-character name is
    /// sent as that character's raw code; a longer name is sent as the key
    /// the key map gives for it (`mapped`), and not at all when it has none.
    pub fn input_key(
        &self,
        name: &str,
        mapped: Option<ClientKey>,
        down: bool,
        press: bool,
        alt: bool,
        ctrl: bool,
        shift: bool,
        command: bool,
    ) -> (r: Option<KeyStroke>)
        ensures
            name@.len() == 1 ==> r == Some(
                spec_key_stroke(
                    ClientKey::Raw(name@[0] as u32),
                    down,
                    press,
                    alt,
                    ctrl,
                    shift,
                    command,
                ),
            ),
            name@.len() != 1 ==> r == match mapped {
                Some(k) => Some(spec_key_stroke(k, down, press, alt, ctrl, shift, command)),
                None => None,
            },
    {
        if name.unicode_len() == 1 {
            let c = name.get_char(0);
            Some(self._input_key(ClientKey::Raw(c as u32), down, press, alt, ctrl, shift, command))
        } else {
            match mapped {
                Some(k) => Some(self._input_key(k, down, press, alt, ctrl, shift, command)),
                None => None,
            }
        }
    }

    /// The key and scan codes of a key event from the front end, or `None`
    /// when either is negative and the event is ignored.
    pub fn handle_flutter_key_event(&self, keycode: i32, scancode: i32) -> (r: Option<(u32, u32)>)
        ensures
            r == (if scancode < 0 || keycode < 0 {
                None
            } else {
                Some((keycode as u32, scancode as u32))
            }),
    {
        if scancode < 0 || keycode < 0 {
            return None;
        }
        Some((keycode as u32, scancode as u32))
    }

    /// The mouse message for an event: its mask and position, with the
    /// held modifiers in the order Alt, Shift, Control, Meta, and Scroll
    /// when the event scrolls.
    pub fn to_mouse_event(
        &self,
        mask: i32,
        x: i32,
        y: i32,
        alt: bool,
        ctrl: bool,
        shift: bool,
        command: bool,
        scroll: bool,
    ) -> (r: RemoteMouseEvent)
        ensures
            r.mask == mask,
            r.x == x,
            r.y == y,
            r.modifiers@ == spec_mouse_modifiers(alt, ctrl, shift, command, scroll),
    {
        let mut modifiers: Vec<ModifierKey> = Vec::new();
        if alt {
            modifiers.push(ModifierKey::Alt);
        }
        if shift {
            modifiers.push(ModifierKey::Shift);
        }
        if ctrl {
            modifiers.push(ModifierKey::Control);
        }
        if command {
            modifiers.push(ModifierKey::Meta);
        }
        if scroll {
            modifiers.push(ModifierKey::Scroll);
        }
        assert(modifiers@ =~= spec_mouse_modifiers(alt, ctrl, shift, command, scroll));
        RemoteMouseEvent { mask, x, y, modifiers }
    }

    /// The mouse messages sent for one mouse event: the event itself and,
    /// on macOS, after a left-button press with Control held, a left-button
    /// release when the local platform is not `Mac OS` (macOS turns such a
    /// click into a right click and never reports the left release).
    pub fn send_mouse(
        &self,
        mask: i32,
        x: i32,
        y: i32,
        alt: bool,
        ctrl: bool,
        shift: bool,
        command: bool,
        scroll: bool,
        on_macos: bool,
        local_platform: &str,
    ) -> (r: Vec<RemoteMouseEvent>)
        ensures
            r@.len() == (if on_macos && mask as int / 8 == 1 && mask as int % 8 == 1 && ctrl
                && local_platform@ != "Mac OS"@ {
                2int
            } else {
                1int
            }),
            r@[0].mask == mask && r@[0].x == x && r@[0].y == y,
            r@[0].modifiers@ == spec_mouse_modifiers(alt, ctrl, shift, command, scroll),
            r@.len() == 2 ==> r@[1].mask == CTRL_CLICK_RELEASE_MASK && r@[1].x == x && r@[1].y
                == y && r@[1].modifiers@ == spec_mouse_modifiers(
                alt,
                ctrl,
                shift,
                command,
                scroll,
            ),
    {
        let mut sent: Vec<RemoteMouseEvent> = Vec::new();
        sent.push(self.to_mouse_event(mask, x, y, alt, ctrl, shift, command, scroll));
        if on_macos {
            let buttons = mask >> 3;
            let evt_type = mask & 0x7;
            assert(buttons as int == mask as int / 8 && evt_type as int == mask as int % 8)
                by (bit_vector)
                requires
                    buttons == mask >> 3,
                    evt_type == mask & 0x7,
            ;
            if buttons == 1 && evt_type == 1 && ctrl && !str_equal(local_platform, "Mac OS") {
                sent.push(
                    self.to_mouse_event(
                        CTRL_CLICK_RELEASE_MASK,
                        x,
                        y,
                        alt,
                        ctrl,
                        shift,
                        command,
                        scroll,
                    ),
                );
            }
        }
        sent
    }

    /// Handles the peer's description when a login succeeds: hides the
    /// restart permission from peers older than `min_restart_version`;
    /// with no display, refreshes privacy mode and reports `No Display`;
    /// otherwise shows the current display, refreshes privacy mode, enters
    /// the session and records the peer among the recent documents.
    pub fn handle_peer_info(&self, pi: &PeerInfo, min_restart_version: i64) -> (r: Vec<BotAction>)
        requires
            pi.displays@.len() > 0 ==> 0 <= pi.current_display < pi.displays@.len(),
        ensures
            peer_info_ok(r@, pi, min_restart_version),
    {
        let mut actions: Vec<BotAction> = Vec::new();
        if pi.version_number < min_restart_version {
            actions.push(BotAction::UiSetPermission { name: PermissionName::Restart, enabled: false });
        }
        if self.is_file_transfer() {
            if pi.username.as_str().unicode_len() == 0 {
                actions.push(
                    BotAction::ShowMsgBox(
                        msgbox(
                            "error",
                            "Error",
                            "No active console user logged on, please connect and logon first.",
                            "",
                        ),
                    ),
                );
                return actions;
            }
        } else if !self.is_port_forward() {
            if pi.displays.len() == 0 {
                actions.push(BotAction::UpdatePrivacyMode);
                actions.push(BotAction::ShowMsgBox(msgbox("error", "Remote Error", "No Display", "")));
                return actions;
            }
            let current = pi.displays[pi.current_display as usize];
            actions.push(BotAction::UiSetDisplay(current));
        }
        actions.push(BotAction::UiUpdatePrivacyMode);
        actions.push(BotAction::OnConnected);
        actions.push(BotAction::AddRecentDocument);
        actions
    }

    /// Whether the test-delay message is sent back: only when it did not
    /// come from a client.
    pub fn handle_test_delay(&self, from_client: bool) -> (r: Option<BotAction>)
        ensures
            r == (if from_client {
                None::<BotAction>
            } else {
                Some(BotAction::EchoTestDelay)
            }),
    {
        if !from_client {
            Some(BotAction::EchoTestDelay)
        } else {
            None
        }
    }
}

} // verus!
