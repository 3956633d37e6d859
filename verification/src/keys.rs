use vstd::prelude::*;

verus! {

/// Keyboard keys as the input hook reports them (QWERTY positions).
#[derive(Clone, Copy, Debug, PartialEq, Eq, Structural)]
pub enum Key {
    Alt,
    AltGr,
    Backspace,
    CapsLock,
    ControlLeft,
    ControlRight,
    Delete,
    End,
    Escape,
    F1,
    F2,
    F3,
    F4,
    F5,
    F6,
    F7,
    F8,
    F9,
    F10,
    F11,
    F12,
    Home,
    MetaLeft,
    MetaRight,
    PageDown,
    PageUp,
    Return,
    ShiftLeft,
    ShiftRight,
    Space,
    Tab,
    LeftArrow,
    UpArrow,
    RightArrow,
    DownArrow,
    PrintScreen,
    Num1,
    Num2,
    Num3,
    Num4,
    Num5,
    Num6,
    Num7,
    Num8,
    Num9,
    Num0,
    Minus,
    Equal,
    KeyQ,
    KeyW,
    KeyE,
    KeyR,
    KeyT,
    KeyY,
    KeyU,
    KeyI,
    KeyO,
    KeyP,
    KeyA,
    KeyS,
    KeyD,
    KeyF,
    KeyG,
    KeyH,
    KeyJ,
    KeyK,
    KeyL,
    KeyZ,
    KeyX,
    KeyC,
    KeyV,
    KeyB,
    KeyN,
    KeyM,
    LeftBracket,
    RightBracket,
    SemiColon,
    Quote,
    BackSlash,
    Comma,
    Dot,
    Slash,
    Insert,
    KpReturn,
    KpMinus,
    KpPlus,
    KpMultiply,
    KpDivide,
    KpDecimal,
    KpEqual,
    Kp0,
    Kp1,
    Kp2,
    Kp3,
    Kp4,
    Kp5,
    Kp6,
    Kp7,
    Kp8,
    Kp9,
    KpComma,
    ScrollLock,
    Pause,
    NumLock,
    IntlBackslash,
    IntlRo,
    IntlYen,
    KanaMode,
    BackQuote,
    VolumeUp,
    VolumeDown,
    VolumeMute,
    Function,
    Apps,
    Cancel,
    Clear,
    Kana,
    Hangul,
    Junja,
    Final,
    Hanja,
    Hanji,
    Print,
    Select,
    Execute,
    Help,
    Sleep,
    Separator,
    Unknown(u32),
    RawKey(u32),
    F13,
    F14,
    F15,
    F16,
    F17,
    F18,
    F19,
    F20,
    F21,
    F22,
    F23,
    F24,
    Lang1,
    Lang2,
    Lang3,
    Lang4,
    Lang5,
}

impl Key {
    /// The key name the remote side understands for this key, for the keys
    /// that have one.
    pub open spec fn spec_name(self) -> Option<Seq<char>> {
        match self {
            Key::Alt => Some("VK_MENU"@),
            Key::AltGr => Some("RAlt"@),
            Key::Backspace => Some("VK_BACK"@),
            Key::CapsLock => Some("VK_CAPITAL"@),
            Key::ControlLeft => Some("VK_CONTROL"@),
            Key::ControlRight => Some("RControl"@),
            Key::Delete => Some("VK_DELETE"@),
            Key::End => Some("VK_END"@),
            Key::Escape => Some("VK_ESCAPE"@),
            Key::F1 => Some("VK_F1"@),
            Key::F2 => Some("VK_F2"@),
            Key::F3 => Some("VK_F3"@),
            Key::F4 => Some("VK_F4"@),
            Key::F5 => Some("VK_F5"@),
            Key::F6 => Some("VK_F6"@),
            Key::F7 => Some("VK_F7"@),
            Key::F8 => Some("VK_F8"@),
            Key::F9 => Some("VK_F9"@),
            Key::F10 => Some("VK_F10"@),
            Key::F11 => Some("VK_F11"@),
            Key::F12 => Some("VK_F12"@),
            Key::Home => Some("VK_HOME"@),
            Key::MetaLeft => Some("Meta"@),
            Key::MetaRight => Some("RWin"@),
            Key::PageDown => Some("VK_NEXT"@),
            Key::PageUp => Some("VK_PRIOR"@),
            Key::Return => Some("VK_ENTER"@),
            Key::ShiftLeft => Some("VK_SHIFT"@),
            Key::ShiftRight => Some("RShift"@),
            Key::Space => Some("VK_SPACE"@),
            Key::Tab => Some("VK_TAB"@),
            Key::LeftArrow => Some("VK_LEFT"@),
            Key::UpArrow => Some("VK_UP"@),
            Key::RightArrow => Some("VK_RIGHT"@),
            Key::DownArrow => Some("VK_DOWN"@),
            Key::PrintScreen => Some("VK_SNAPSHOT"@),
            Key::Num1 => Some("VK_1"@),
            Key::Num2 => Some("VK_2"@),
            Key::Num3 => Some("VK_3"@),
            Key::Num4 => Some("VK_4"@),
            Key::Num5 => Some("VK_5"@),
            Key::Num6 => Some("VK_6"@),
            Key::Num7 => Some("VK_7"@),
            Key::Num8 => Some("VK_8"@),
            Key::Num9 => Some("VK_9"@),
            Key::Num0 => Some("VK_0"@),
            Key::Minus => Some("-"@),
            Key::Equal => Some("="@),
            Key::KeyQ => Some("VK_Q"@),
            Key::KeyW => Some("VK_W"@),
            Key::KeyE => Some("VK_E"@),
            Key::KeyR => Some("VK_R"@),
            Key::KeyT => Some("VK_T"@),
            Key::KeyY => Some("VK_Y"@),
            Key::KeyU => Some("VK_U"@),
            Key::KeyI => Some("VK_I"@),
            Key::KeyO => Some("VK_O"@),
            Key::KeyP => Some("VK_P"@),
            Key::KeyA => Some("VK_A"@),
            Key::KeyS => Some("VK_S"@),
            Key::KeyD => Some("VK_D"@),
            Key::KeyF => Some("VK_F"@),
            Key::KeyG => Some("VK_G"@),
            Key::KeyH => Some("VK_H"@),
            Key::KeyJ => Some("VK_J"@),
            Key::KeyK => Some("VK_K"@),
            Key::KeyL => Some("VK_L"@),
            Key::KeyZ => Some("VK_Z"@),
            Key::KeyX => Some("VK_X"@),
            Key::KeyC => Some("VK_C"@),
            Key::KeyV => Some("VK_V"@),
            Key::KeyB => Some("VK_B"@),
            Key::KeyN => Some("VK_N"@),
            Key::KeyM => Some("VK_M"@),
            Key::LeftBracket => Some("["@),
            Key::RightBracket => Some("]"@),
            Key::SemiColon => Some(";"@),
            Key::Quote => Some("'"@),
            Key::BackSlash => Some("\\"@),
            Key::Comma => Some(","@),
            Key::Dot => Some("."@),
            Key::Slash => Some("/"@),
            Key::Insert => Some("VK_INSERT"@),
            Key::KpReturn => Some("VK_ENTER"@),
            Key::KpMinus => Some("VK_SUBTRACT"@),
            Key::KpPlus => Some("VK_ADD"@),
            Key::KpMultiply => Some("VK_MULTIPLY"@),
            Key::KpDivide => Some("VK_DIVIDE"@),
            Key::KpDecimal => Some("VK_DECIMAL"@),
            Key::KpEqual => Some("VK_PLUS"@),
            Key::Kp0 => Some("VK_NUMPAD0"@),
            Key::Kp1 => Some("VK_NUMPAD1"@),
            Key::Kp2 => Some("VK_NUMPAD2"@),
            Key::Kp3 => Some("VK_NUMPAD3"@),
            Key::Kp4 => Some("VK_NUMPAD4"@),
            Key::Kp5 => Some("VK_NUMPAD5"@),
            Key::Kp6 => Some("VK_NUMPAD6"@),
            Key::Kp7 => Some("VK_NUMPAD7"@),
            Key::Kp8 => Some("VK_NUMPAD8"@),
            Key::Kp9 => Some("VK_NUMPAD9"@),
            Key::KpComma => None,
            Key::ScrollLock => None,
            Key::Pause => None,
            Key::NumLock => None,
            Key::IntlBackslash => None,
            Key::IntlRo => None,
            Key::IntlYen => None,
            Key::KanaMode => None,
            Key::BackQuote => Some("`"@),
            Key::VolumeUp => None,
            Key::VolumeDown => None,
            Key::VolumeMute => None,
            Key::Function => None,
            Key::Apps => None,
            Key::Cancel => None,
            Key::Clear => None,
            Key::Kana => None,
            Key::Hangul => None,
            Key::Junja => None,
            Key::Final => None,
            Key::Hanja => None,
            Key::Hanji => None,
            Key::Print => None,
            Key::Select => None,
            Key::Execute => None,
            Key::Help => None,
            Key::Sleep => None,
            Key::Separator => None,
            Key::Unknown(_) => None,
            Key::RawKey(_) => None,
            Key::F13 => None,
            Key::F14 => None,
            Key::F15 => None,
            Key::F16 => None,
            Key::F17 => None,
            Key::F18 => None,
            Key::F19 => None,
            Key::F20 => None,
            Key::F21 => None,
            Key::F22 => None,
            Key::F23 => None,
            Key::F24 => None,
            Key::Lang1 => None,
            Key::Lang2 => None,
            Key::Lang3 => None,
            Key::Lang4 => None,
            Key::Lang5 => None,
        }
    }
}

/// Whether the key has a name the remote side understands.
pub fn has_key_name(key: Key) -> (r: bool)
    ensures
        r == key.spec_name() is Some,
{
    match key {
        Key::Alt => true,
        Key::AltGr => true,
        Key::Backspace => true,
        Key::CapsLock => true,
        Key::ControlLeft => true,
        Key::ControlRight => true,
        Key::Delete => true,
        Key::End => true,
        Key::Escape => true,
        Key::F1 => true,
        Key::F2 => true,
        Key::F3 => true,
        Key::F4 => true,
        Key::F5 => true,
        Key::F6 => true,
        Key::F7 => true,
        Key::F8 => true,
        Key::F9 => true,
        Key::F10 => true,
        Key::F11 => true,
        Key::F12 => true,
        Key::Home => true,
        Key::MetaLeft => true,
        Key::MetaRight => true,
        Key::PageDown => true,
        Key::PageUp => true,
        Key::Return => true,
        Key::ShiftLeft => true,
        Key::ShiftRight => true,
        Key::Space => true,
        Key::Tab => true,
        Key::LeftArrow => true,
        Key::UpArrow => true,
        Key::RightArrow => true,
        Key::DownArrow => true,
        Key::PrintScreen => true,
        Key::Num1 => true,
        Key::Num2 => true,
        Key::Num3 => true,
        Key::Num4 => true,
        Key::Num5 => true,
        Key::Num6 => true,
        Key::Num7 => true,
        Key::Num8 => true,
        Key::Num9 => true,
        Key::Num0 => true,
        Key::Minus => true,
        Key::Equal => true,
        Key::KeyQ => true,
        Key::KeyW => true,
        Key::KeyE => true,
        Key::KeyR => true,
        Key::KeyT => true,
        Key::KeyY => true,
        Key::KeyU => true,
        Key::KeyI => true,
        Key::KeyO => true,
        Key::KeyP => true,
        Key::KeyA => true,
        Key::KeyS => true,
        Key::KeyD => true,
        Key::KeyF => true,
        Key::KeyG => true,
        Key::KeyH => true,
        Key::KeyJ => true,
        Key::KeyK => true,
        Key::KeyL => true,
        Key::KeyZ => true,
        Key::KeyX => true,
        Key::KeyC => true,
        Key::KeyV => true,
        Key::KeyB => true,
        Key::KeyN => true,
        Key::KeyM => true,
        Key::LeftBracket => true,
        Key::RightBracket => true,
        Key::SemiColon => true,
        Key::Quote => true,
        Key::BackSlash => true,
        Key::Comma => true,
        Key::Dot => true,
        Key::Slash => true,
        Key::Insert => true,
        Key::KpReturn => true,
        Key::KpMinus => true,
        Key::KpPlus => true,
        Key::KpMultiply => true,
        Key::KpDivide => true,
        Key::KpDecimal => true,
        Key::KpEqual => true,
        Key::Kp0 => true,
        Key::Kp1 => true,
        Key::Kp2 => true,
        Key::Kp3 => true,
        Key::Kp4 => true,
        Key::Kp5 => true,
        Key::Kp6 => true,
        Key::Kp7 => true,
        Key::Kp8 => true,
        Key::Kp9 => true,
        Key::BackQuote => true,
        _ => false,
    }
}

/// The name under which a key is sent to the remote side (a Windows
/// virtual-key name such as `VK_MENU`, or the character the key types).
/// Keys without such a name are left out: the tracer stops on them.
pub fn convert_key_name(key_event_name: Key) -> (r: &'static str)
    requires
        key_event_name.spec_name() is Some,
    ensures
        r@ == key_event_name.spec_name()->0,
{
    match key_event_name {
        Key::Alt => "VK_MENU",
        Key::AltGr => "RAlt",
        Key::Backspace => "VK_BACK",
        Key::CapsLock => "VK_CAPITAL",
        Key::ControlLeft => "VK_CONTROL",
        Key::ControlRight => "RControl",
        Key::Delete => "VK_DELETE",
        Key::End => "VK_END",
        Key::Escape => "VK_ESCAPE",
        Key::F1 => "VK_F1",
        Key::F2 => "VK_F2",
        Key::F3 => "VK_F3",
        Key::F4 => "VK_F4",
        Key::F5 => "VK_F5",
        Key::F6 => "VK_F6",
        Key::F7 => "VK_F7",
        Key::F8 => "VK_F8",
        Key::F9 => "VK_F9",
        Key::F10 => "VK_F10",
        Key::F11 => "VK_F11",
        Key::F12 => "VK_F12",
        Key::Home => "VK_HOME",
        Key::MetaLeft => "Meta",
        Key::MetaRight => "RWin",
        Key::PageDown => "VK_NEXT",
        Key::PageUp => "VK_PRIOR",
        Key::Return => "VK_ENTER",
        Key::ShiftLeft => "VK_SHIFT",
        Key::ShiftRight => "RShift",
        Key::Space => "VK_SPACE",
        Key::Tab => "VK_TAB",
        Key::LeftArrow => "VK_LEFT",
        Key::UpArrow => "VK_UP",
        Key::RightArrow => "VK_RIGHT",
        Key::DownArrow => "VK_DOWN",
        Key::PrintScreen => "VK_SNAPSHOT",
        Key::Num1 => "VK_1",
        Key::Num2 => "VK_2",
        Key::Num3 => "VK_3",
        Key::Num4 => "VK_4",
        Key::Num5 => "VK_5",
        Key::Num6 => "VK_6",
        Key::Num7 => "VK_7",
        Key::Num8 => "VK_8",
        Key::Num9 => "VK_9",
        Key::Num0 => "VK_0",
        Key::Minus => "-",
        Key::Equal => "=",
        Key::KeyQ => "VK_Q",
        Key::KeyW => "VK_W",
        Key::KeyE => "VK_E",
        Key::KeyR => "VK_R",
        Key::KeyT => "VK_T",
        Key::KeyY => "VK_Y",
        Key::KeyU => "VK_U",
        Key::KeyI => "VK_I",
        Key::KeyO => "VK_O",
        Key::KeyP => "VK_P",
        Key::KeyA => "VK_A",
        Key::KeyS => "VK_S",
        Key::KeyD => "VK_D",
        Key::KeyF => "VK_F",
        Key::KeyG => "VK_G",
        Key::KeyH => "VK_H",
        Key::KeyJ => "VK_J",
        Key::KeyK => "VK_K",
        Key::KeyL => "VK_L",
        Key::KeyZ => "VK_Z",
        Key::KeyX => "VK_X",
        Key::KeyC => "VK_C",
        Key::KeyV => "VK_V",
        Key::KeyB => "VK_B",
        Key::KeyN => "VK_N",
        Key::KeyM => "VK_M",
        Key::LeftBracket => "[",
        Key::RightBracket => "]",
        Key::SemiColon => ";",
        Key::Quote => "'",
        Key::BackSlash => "\\",
        Key::Comma => ",",
        Key::Dot => ".",
        Key::Slash => "/",
        Key::Insert => "VK_INSERT",
        Key::KpReturn => "VK_ENTER",
        Key::KpMinus => "VK_SUBTRACT",
        Key::KpPlus => "VK_ADD",
        Key::KpMultiply => "VK_MULTIPLY",
        Key::KpDivide => "VK_DIVIDE",
        Key::KpDecimal => "VK_DECIMAL",
        Key::KpEqual => "VK_PLUS",
        Key::Kp0 => "VK_NUMPAD0",
        Key::Kp1 => "VK_NUMPAD1",
        Key::Kp2 => "VK_NUMPAD2",
        Key::Kp3 => "VK_NUMPAD3",
        Key::Kp4 => "VK_NUMPAD4",
        Key::Kp5 => "VK_NUMPAD5",
        Key::Kp6 => "VK_NUMPAD6",
        Key::Kp7 => "VK_NUMPAD7",
        Key::Kp8 => "VK_NUMPAD8",
        Key::Kp9 => "VK_NUMPAD9",
        Key::BackQuote => "`",
        _ => {
            proof {
                assert(false);
            }
            ""
        }
    }
}


/// Each key is sent under its own Windows virtual-key name, or under the
/// character it types; function keys above F12, lock, media, language and
/// unknown keys have no name.
pub proof fn law_key_names(k: Key)
    ensures
        Key::Alt.spec_name() == Some(seq!['V', 'K', '_', 'M', 'E', 'N', 'U']),
        Key::AltGr.spec_name() == Some(seq!['R', 'A', 'l', 't']),
        Key::Backspace.spec_name() == Some(seq!['V', 'K', '_', 'B', 'A', 'C', 'K']),
        Key::CapsLock.spec_name() == Some(seq!['V', 'K', '_', 'C', 'A', 'P', 'I', 'T', 'A', 'L']),
        Key::ControlLeft.spec_name() == Some(seq!['V', 'K', '_', 'C', 'O', 'N', 'T', 'R', 'O', 'L']),
        Key::ControlRight.spec_name() == Some(seq!['R', 'C', 'o', 'n', 't', 'r', 'o', 'l']),
        Key::Delete.spec_name() == Some(seq!['V', 'K', '_', 'D', 'E', 'L', 'E', 'T', 'E']),
        Key::End.spec_name() == Some(seq!['V', 'K', '_', 'E', 'N', 'D']),
        Key::Escape.spec_name() == Some(seq!['V', 'K', '_', 'E', 'S', 'C', 'A', 'P', 'E']),
        Key::F1.spec_name() == Some(seq!['V', 'K', '_', 'F', '1']),
        Key::F2.spec_name() == Some(seq!['V', 'K', '_', 'F', '2']),
        Key::F3.spec_name() == Some(seq!['V', 'K', '_', 'F', '3']),
        Key::F4.spec_name() == Some(seq!['V', 'K', '_', 'F', '4']),
        Key::F5.spec_name() == Some(seq!['V', 'K', '_', 'F', '5']),
        Key::F6.spec_name() == Some(seq!['V', 'K', '_', 'F', '6']),
        Key::F7.spec_name() == Some(seq!['V', 'K', '_', 'F', '7']),
        Key::F8.spec_name() == Some(seq!['V', 'K', '_', 'F', '8']),
        Key::F9.spec_name() == Some(seq!['V', 'K', '_', 'F', '9']),
        Key::F10.spec_name() == Some(seq!['V', 'K', '_', 'F', '1', '0']),
        Key::F11.spec_name() == Some(seq!['V', 'K', '_', 'F', '1', '1']),
        Key::F12.spec_name() == Some(seq!['V', 'K', '_', 'F', '1', '2']),
        Key::Home.spec_name() == Some(seq!['V', 'K', '_', 'H', 'O', 'M', 'E']),
        Key::MetaLeft.spec_name() == Some(seq!['M', 'e', 't', 'a']),
        Key::MetaRight.spec_name() == Some(seq!['R', 'W', 'i', 'n']),
        Key::PageDown.spec_name() == Some(seq!['V', 'K', '_', 'N', 'E', 'X', 'T']),
        Key::PageUp.spec_name() == Some(seq!['V', 'K', '_', 'P', 'R', 'I', 'O', 'R']),
        Key::Return.spec_name() == Some(seq!['V', 'K', '_', 'E', 'N', 'T', 'E', 'R']),
        Key::ShiftLeft.spec_name() == Some(seq!['V', 'K', '_', 'S', 'H', 'I', 'F', 'T']),
        Key::ShiftRight.spec_name() == Some(seq!['R', 'S', 'h', 'i', 'f', 't']),
        Key::Space.spec_name() == Some(seq!['V', 'K', '_', 'S', 'P', 'A', 'C', 'E']),
        Key::Tab.spec_name() == Some(seq!['V', 'K', '_', 'T', 'A', 'B']),
        Key::LeftArrow.spec_name() == Some(seq!['V', 'K', '_', 'L', 'E', 'F', 'T']),
        Key::UpArrow.spec_name() == Some(seq!['V', 'K', '_', 'U', 'P']),
        Key::RightArrow.spec_name() == Some(seq!['V', 'K', '_', 'R', 'I', 'G', 'H', 'T']),
        Key::DownArrow.spec_name() == Some(seq!['V', 'K', '_', 'D', 'O', 'W', 'N']),
        Key::PrintScreen.spec_name() == Some(seq!['V', 'K', '_', 'S', 'N', 'A', 'P', 'S', 'H', 'O', 'T']),
        Key::Num1.spec_name() == Some(seq!['V', 'K', '_', '1']),
        Key::Num2.spec_name() == Some(seq!['V', 'K', '_', '2']),
        Key::Num3.spec_name() == Some(seq!['V', 'K', '_', '3']),
        Key::Num4.spec_name() == Some(seq!['V', 'K', '_', '4']),
        Key::Num5.spec_name() == Some(seq!['V', 'K', '_', '5']),
        Key::Num6.spec_name() == Some(seq!['V', 'K', '_', '6']),
        Key::Num7.spec_name() == Some(seq!['V', 'K', '_', '7']),
        Key::Num8.spec_name() == Some(seq!['V', 'K', '_', '8']),
        Key::Num9.spec_name() == Some(seq!['V', 'K', '_', '9']),
        Key::Num0.spec_name() == Some(seq!['V', 'K', '_', '0']),
        Key::Minus.spec_name() == Some(seq!['-']),
        Key::Equal.spec_name() == Some(seq!['=']),
        Key::KeyQ.spec_name() == Some(seq!['V', 'K', '_', 'Q']),
        Key::KeyW.spec_name() == Some(seq!['V', 'K', '_', 'W']),
        Key::KeyE.spec_name() == Some(seq!['V', 'K', '_', 'E']),
        Key::KeyR.spec_name() == Some(seq!['V', 'K', '_', 'R']),
        Key::KeyT.spec_name() == Some(seq!['V', 'K', '_', 'T']),
        Key::KeyY.spec_name() == Some(seq!['V', 'K', '_', 'Y']),
        Key::KeyU.spec_name() == Some(seq!['V', 'K', '_', 'U']),
        Key::KeyI.spec_name() == Some(seq!['V', 'K', '_', 'I']),
        Key::KeyO.spec_name() == Some(seq!['V', 'K', '_', 'O']),
        Key::KeyP.spec_name() == Some(seq!['V', 'K', '_', 'P']),
        Key::KeyA.spec_name() == Some(seq!['V', 'K', '_', 'A']),
        Key::KeyS.spec_name() == Some(seq!['V', 'K', '_', 'S']),
        Key::KeyD.spec_name() == Some(seq!['V', 'K', '_', 'D']),
        Key::KeyF.spec_name() == Some(seq!['V', 'K', '_', 'F']),
        Key::KeyG.spec_name() == Some(seq!['V', 'K', '_', 'G']),
        Key::KeyH.spec_name() == Some(seq!['V', 'K', '_', 'H']),
        Key::KeyJ.spec_name() == Some(seq!['V', 'K', '_', 'J']),
        Key::KeyK.spec_name() == Some(seq!['V', 'K', '_', 'K']),
        Key::KeyL.spec_name() == Some(seq!['V', 'K', '_', 'L']),
        Key::KeyZ.spec_name() == Some(seq!['V', 'K', '_', 'Z']),
        Key::KeyX.spec_name() == Some(seq!['V', 'K', '_', 'X']),
        Key::KeyC.spec_name() == Some(seq!['V', 'K', '_', 'C']),
        Key::KeyV.spec_name() == Some(seq!['V', 'K', '_', 'V']),
        Key::KeyB.spec_name() == Some(seq!['V', 'K', '_', 'B']),
        Key::KeyN.spec_name() == Some(seq!['V', 'K', '_', 'N']),
        Key::KeyM.spec_name() == Some(seq!['V', 'K', '_', 'M']),
        Key::LeftBracket.spec_name() == Some(seq!['[']),
        Key::RightBracket.spec_name() == Some(seq![']']),
        Key::SemiColon.spec_name() == Some(seq![';']),
        Key::Quote.spec_name() == Some(seq!['\'']),
        Key::BackSlash.spec_name() == Some(seq!['\\']),
        Key::Comma.spec_name() == Some(seq![',']),
        Key::Dot.spec_name() == Some(seq!['.']),
        Key::Slash.spec_name() == Some(seq!['/']),
        Key::Insert.spec_name() == Some(seq!['V', 'K', '_', 'I', 'N', 'S', 'E', 'R', 'T']),
        Key::KpReturn.spec_name() == Some(seq!['V', 'K', '_', 'E', 'N', 'T', 'E', 'R']),
        Key::KpMinus.spec_name() == Some(seq!['V', 'K', '_', 'S', 'U', 'B', 'T', 'R', 'A', 'C', 'T']),
        Key::KpPlus.spec_name() == Some(seq!['V', 'K', '_', 'A', 'D', 'D']),
        Key::KpMultiply.spec_name() == Some(seq!['V', 'K', '_', 'M', 'U', 'L', 'T', 'I', 'P', 'L', 'Y']),
        Key::KpDivide.spec_name() == Some(seq!['V', 'K', '_', 'D', 'I', 'V', 'I', 'D', 'E']),
        Key::KpDecimal.spec_name() == Some(seq!['V', 'K', '_', 'D', 'E', 'C', 'I', 'M', 'A', 'L']),
        Key::KpEqual.spec_name() == Some(seq!['V', 'K', '_', 'P', 'L', 'U', 'S']),
        Key::Kp0.spec_name() == Some(seq!['V', 'K', '_', 'N', 'U', 'M', 'P', 'A', 'D', '0']),
        Key::Kp1.spec_name() == Some(seq!['V', 'K', '_', 'N', 'U', 'M', 'P', 'A', 'D', '1']),
        Key::Kp2.spec_name() == Some(seq!['V', 'K', '_', 'N', 'U', 'M', 'P', 'A', 'D', '2']),
        Key::Kp3.spec_name() == Some(seq!['V', 'K', '_', 'N', 'U', 'M', 'P', 'A', 'D', '3']),
        Key::Kp4.spec_name() == Some(seq!['V', 'K', '_', 'N', 'U', 'M', 'P', 'A', 'D', '4']),
        Key::Kp5.spec_name() == Some(seq!['V', 'K', '_', 'N', 'U', 'M', 'P', 'A', 'D', '5']),
        Key::Kp6.spec_name() == Some(seq!['V', 'K', '_', 'N', 'U', 'M', 'P', 'A', 'D', '6']),
        Key::Kp7.spec_name() == Some(seq!['V', 'K', '_', 'N', 'U', 'M', 'P', 'A', 'D', '7']),
        Key::Kp8.spec_name() == Some(seq!['V', 'K', '_', 'N', 'U', 'M', 'P', 'A', 'D', '8']),
        Key::Kp9.spec_name() == Some(seq!['V', 'K', '_', 'N', 'U', 'M', 'P', 'A', 'D', '9']),
        Key::BackQuote.spec_name() == Some(seq!['`']),
        k.spec_name() is None <==> (k matches Key::KpComma || k matches Key::ScrollLock || k matches Key::Pause || k matches Key::NumLock || k matches Key::IntlBackslash || k matches Key::IntlRo || k matches Key::IntlYen || k matches Key::KanaMode || k matches Key::VolumeUp || k matches Key::VolumeDown || k matches Key::VolumeMute || k matches Key::Function || k matches Key::Apps || k matches Key::Cancel || k matches Key::Clear || k matches Key::Kana || k matches Key::Hangul || k matches Key::Junja || k matches Key::Final || k matches Key::Hanja || k matches Key::Hanji || k matches Key::Print || k matches Key::Select || k matches Key::Execute || k matches Key::Help || k matches Key::Sleep || k matches Key::Separator || k matches Key::Unknown(_) || k matches Key::RawKey(_) || k matches Key::F13 || k matches Key::F14 || k matches Key::F15 || k matches Key::F16 || k matches Key::F17 || k matches Key::F18 || k matches Key::F19 || k matches Key::F20 || k matches Key::F21 || k matches Key::F22 || k matches Key::F23 || k matches Key::F24 || k matches Key::Lang1 || k matches Key::Lang2 || k matches Key::Lang3 || k matches Key::Lang4 || k matches Key::Lang5),
{
    reveal_strlit("'");
    reveal_strlit(",");
    reveal_strlit("-");
    reveal_strlit(".");
    reveal_strlit("/");
    reveal_strlit(";");
    reveal_strlit("=");
    reveal_strlit("Meta");
    reveal_strlit("RAlt");
    reveal_strlit("RControl");
    reveal_strlit("RShift");
    reveal_strlit("RWin");
    reveal_strlit("VK_0");
    reveal_strlit("VK_1");
    reveal_strlit("VK_2");
    reveal_strlit("VK_3");
    reveal_strlit("VK_4");
    reveal_strlit("VK_5");
    reveal_strlit("VK_6");
    reveal_strlit("VK_7");
    reveal_strlit("VK_8");
    reveal_strlit("VK_9");
    reveal_strlit("VK_A");
    reveal_strlit("VK_ADD");
    reveal_strlit("VK_B");
    reveal_strlit("VK_BACK");
    reveal_strlit("VK_C");
    reveal_strlit("VK_CAPITAL");
    reveal_strlit("VK_CONTROL");
    reveal_strlit("VK_D");
    reveal_strlit("VK_DECIMAL");
    reveal_strlit("VK_DELETE");
    reveal_strlit("VK_DIVIDE");
    reveal_strlit("VK_DOWN");
    reveal_strlit("VK_E");
    reveal_strlit("VK_END");
    reveal_strlit("VK_ENTER");
    reveal_strlit("VK_ESCAPE");
    reveal_strlit("VK_F");
    reveal_strlit("VK_F1");
    reveal_strlit("VK_F10");
    reveal_strlit("VK_F11");
    reveal_strlit("VK_F12");
    reveal_strlit("VK_F2");
    reveal_strlit("VK_F3");
    reveal_strlit("VK_F4");
    reveal_strlit("VK_F5");
    reveal_strlit("VK_F6");
    reveal_strlit("VK_F7");
    reveal_strlit("VK_F8");
    reveal_strlit("VK_F9");
    reveal_strlit("VK_G");
    reveal_strlit("VK_H");
    reveal_strlit("VK_HOME");
    reveal_strlit("VK_I");
    reveal_strlit("VK_INSERT");
    reveal_strlit("VK_J");
    reveal_strlit("VK_K");
    reveal_strlit("VK_L");
    reveal_strlit("VK_LEFT");
    reveal_strlit("VK_M");
    reveal_strlit("VK_MENU");
    reveal_strlit("VK_MULTIPLY");
    reveal_strlit("VK_N");
    reveal_strlit("VK_NEXT");
    reveal_strlit("VK_NUMPAD0");
    reveal_strlit("VK_NUMPAD1");
    reveal_strlit("VK_NUMPAD2");
    reveal_strlit("VK_NUMPAD3");
    reveal_strlit("VK_NUMPAD4");
    reveal_strlit("VK_NUMPAD5");
    reveal_strlit("VK_NUMPAD6");
    reveal_strlit("VK_NUMPAD7");
    reveal_strlit("VK_NUMPAD8");
    reveal_strlit("VK_NUMPAD9");
    reveal_strlit("VK_O");
    reveal_strlit("VK_P");
    reveal_strlit("VK_PLUS");
    reveal_strlit("VK_PRIOR");
    reveal_strlit("VK_Q");
    reveal_strlit("VK_R");
    reveal_strlit("VK_RIGHT");
    reveal_strlit("VK_S");
    reveal_strlit("VK_SHIFT");
    reveal_strlit("VK_SNAPSHOT");
    reveal_strlit("VK_SPACE");
    reveal_strlit("VK_SUBTRACT");
    reveal_strlit("VK_T");
    reveal_strlit("VK_TAB");
    reveal_strlit("VK_U");
    reveal_strlit("VK_UP");
    reveal_strlit("VK_V");
    reveal_strlit("VK_W");
    reveal_strlit("VK_X");
    reveal_strlit("VK_Y");
    reveal_strlit("VK_Z");
    reveal_strlit("[");
    reveal_strlit("\\");
    reveal_strlit("]");
    reveal_strlit("`");
    assert(Key::Alt.spec_name()->0 =~= seq!['V', 'K', '_', 'M', 'E', 'N', 'U']);
    assert(Key::AltGr.spec_name()->0 =~= seq!['R', 'A', 'l', 't']);
    assert(Key::Backspace.spec_name()->0 =~= seq!['V', 'K', '_', 'B', 'A', 'C', 'K']);
    assert(Key::CapsLock.spec_name()->0 =~= seq!['V', 'K', '_', 'C', 'A', 'P', 'I', 'T', 'A', 'L']);
    assert(Key::ControlLeft.spec_name()->0 =~= seq!['V', 'K', '_', 'C', 'O', 'N', 'T', 'R', 'O', 'L']);
    assert(Key::ControlRight.spec_name()->0 =~= seq!['R', 'C', 'o', 'n', 't', 'r', 'o', 'l']);
    assert(Key::Delete.spec_name()->0 =~= seq!['V', 'K', '_', 'D', 'E', 'L', 'E', 'T', 'E']);
    assert(Key::End.spec_name()->0 =~= seq!['V', 'K', '_', 'E', 'N', 'D']);
    assert(Key::Escape.spec_name()->0 =~= seq!['V', 'K', '_', 'E', 'S', 'C', 'A', 'P', 'E']);
    assert(Key::F1.spec_name()->0 =~= seq!['V', 'K', '_', 'F', '1']);
    assert(Key::F2.spec_name()->0 =~= seq!['V', 'K', '_', 'F', '2']);
    assert(Key::F3.spec_name()->0 =~= seq!['V', 'K', '_', 'F', '3']);
    assert(Key::F4.spec_name()->0 =~= seq!['V', 'K', '_', 'F', '4']);
    assert(Key::F5.spec_name()->0 =~= seq!['V', 'K', '_', 'F', '5']);
    assert(Key::F6.spec_name()->0 =~= seq!['V', 'K', '_', 'F', '6']);
    assert(Key::F7.spec_name()->0 =~= seq!['V', 'K', '_', 'F', '7']);
    assert(Key::F8.spec_name()->0 =~= seq!['V', 'K', '_', 'F', '8']);
    assert(Key::F9.spec_name()->0 =~= seq!['V', 'K', '_', 'F', '9']);
    assert(Key::F10.spec_name()->0 =~= seq!['V', 'K', '_', 'F', '1', '0']);
    assert(Key::F11.spec_name()->0 =~= seq!['V', 'K', '_', 'F', '1', '1']);
    assert(Key::F12.spec_name()->0 =~= seq!['V', 'K', '_', 'F', '1', '2']);
    assert(Key::Home.spec_name()->0 =~= seq!['V', 'K', '_', 'H', 'O', 'M', 'E']);
    assert(Key::MetaLeft.spec_name()->0 =~= seq!['M', 'e', 't', 'a']);
    assert(Key::MetaRight.spec_name()->0 =~= seq!['R', 'W', 'i', 'n']);
    assert(Key::PageDown.spec_name()->0 =~= seq!['V', 'K', '_', 'N', 'E', 'X', 'T']);
    assert(Key::PageUp.spec_name()->0 =~= seq!['V', 'K', '_', 'P', 'R', 'I', 'O', 'R']);
    assert(Key::Return.spec_name()->0 =~= seq!['V', 'K', '_', 'E', 'N', 'T', 'E', 'R']);
    assert(Key::ShiftLeft.spec_name()->0 =~= seq!['V', 'K', '_', 'S', 'H', 'I', 'F', 'T']);
    assert(Key::ShiftRight.spec_name()->0 =~= seq!['R', 'S', 'h', 'i', 'f', 't']);
    assert(Key::Space.spec_name()->0 =~= seq!['V', 'K', '_', 'S', 'P', 'A', 'C', 'E']);
    assert(Key::Tab.spec_name()->0 =~= seq!['V', 'K', '_', 'T', 'A', 'B']);
    assert(Key::LeftArrow.spec_name()->0 =~= seq!['V', 'K', '_', 'L', 'E', 'F', 'T']);
    assert(Key::UpArrow.spec_name()->0 =~= seq!['V', 'K', '_', 'U', 'P']);
    assert(Key::RightArrow.spec_name()->0 =~= seq!['V', 'K', '_', 'R', 'I', 'G', 'H', 'T']);
    assert(Key::DownArrow.spec_name()->0 =~= seq!['V', 'K', '_', 'D', 'O', 'W', 'N']);
    assert(Key::PrintScreen.spec_name()->0 =~= seq!['V', 'K', '_', 'S', 'N', 'A', 'P', 'S', 'H', 'O', 'T']);
    assert(Key::Num1.spec_name()->0 =~= seq!['V', 'K', '_', '1']);
    assert(Key::Num2.spec_name()->0 =~= seq!['V', 'K', '_', '2']);
    assert(Key::Num3.spec_name()->0 =~= seq!['V', 'K', '_', '3']);
    assert(Key::Num4.spec_name()->0 =~= seq!['V', 'K', '_', '4']);
    assert(Key::Num5.spec_name()->0 =~= seq!['V', 'K', '_', '5']);
    assert(Key::Num6.spec_name()->0 =~= seq!['V', 'K', '_', '6']);
    assert(Key::Num7.spec_name()->0 =~= seq!['V', 'K', '_', '7']);
    assert(Key::Num8.spec_name()->0 =~= seq!['V', 'K', '_', '8']);
    assert(Key::Num9.spec_name()->0 =~= seq!['V', 'K', '_', '9']);
    assert(Key::Num0.spec_name()->0 =~= seq!['V', 'K', '_', '0']);
    assert(Key::Minus.spec_name()->0 =~= seq!['-']);
    assert(Key::Equal.spec_name()->0 =~= seq!['=']);
    assert(Key::KeyQ.spec_name()->0 =~= seq!['V', 'K', '_', 'Q']);
    assert(Key::KeyW.spec_name()->0 =~= seq!['V', 'K', '_', 'W']);
    assert(Key::KeyE.spec_name()->0 =~= seq!['V', 'K', '_', 'E']);
    assert(Key::KeyR.spec_name()->0 =~= seq!['V', 'K', '_', 'R']);
    assert(Key::KeyT.spec_name()->0 =~= seq!['V', 'K', '_', 'T']);
    assert(Key::KeyY.spec_name()->0 =~= seq!['V', 'K', '_', 'Y']);
    assert(Key::KeyU.spec_name()->0 =~= seq!['V', 'K', '_', 'U']);
    assert(Key::KeyI.spec_name()->0 =~= seq!['V', 'K', '_', 'I']);
    assert(Key::KeyO.spec_name()->0 =~= seq!['V', 'K', '_', 'O']);
    assert(Key::KeyP.spec_name()->0 =~= seq!['V', 'K', '_', 'P']);
    assert(Key::KeyA.spec_name()->0 =~= seq!['V', 'K', '_', 'A']);
    assert(Key::KeyS.spec_name()->0 =~= seq!['V', 'K', '_', 'S']);
    assert(Key::KeyD.spec_name()->0 =~= seq!['V', 'K', '_', 'D']);
    assert(Key::KeyF.spec_name()->0 =~= seq!['V', 'K', '_', 'F']);
    assert(Key::KeyG.spec_name()->0 =~= seq!['V', 'K', '_', 'G']);
    assert(Key::KeyH.spec_name()->0 =~= seq!['V', 'K', '_', 'H']);
    assert(Key::KeyJ.spec_name()->0 =~= seq!['V', 'K', '_', 'J']);
    assert(Key::KeyK.spec_name()->0 =~= seq!['V', 'K', '_', 'K']);
    assert(Key::KeyL.spec_name()->0 =~= seq!['V', 'K', '_', 'L']);
    assert(Key::KeyZ.spec_name()->0 =~= seq!['V', 'K', '_', 'Z']);
    assert(Key::KeyX.spec_name()->0 =~= seq!['V', 'K', '_', 'X']);
    assert(Key::KeyC.spec_name()->0 =~= seq!['V', 'K', '_', 'C']);
    assert(Key::KeyV.spec_name()->0 =~= seq!['V', 'K', '_', 'V']);
    assert(Key::KeyB.spec_name()->0 =~= seq!['V', 'K', '_', 'B']);
    assert(Key::KeyN.spec_name()->0 =~= seq!['V', 'K', '_', 'N']);
    assert(Key::KeyM.spec_name()->0 =~= seq!['V', 'K', '_', 'M']);
    assert(Key::LeftBracket.spec_name()->0 =~= seq!['[']);
    assert(Key::RightBracket.spec_name()->0 =~= seq![']']);
    assert(Key::SemiColon.spec_name()->0 =~= seq![';']);
    assert(Key::Quote.spec_name()->0 =~= seq!['\'']);
    assert(Key::BackSlash.spec_name()->0 =~= seq!['\\']);
    assert(Key::Comma.spec_name()->0 =~= seq![',']);
    assert(Key::Dot.spec_name()->0 =~= seq!['.']);
    assert(Key::Slash.spec_name()->0 =~= seq!['/']);
    assert(Key::Insert.spec_name()->0 =~= seq!['V', 'K', '_', 'I', 'N', 'S', 'E', 'R', 'T']);
    assert(Key::KpReturn.spec_name()->0 =~= seq!['V', 'K', '_', 'E', 'N', 'T', 'E', 'R']);
    assert(Key::KpMinus.spec_name()->0 =~= seq!['V', 'K', '_', 'S', 'U', 'B', 'T', 'R', 'A', 'C', 'T']);
    assert(Key::KpPlus.spec_name()->0 =~= seq!['V', 'K', '_', 'A', 'D', 'D']);
    assert(Key::KpMultiply.spec_name()->0 =~= seq!['V', 'K', '_', 'M', 'U', 'L', 'T', 'I', 'P', 'L', 'Y']);
    assert(Key::KpDivide.spec_name()->0 =~= seq!['V', 'K', '_', 'D', 'I', 'V', 'I', 'D', 'E']);
    assert(Key::KpDecimal.spec_name()->0 =~= seq!['V', 'K', '_', 'D', 'E', 'C', 'I', 'M', 'A', 'L']);
    assert(Key::KpEqual.spec_name()->0 =~= seq!['V', 'K', '_', 'P', 'L', 'U', 'S']);
    assert(Key::Kp0.spec_name()->0 =~= seq!['V', 'K', '_', 'N', 'U', 'M', 'P', 'A', 'D', '0']);
    assert(Key::Kp1.spec_name()->0 =~= seq!['V', 'K', '_', 'N', 'U', 'M', 'P', 'A', 'D', '1']);
    assert(Key::Kp2.spec_name()->0 =~= seq!['V', 'K', '_', 'N', 'U', 'M', 'P', 'A', 'D', '2']);
    assert(Key::Kp3.spec_name()->0 =~= seq!['V', 'K', '_', 'N', 'U', 'M', 'P', 'A', 'D', '3']);
    assert(Key::Kp4.spec_name()->0 =~= seq!['V', 'K', '_', 'N', 'U', 'M', 'P', 'A', 'D', '4']);
    assert(Key::Kp5.spec_name()->0 =~= seq!['V', 'K', '_', 'N', 'U', 'M', 'P', 'A', 'D', '5']);
    assert(Key::Kp6.spec_name()->0 =~= seq!['V', 'K', '_', 'N', 'U', 'M', 'P', 'A', 'D', '6']);
    assert(Key::Kp7.spec_name()->0 =~= seq!['V', 'K', '_', 'N', 'U', 'M', 'P', 'A', 'D', '7']);
    assert(Key::Kp8.spec_name()->0 =~= seq!['V', 'K', '_', 'N', 'U', 'M', 'P', 'A', 'D', '8']);
    assert(Key::Kp9.spec_name()->0 =~= seq!['V', 'K', '_', 'N', 'U', 'M', 'P', 'A', 'D', '9']);
    assert(Key::BackQuote.spec_name()->0 =~= seq!['`']);
}


/// The key a name stands for, read off the name's characters.
pub open spec fn key_named(n: Seq<char>) -> Option<Key> {
    if n.len() == 1 {
        if n[0] == '\'' {
            if n == seq!['\''] {
                Some(Key::Quote)
            } else {
                None
            }
        } else if n[0] == ',' {
            if n == seq![','] {
                Some(Key::Comma)
            } else {
                None
            }
        } else if n[0] == '-' {
            if n == seq!['-'] {
                Some(Key::Minus)
            } else {
                None
            }
        } else if n[0] == '.' {
            if n == seq!['.'] {
                Some(Key::Dot)
            } else {
                None
            }
        } else if n[0] == '/' {
            if n == seq!['/'] {
                Some(Key::Slash)
            } else {
                None
            }
        } else if n[0] == ';' {
            if n == seq![';'] {
                Some(Key::SemiColon)
            } else {
                None
            }
        } else if n[0] == '=' {
            if n == seq!['='] {
                Some(Key::Equal)
            } else {
                None
            }
        } else if n[0] == '[' {
            if n == seq!['['] {
                Some(Key::LeftBracket)
            } else {
                None
            }
        } else if n[0] == '\\' {
            if n == seq!['\\'] {
                Some(Key::BackSlash)
            } else {
                None
            }
        } else if n[0] == ']' {
            if n == seq![']'] {
                Some(Key::RightBracket)
            } else {
                None
            }
        } else if n[0] == '`' {
            if n == seq!['`'] {
                Some(Key::BackQuote)
            } else {
                None
            }
        } else {
            None
        }
    } else if n.len() == 10 {
        if n[9] == '0' {
            if n == seq!['V', 'K', '_', 'N', 'U', 'M', 'P', 'A', 'D', '0'] {
                Some(Key::Kp0)
            } else {
                None
            }
        } else if n[9] == '1' {
            if n == seq!['V', 'K', '_', 'N', 'U', 'M', 'P', 'A', 'D', '1'] {
                Some(Key::Kp1)
            } else {
                None
            }
        } else if n[9] == '2' {
            if n == seq!['V', 'K', '_', 'N', 'U', 'M', 'P', 'A', 'D', '2'] {
                Some(Key::Kp2)
            } else {
                None
            }
        } else if n[9] == '3' {
            if n == seq!['V', 'K', '_', 'N', 'U', 'M', 'P', 'A', 'D', '3'] {
                Some(Key::Kp3)
            } else {
                None
            }
        } else if n[9] == '4' {
            if n == seq!['V', 'K', '_', 'N', 'U', 'M', 'P', 'A', 'D', '4'] {
                Some(Key::Kp4)
            } else {
                None
            }
        } else if n[9] == '5' {
            if n == seq!['V', 'K', '_', 'N', 'U', 'M', 'P', 'A', 'D', '5'] {
                Some(Key::Kp5)
            } else {
                None
            }
        } else if n[9] == '6' {
            if n == seq!['V', 'K', '_', 'N', 'U', 'M', 'P', 'A', 'D', '6'] {
                Some(Key::Kp6)
            } else {
                None
            }
        } else if n[9] == '7' {
            if n == seq!['V', 'K', '_', 'N', 'U', 'M', 'P', 'A', 'D', '7'] {
                Some(Key::Kp7)
            } else {
                None
            }
        } else if n[9] == '8' {
            if n == seq!['V', 'K', '_', 'N', 'U', 'M', 'P', 'A', 'D', '8'] {
                Some(Key::Kp8)
            } else {
                None
            }
        } else if n[9] == '9' {
            if n == seq!['V', 'K', '_', 'N', 'U', 'M', 'P', 'A', 'D', '9'] {
                Some(Key::Kp9)
            } else {
                None
            }
        } else if n[9] == 'L' {
            if n[4] == 'A' {
                if n == seq!['V', 'K', '_', 'C', 'A', 'P', 'I', 'T', 'A', 'L'] {
                    Some(Key::CapsLock)
                } else {
                    None
                }
            } else if n[4] == 'E' {
                if n == seq!['V', 'K', '_', 'D', 'E', 'C', 'I', 'M', 'A', 'L'] {
                    Some(Key::KpDecimal)
                } else {
                    None
                }
            } else if n[4] == 'O' {
                if n == seq!['V', 'K', '_', 'C', 'O', 'N', 'T', 'R', 'O', 'L'] {
                    Some(Key::ControlLeft)
                } else {
                    None
                }
            } else {
                None
            }
        } else {
            None
        }
    } else if n.len() == 11 {
        if n[5] == 'A' {
            if n == seq!['V', 'K', '_', 'S', 'N', 'A', 'P', 'S', 'H', 'O', 'T'] {
                Some(Key::PrintScreen)
            } else {
                None
            }
        } else if n[5] == 'B' {
            if n == seq!['V', 'K', '_', 'S', 'U', 'B', 'T', 'R', 'A', 'C', 'T'] {
                Some(Key::KpMinus)
            } else {
                None
            }
        } else if n[5] == 'L' {
            if n == seq!['V', 'K', '_', 'M', 'U', 'L', 'T', 'I', 'P', 'L', 'Y'] {
                Some(Key::KpMultiply)
            } else {
                None
            }
        } else {
            None
        }
    } else if n.len() == 4 {
        if n[3] == '0' {
            if n == seq!['V', 'K', '_', '0'] {
                Some(Key::Num0)
            } else {
                None
            }
        } else if n[3] == '1' {
            if n == seq!['V', 'K', '_', '1'] {
                Some(Key::Num1)
            } else {
                None
            }
        } else if n[3] == '2' {
            if n == seq!['V', 'K', '_', '2'] {
                Some(Key::Num2)
            } else {
                None
            }
        } else if n[3] == '3' {
            if n == seq!['V', 'K', '_', '3'] {
                Some(Key::Num3)
            } else {
                None
            }
        } else if n[3] == '4' {
            if n == seq!['V', 'K', '_', '4'] {
                Some(Key::Num4)
            } else {
                None
            }
        } else if n[3] == '5' {
            if n == seq!['V', 'K', '_', '5'] {
                Some(Key::Num5)
            } else {
                None
            }
        } else if n[3] == '6' {
            if n == seq!['V', 'K', '_', '6'] {
                Some(Key::Num6)
            } else {
                None
            }
        } else if n[3] == '7' {
            if n == seq!['V', 'K', '_', '7'] {
                Some(Key::Num7)
            } else {
                None
            }
        } else if n[3] == '8' {
            if n == seq!['V', 'K', '_', '8'] {
                Some(Key::Num8)
            } else {
                None
            }
        } else if n[3] == '9' {
            if n == seq!['V', 'K', '_', '9'] {
                Some(Key::Num9)
            } else {
                None
            }
        } else if n[3] == 'A' {
            if n == seq!['V', 'K', '_', 'A'] {
                Some(Key::KeyA)
            } else {
                None
            }
        } else if n[3] == 'B' {
            if n == seq!['V', 'K', '_', 'B'] {
                Some(Key::KeyB)
            } else {
                None
            }
        } else if n[3] == 'C' {
            if n == seq!['V', 'K', '_', 'C'] {
                Some(Key::KeyC)
            } else {
                None
            }
        } else if n[3] == 'D' {
            if n == seq!['V', 'K', '_', 'D'] {
                Some(Key::KeyD)
            } else {
                None
            }
        } else if n[3] == 'E' {
            if n == seq!['V', 'K', '_', 'E'] {
                Some(Key::KeyE)
            } else {
                None
            }
        } else if n[3] == 'F' {
            if n == seq!['V', 'K', '_', 'F'] {
                Some(Key::KeyF)
            } else {
                None
            }
        } else if n[3] == 'G' {
            if n == seq!['V', 'K', '_', 'G'] {
                Some(Key::KeyG)
            } else {
                None
            }
        } else if n[3] == 'H' {
            if n == seq!['V', 'K', '_', 'H'] {
                Some(Key::KeyH)
            } else {
                None
            }
        } else if n[3] == 'I' {
            if n == seq!['V', 'K', '_', 'I'] {
                Some(Key::KeyI)
            } else {
                None
            }
        } else if n[3] == 'J' {
            if n == seq!['V', 'K', '_', 'J'] {
                Some(Key::KeyJ)
            } else {
                None
            }
        } else if n[3] == 'K' {
            if n == seq!['V', 'K', '_', 'K'] {
                Some(Key::KeyK)
            } else {
                None
            }
        } else if n[3] == 'L' {
            if n == seq!['V', 'K', '_', 'L'] {
                Some(Key::KeyL)
            } else {
                None
            }
        } else if n[3] == 'M' {
            if n == seq!['V', 'K', '_', 'M'] {
                Some(Key::KeyM)
            } else {
                None
            }
        } else if n[3] == 'N' {
            if n == seq!['V', 'K', '_', 'N'] {
                Some(Key::KeyN)
            } else {
                None
            }
        } else if n[3] == 'O' {
            if n == seq!['V', 'K', '_', 'O'] {
                Some(Key::KeyO)
            } else {
                None
            }
        } else if n[3] == 'P' {
            if n == seq!['V', 'K', '_', 'P'] {
                Some(Key::KeyP)
            } else {
                None
            }
        } else if n[3] == 'Q' {
            if n == seq!['V', 'K', '_', 'Q'] {
                Some(Key::KeyQ)
            } else {
                None
            }
        } else if n[3] == 'R' {
            if n == seq!['V', 'K', '_', 'R'] {
                Some(Key::KeyR)
            } else {
                None
            }
        } else if n[3] == 'S' {
            if n == seq!['V', 'K', '_', 'S'] {
                Some(Key::KeyS)
            } else {
                None
            }
        } else if n[3] == 'T' {
            if n == seq!['V', 'K', '_', 'T'] {
                Some(Key::KeyT)
            } else {
                None
            }
        } else if n[3] == 'U' {
            if n == seq!['V', 'K', '_', 'U'] {
                Some(Key::KeyU)
            } else {
                None
            }
        } else if n[3] == 'V' {
            if n == seq!['V', 'K', '_', 'V'] {
                Some(Key::KeyV)
            } else {
                None
            }
        } else if n[3] == 'W' {
            if n == seq!['V', 'K', '_', 'W'] {
                Some(Key::KeyW)
            } else {
                None
            }
        } else if n[3] == 'X' {
            if n == seq!['V', 'K', '_', 'X'] {
                Some(Key::KeyX)
            } else {
                None
            }
        } else if n[3] == 'Y' {
            if n == seq!['V', 'K', '_', 'Y'] {
                Some(Key::KeyY)
            } else {
                None
            }
        } else if n[3] == 'Z' {
            if n == seq!['V', 'K', '_', 'Z'] {
                Some(Key::KeyZ)
            } else {
                None
            }
        } else if n[3] == 'a' {
            if n == seq!['M', 'e', 't', 'a'] {
                Some(Key::MetaLeft)
            } else {
                None
            }
        } else if n[3] == 'n' {
            if n == seq!['R', 'W', 'i', 'n'] {
                Some(Key::MetaRight)
            } else {
                None
            }
        } else if n[3] == 't' {
            if n == seq!['R', 'A', 'l', 't'] {
                Some(Key::AltGr)
            } else {
                None
            }
        } else {
            None
        }
    } else if n.len() == 5 {
        if n[4] == '1' {
            if n == seq!['V', 'K', '_', 'F', '1'] {
                Some(Key::F1)
            } else {
                None
            }
        } else if n[4] == '2' {
            if n == seq!['V', 'K', '_', 'F', '2'] {
                Some(Key::F2)
            } else {
                None
            }
        } else if n[4] == '3' {
            if n == seq!['V', 'K', '_', 'F', '3'] {
                Some(Key::F3)
            } else {
                None
            }
        } else if n[4] == '4' {
            if n == seq!['V', 'K', '_', 'F', '4'] {
                Some(Key::F4)
            } else {
                None
            }
        } else if n[4] == '5' {
            if n == seq!['V', 'K', '_', 'F', '5'] {
                Some(Key::F5)
            } else {
                None
            }
        } else if n[4] == '6' {
            if n == seq!['V', 'K', '_', 'F', '6'] {
                Some(Key::F6)
            } else {
                None
            }
        } else if n[4] == '7' {
            if n == seq!['V', 'K', '_', 'F', '7'] {
                Some(Key::F7)
            } else {
                None
            }
        } else if n[4] == '8' {
            if n == seq!['V', 'K', '_', 'F', '8'] {
                Some(Key::F8)
            } else {
                None
            }
        } else if n[4] == '9' {
            if n == seq!['V', 'K', '_', 'F', '9'] {
                Some(Key::F9)
            } else {
                None
            }
        } else if n[4] == 'P' {
            if n == seq!['V', 'K', '_', 'U', 'P'] {
                Some(Key::UpArrow)
            } else {
                None
            }
        } else {
            None
        }
    } else if n.len() == 6 {
        if n[5] == '0' {
            if n == seq!['V', 'K', '_', 'F', '1', '0'] {
                Some(Key::F10)
            } else {
                None
            }
        } else if n[5] == '1' {
            if n == seq!['V', 'K', '_', 'F', '1', '1'] {
                Some(Key::F11)
            } else {
                None
            }
        } else if n[5] == '2' {
            if n == seq!['V', 'K', '_', 'F', '1', '2'] {
                Some(Key::F12)
            } else {
                None
            }
        } else if n[5] == 'B' {
            if n == seq!['V', 'K', '_', 'T', 'A', 'B'] {
                Some(Key::Tab)
            } else {
                None
            }
        } else if n[5] == 'D' {
            if n[3] == 'A' {
                if n == seq!['V', 'K', '_', 'A', 'D', 'D'] {
                    Some(Key::KpPlus)
                } else {
                    None
                }
            } else if n[3] == 'E' {
                if n == seq!['V', 'K', '_', 'E', 'N', 'D'] {
                    Some(Key::End)
                } else {
                    None
                }
            } else {
                None
            }
        } else if n[5] == 't' {
            if n == seq!['R', 'S', 'h', 'i', 'f', 't'] {
                Some(Key::ShiftRight)
            } else {
                None
            }
        } else {
            None
        }
    } else if n.len() == 7 {
        if n[3] == 'B' {
            if n == seq!['V', 'K', '_', 'B', 'A', 'C', 'K'] {
                Some(Key::Backspace)
            } else {
                None
            }
        } else if n[3] == 'D' {
            if n == seq!['V', 'K', '_', 'D', 'O', 'W', 'N'] {
                Some(Key::DownArrow)
            } else {
                None
            }
        } else if n[3] == 'H' {
            if n == seq!['V', 'K', '_', 'H', 'O', 'M', 'E'] {
                Some(Key::Home)
            } else {
                None
            }
        } else if n[3] == 'L' {
            if n == seq!['V', 'K', '_', 'L', 'E', 'F', 'T'] {
                Some(Key::LeftArrow)
            } else {
                None
            }
        } else if n[3] == 'M' {
            if n == seq!['V', 'K', '_', 'M', 'E', 'N', 'U'] {
                Some(Key::Alt)
            } else {
                None
            }
        } else if n[3] == 'N' {
            if n == seq!['V', 'K', '_', 'N', 'E', 'X', 'T'] {
                Some(Key::PageDown)
            } else {
                None
            }
        } else if n[3] == 'P' {
            if n == seq!['V', 'K', '_', 'P', 'L', 'U', 'S'] {
                Some(Key::KpEqual)
            } else {
                None
            }
        } else {
            None
        }
    } else if n.len() == 8 {
        if n[4] == 'H' {
            if n == seq!['V', 'K', '_', 'S', 'H', 'I', 'F', 'T'] {
                Some(Key::ShiftLeft)
            } else {
                None
            }
        } else if n[4] == 'I' {
            if n == seq!['V', 'K', '_', 'R', 'I', 'G', 'H', 'T'] {
                Some(Key::RightArrow)
            } else {
                None
            }
        } else if n[4] == 'N' {
            if n == seq!['V', 'K', '_', 'E', 'N', 'T', 'E', 'R'] {
                Some(Key::Return)
            } else {
                None
            }
        } else if n[4] == 'P' {
            if n == seq!['V', 'K', '_', 'S', 'P', 'A', 'C', 'E'] {
                Some(Key::Space)
            } else {
                None
            }
        } else if n[4] == 'R' {
            if n == seq!['V', 'K', '_', 'P', 'R', 'I', 'O', 'R'] {
                Some(Key::PageUp)
            } else {
                None
            }
        } else if n[4] == 't' {
            if n == seq!['R', 'C', 'o', 'n', 't', 'r', 'o', 'l'] {
                Some(Key::ControlRight)
            } else {
                None
            }
        } else {
            None
        }
    } else if n.len() == 9 {
        if n[4] == 'E' {
            if n == seq!['V', 'K', '_', 'D', 'E', 'L', 'E', 'T', 'E'] {
                Some(Key::Delete)
            } else {
                None
            }
        } else if n[4] == 'I' {
            if n == seq!['V', 'K', '_', 'D', 'I', 'V', 'I', 'D', 'E'] {
                Some(Key::KpDivide)
            } else {
                None
            }
        } else if n[4] == 'N' {
            if n == seq!['V', 'K', '_', 'I', 'N', 'S', 'E', 'R', 'T'] {
                Some(Key::Insert)
            } else {
                None
            }
        } else if n[4] == 'S' {
            if n == seq!['V', 'K', '_', 'E', 'S', 'C', 'A', 'P', 'E'] {
                Some(Key::Escape)
            } else {
                None
            }
        } else {
            None
        }
    } else {
        None
    }
}

/// The key that a name is read back as: the keypad Enter shares the name of
/// Enter.
pub open spec fn name_owner(k: Key) -> Key {
    match k {
        Key::KpReturn => Key::Return,
        _ => k,
    }
}

/// Different keys are sent under different names; the one exception is the
/// keypad Enter, sent as Enter.
pub proof fn law_key_names_distinct(k1: Key, k2: Key)
    requires
        k1.spec_name() is Some,
        k2.spec_name() is Some,
        k1.spec_name() == k2.spec_name(),
    ensures
        k1 == k2 || (name_owner(k1) == Key::Return && name_owner(k2) == Key::Return),
{
    lemma_key_named(k1);
    lemma_key_named(k2);
}

#[verifier::rlimit(100)]
proof fn lemma_key_named(k: Key)
    requires
        k.spec_name() is Some,
    ensures
        key_named(k.spec_name()->0) == Some(name_owner(k)),
{
    law_key_names(k);
    match k {
        Key::Alt => {
            assert(k.spec_name()->0 =~= seq!['V', 'K', '_', 'M', 'E', 'N', 'U']);
            assert(key_named(seq!['V', 'K', '_', 'M', 'E', 'N', 'U']) == Some(name_owner(k)));
        },
        Key::AltGr => {
            assert(k.spec_name()->0 =~= seq!['R', 'A', 'l', 't']);
            assert(key_named(seq!['R', 'A', 'l', 't']) == Some(name_owner(k)));
        },
        Key::Backspace => {
            assert(k.spec_name()->0 =~= seq!['V', 'K', '_', 'B', 'A', 'C', 'K']);
            assert(key_named(seq!['V', 'K', '_', 'B', 'A', 'C', 'K']) == Some(name_owner(k)));
        },
        Key::CapsLock => {
            assert(k.spec_name()->0 =~= seq!['V', 'K', '_', 'C', 'A', 'P', 'I', 'T', 'A', 'L']);
            assert(key_named(seq!['V', 'K', '_', 'C', 'A', 'P', 'I', 'T', 'A', 'L']) == Some(name_owner(k)));
        },
        Key::ControlLeft => {
            assert(k.spec_name()->0 =~= seq!['V', 'K', '_', 'C', 'O', 'N', 'T', 'R', 'O', 'L']);
            assert(key_named(seq!['V', 'K', '_', 'C', 'O', 'N', 'T', 'R', 'O', 'L']) == Some(name_owner(k)));
        },
        Key::ControlRight => {
            assert(k.spec_name()->0 =~= seq!['R', 'C', 'o', 'n', 't', 'r', 'o', 'l']);
            assert(key_named(seq!['R', 'C', 'o', 'n', 't', 'r', 'o', 'l']) == Some(name_owner(k)));
        },
        Key::Delete => {
            assert(k.spec_name()->0 =~= seq!['V', 'K', '_', 'D', 'E', 'L', 'E', 'T', 'E']);
            assert(key_named(seq!['V', 'K', '_', 'D', 'E', 'L', 'E', 'T', 'E']) == Some(name_owner(k)));
        },
        Key::End => {
            assert(k.spec_name()->0 =~= seq!['V', 'K', '_', 'E', 'N', 'D']);
            assert(key_named(seq!['V', 'K', '_', 'E', 'N', 'D']) == Some(name_owner(k)));
        },
        Key::Escape => {
            assert(k.spec_name()->0 =~= seq!['V', 'K', '_', 'E', 'S', 'C', 'A', 'P', 'E']);
            assert(key_named(seq!['V', 'K', '_', 'E', 'S', 'C', 'A', 'P', 'E']) == Some(name_owner(k)));
        },
        Key::F1 => {
            assert(k.spec_name()->0 =~= seq!['V', 'K', '_', 'F', '1']);
            assert(key_named(seq!['V', 'K', '_', 'F', '1']) == Some(name_owner(k)));
        },
        Key::F2 => {
            assert(k.spec_name()->0 =~= seq!['V', 'K', '_', 'F', '2']);
            assert(key_named(seq!['V', 'K', '_', 'F', '2']) == Some(name_owner(k)));
        },
        Key::F3 => {
            assert(k.spec_name()->0 =~= seq!['V', 'K', '_', 'F', '3']);
            assert(key_named(seq!['V', 'K', '_', 'F', '3']) == Some(name_owner(k)));
        },
        Key::F4 => {
            assert(k.spec_name()->0 =~= seq!['V', 'K', '_', 'F', '4']);
            assert(key_named(seq!['V', 'K', '_', 'F', '4']) == Some(name_owner(k)));
        },
        Key::F5 => {
            assert(k.spec_name()->0 =~= seq!['V', 'K', '_', 'F', '5']);
            assert(key_named(seq!['V', 'K', '_', 'F', '5']) == Some(name_owner(k)));
        },
        Key::F6 => {
            assert(k.spec_name()->0 =~= seq!['V', 'K', '_', 'F', '6']);
            assert(key_named(seq!['V', 'K', '_', 'F', '6']) == Some(name_owner(k)));
        },
        Key::F7 => {
            assert(k.spec_name()->0 =~= seq!['V', 'K', '_', 'F', '7']);
            assert(key_named(seq!['V', 'K', '_', 'F', '7']) == Some(name_owner(k)));
        },
        Key::F8 => {
            assert(k.spec_name()->0 =~= seq!['V', 'K', '_', 'F', '8']);
            assert(key_named(seq!['V', 'K', '_', 'F', '8']) == Some(name_owner(k)));
        },
        Key::F9 => {
            assert(k.spec_name()->0 =~= seq!['V', 'K', '_', 'F', '9']);
            assert(key_named(seq!['V', 'K', '_', 'F', '9']) == Some(name_owner(k)));
        },
        Key::F10 => {
            assert(k.spec_name()->0 =~= seq!['V', 'K', '_', 'F', '1', '0']);
            assert(key_named(seq!['V', 'K', '_', 'F', '1', '0']) == Some(name_owner(k)));
        },
        Key::F11 => {
            assert(k.spec_name()->0 =~= seq!['V', 'K', '_', 'F', '1', '1']);
            assert(key_named(seq!['V', 'K', '_', 'F', '1', '1']) == Some(name_owner(k)));
        },
        Key::F12 => {
            assert(k.spec_name()->0 =~= seq!['V', 'K', '_', 'F', '1', '2']);
            assert(key_named(seq!['V', 'K', '_', 'F', '1', '2']) == Some(name_owner(k)));
        },
        Key::Home => {
            assert(k.spec_name()->0 =~= seq!['V', 'K', '_', 'H', 'O', 'M', 'E']);
            assert(key_named(seq!['V', 'K', '_', 'H', 'O', 'M', 'E']) == Some(name_owner(k)));
        },
        Key::MetaLeft => {
            assert(k.spec_name()->0 =~= seq!['M', 'e', 't', 'a']);
            assert(key_named(seq!['M', 'e', 't', 'a']) == Some(name_owner(k)));
        },
        Key::MetaRight => {
            assert(k.spec_name()->0 =~= seq!['R', 'W', 'i', 'n']);
            assert(key_named(seq!['R', 'W', 'i', 'n']) == Some(name_owner(k)));
        },
        Key::PageDown => {
            assert(k.spec_name()->0 =~= seq!['V', 'K', '_', 'N', 'E', 'X', 'T']);
            assert(key_named(seq!['V', 'K', '_', 'N', 'E', 'X', 'T']) == Some(name_owner(k)));
        },
        Key::PageUp => {
            assert(k.spec_name()->0 =~= seq!['V', 'K', '_', 'P', 'R', 'I', 'O', 'R']);
            assert(key_named(seq!['V', 'K', '_', 'P', 'R', 'I', 'O', 'R']) == Some(name_owner(k)));
        },
        Key::Return => {
            assert(k.spec_name()->0 =~= seq!['V', 'K', '_', 'E', 'N', 'T', 'E', 'R']);
            assert(key_named(seq!['V', 'K', '_', 'E', 'N', 'T', 'E', 'R']) == Some(name_owner(k)));
        },
        Key::ShiftLeft => {
            assert(k.spec_name()->0 =~= seq!['V', 'K', '_', 'S', 'H', 'I', 'F', 'T']);
            assert(key_named(seq!['V', 'K', '_', 'S', 'H', 'I', 'F', 'T']) == Some(name_owner(k)));
        },
        Key::ShiftRight => {
            assert(k.spec_name()->0 =~= seq!['R', 'S', 'h', 'i', 'f', 't']);
            assert(key_named(seq!['R', 'S', 'h', 'i', 'f', 't']) == Some(name_owner(k)));
        },
        Key::Space => {
            assert(k.spec_name()->0 =~= seq!['V', 'K', '_', 'S', 'P', 'A', 'C', 'E']);
            assert(key_named(seq!['V', 'K', '_', 'S', 'P', 'A', 'C', 'E']) == Some(name_owner(k)));
        },
        Key::Tab => {
            assert(k.spec_name()->0 =~= seq!['V', 'K', '_', 'T', 'A', 'B']);
            assert(key_named(seq!['V', 'K', '_', 'T', 'A', 'B']) == Some(name_owner(k)));
        },
        Key::LeftArrow => {
            assert(k.spec_name()->0 =~= seq!['V', 'K', '_', 'L', 'E', 'F', 'T']);
            assert(key_named(seq!['V', 'K', '_', 'L', 'E', 'F', 'T']) == Some(name_owner(k)));
        },
        Key::UpArrow => {
            assert(k.spec_name()->0 =~= seq!['V', 'K', '_', 'U', 'P']);
            assert(key_named(seq!['V', 'K', '_', 'U', 'P']) == Some(name_owner(k)));
        },
        Key::RightArrow => {
            assert(k.spec_name()->0 =~= seq!['V', 'K', '_', 'R', 'I', 'G', 'H', 'T']);
            assert(key_named(seq!['V', 'K', '_', 'R', 'I', 'G', 'H', 'T']) == Some(name_owner(k)));
        },
        Key::DownArrow => {
            assert(k.spec_name()->0 =~= seq!['V', 'K', '_', 'D', 'O', 'W', 'N']);
            assert(key_named(seq!['V', 'K', '_', 'D', 'O', 'W', 'N']) == Some(name_owner(k)));
        },
        Key::PrintScreen => {
            assert(k.spec_name()->0 =~= seq!['V', 'K', '_', 'S', 'N', 'A', 'P', 'S', 'H', 'O', 'T']);
            assert(key_named(seq!['V', 'K', '_', 'S', 'N', 'A', 'P', 'S', 'H', 'O', 'T']) == Some(name_owner(k)));
        },
        Key::Num1 => {
            assert(k.spec_name()->0 =~= seq!['V', 'K', '_', '1']);
            assert(key_named(seq!['V', 'K', '_', '1']) == Some(name_owner(k)));
        },
        Key::Num2 => {
            assert(k.spec_name()->0 =~= seq!['V', 'K', '_', '2']);
            assert(key_named(seq!['V', 'K', '_', '2']) == Some(name_owner(k)));
        },
        Key::Num3 => {
            assert(k.spec_name()->0 =~= seq!['V', 'K', '_', '3']);
            assert(key_named(seq!['V', 'K', '_', '3']) == Some(name_owner(k)));
        },
        Key::Num4 => {
            assert(k.spec_name()->0 =~= seq!['V', 'K', '_', '4']);
            assert(key_named(seq!['V', 'K', '_', '4']) == Some(name_owner(k)));
        },
        Key::Num5 => {
            assert(k.spec_name()->0 =~= seq!['V', 'K', '_', '5']);
            assert(key_named(seq!['V', 'K', '_', '5']) == Some(name_owner(k)));
        },
        Key::Num6 => {
            assert(k.spec_name()->0 =~= seq!['V', 'K', '_', '6']);
            assert(key_named(seq!['V', 'K', '_', '6']) == Some(name_owner(k)));
        },
        Key::Num7 => {
            assert(k.spec_name()->0 =~= seq!['V', 'K', '_', '7']);
            assert(key_named(seq!['V', 'K', '_', '7']) == Some(name_owner(k)));
        },
        Key::Num8 => {
            assert(k.spec_name()->0 =~= seq!['V', 'K', '_', '8']);
            assert(key_named(seq!['V', 'K', '_', '8']) == Some(name_owner(k)));
        },
        Key::Num9 => {
            assert(k.spec_name()->0 =~= seq!['V', 'K', '_', '9']);
            assert(key_named(seq!['V', 'K', '_', '9']) == Some(name_owner(k)));
        },
        Key::Num0 => {
            assert(k.spec_name()->0 =~= seq!['V', 'K', '_', '0']);
            assert(key_named(seq!['V', 'K', '_', '0']) == Some(name_owner(k)));
        },
        Key::Minus => {
            assert(k.spec_name()->0 =~= seq!['-']);
            assert(key_named(seq!['-']) == Some(name_owner(k)));
        },
        Key::Equal => {
            assert(k.spec_name()->0 =~= seq!['=']);
            assert(key_named(seq!['=']) == Some(name_owner(k)));
        },
        Key::KeyQ => {
            assert(k.spec_name()->0 =~= seq!['V', 'K', '_', 'Q']);
            assert(key_named(seq!['V', 'K', '_', 'Q']) == Some(name_owner(k)));
        },
        Key::KeyW => {
            assert(k.spec_name()->0 =~= seq!['V', 'K', '_', 'W']);
            assert(key_named(seq!['V', 'K', '_', 'W']) == Some(name_owner(k)));
        },
        Key::KeyE => {
            assert(k.spec_name()->0 =~= seq!['V', 'K', '_', 'E']);
            assert(key_named(seq!['V', 'K', '_', 'E']) == Some(name_owner(k)));
        },
        Key::KeyR => {
            assert(k.spec_name()->0 =~= seq!['V', 'K', '_', 'R']);
            assert(key_named(seq!['V', 'K', '_', 'R']) == Some(name_owner(k)));
        },
        Key::KeyT => {
            assert(k.spec_name()->0 =~= seq!['V', 'K', '_', 'T']);
            assert(key_named(seq!['V', 'K', '_', 'T']) == Some(name_owner(k)));
        },
        Key::KeyY => {
            assert(k.spec_name()->0 =~= seq!['V', 'K', '_', 'Y']);
            assert(key_named(seq!['V', 'K', '_', 'Y']) == Some(name_owner(k)));
        },
        Key::KeyU => {
            assert(k.spec_name()->0 =~= seq!['V', 'K', '_', 'U']);
            assert(key_named(seq!['V', 'K', '_', 'U']) == Some(name_owner(k)));
        },
        Key::KeyI => {
            assert(k.spec_name()->0 =~= seq!['V', 'K', '_', 'I']);
            assert(key_named(seq!['V', 'K', '_', 'I']) == Some(name_owner(k)));
        },
        Key::KeyO => {
            assert(k.spec_name()->0 =~= seq!['V', 'K', '_', 'O']);
            assert(key_named(seq!['V', 'K', '_', 'O']) == Some(name_owner(k)));
        },
        Key::KeyP => {
            assert(k.spec_name()->0 =~= seq!['V', 'K', '_', 'P']);
            assert(key_named(seq!['V', 'K', '_', 'P']) == Some(name_owner(k)));
        },
        Key::KeyA => {
            assert(k.spec_name()->0 =~= seq!['V', 'K', '_', 'A']);
            assert(key_named(seq!['V', 'K', '_', 'A']) == Some(name_owner(k)));
        },
        Key::KeyS => {
            assert(k.spec_name()->0 =~= seq!['V', 'K', '_', 'S']);
            assert(key_named(seq!['V', 'K', '_', 'S']) == Some(name_owner(k)));
        },
        Key::KeyD => {
            assert(k.spec_name()->0 =~= seq!['V', 'K', '_', 'D']);
            assert(key_named(seq!['V', 'K', '_', 'D']) == Some(name_owner(k)));
        },
        Key::KeyF => {
            assert(k.spec_name()->0 =~= seq!['V', 'K', '_', 'F']);
            assert(key_named(seq!['V', 'K', '_', 'F']) == Some(name_owner(k)));
        },
        Key::KeyG => {
            assert(k.spec_name()->0 =~= seq!['V', 'K', '_', 'G']);
            assert(key_named(seq!['V', 'K', '_', 'G']) == Some(name_owner(k)));
        },
        Key::KeyH => {
            assert(k.spec_name()->0 =~= seq!['V', 'K', '_', 'H']);
            assert(key_named(seq!['V', 'K', '_', 'H']) == Some(name_owner(k)));
        },
        Key::KeyJ => {
            assert(k.spec_name()->0 =~= seq!['V', 'K', '_', 'J']);
            assert(key_named(seq!['V', 'K', '_', 'J']) == Some(name_owner(k)));
        },
        Key::KeyK => {
            assert(k.spec_name()->0 =~= seq!['V', 'K', '_', 'K']);
            assert(key_named(seq!['V', 'K', '_', 'K']) == Some(name_owner(k)));
        },
        Key::KeyL => {
            assert(k.spec_name()->0 =~= seq!['V', 'K', '_', 'L']);
            assert(key_named(seq!['V', 'K', '_', 'L']) == Some(name_owner(k)));
        },
        Key::KeyZ => {
            assert(k.spec_name()->0 =~= seq!['V', 'K', '_', 'Z']);
            assert(key_named(seq!['V', 'K', '_', 'Z']) == Some(name_owner(k)));
        },
        Key::KeyX => {
            assert(k.spec_name()->0 =~= seq!['V', 'K', '_', 'X']);
            assert(key_named(seq!['V', 'K', '_', 'X']) == Some(name_owner(k)));
        },
        Key::KeyC => {
            assert(k.spec_name()->0 =~= seq!['V', 'K', '_', 'C']);
            assert(key_named(seq!['V', 'K', '_', 'C']) == Some(name_owner(k)));
        },
        Key::KeyV => {
            assert(k.spec_name()->0 =~= seq!['V', 'K', '_', 'V']);
            assert(key_named(seq!['V', 'K', '_', 'V']) == Some(name_owner(k)));
        },
        Key::KeyB => {
            assert(k.spec_name()->0 =~= seq!['V', 'K', '_', 'B']);
            assert(key_named(seq!['V', 'K', '_', 'B']) == Some(name_owner(k)));
        },
        Key::KeyN => {
            assert(k.spec_name()->0 =~= seq!['V', 'K', '_', 'N']);
            assert(key_named(seq!['V', 'K', '_', 'N']) == Some(name_owner(k)));
        },
        Key::KeyM => {
            assert(k.spec_name()->0 =~= seq!['V', 'K', '_', 'M']);
            assert(key_named(seq!['V', 'K', '_', 'M']) == Some(name_owner(k)));
        },
        Key::LeftBracket => {
            assert(k.spec_name()->0 =~= seq!['[']);
            assert(key_named(seq!['[']) == Some(name_owner(k)));
        },
        Key::RightBracket => {
            assert(k.spec_name()->0 =~= seq![']']);
            assert(key_named(seq![']']) == Some(name_owner(k)));
        },
        Key::SemiColon => {
            assert(k.spec_name()->0 =~= seq![';']);
            assert(key_named(seq![';']) == Some(name_owner(k)));
        },
        Key::Quote => {
            assert(k.spec_name()->0 =~= seq!['\'']);
            assert(key_named(seq!['\'']) == Some(name_owner(k)));
        },
        Key::BackSlash => {
            assert(k.spec_name()->0 =~= seq!['\\']);
            assert(key_named(seq!['\\']) == Some(name_owner(k)));
        },
        Key::Comma => {
            assert(k.spec_name()->0 =~= seq![',']);
            assert(key_named(seq![',']) == Some(name_owner(k)));
        },
        Key::Dot => {
            assert(k.spec_name()->0 =~= seq!['.']);
            assert(key_named(seq!['.']) == Some(name_owner(k)));
        },
        Key::Slash => {
            assert(k.spec_name()->0 =~= seq!['/']);
            assert(key_named(seq!['/']) == Some(name_owner(k)));
        },
        Key::Insert => {
            assert(k.spec_name()->0 =~= seq!['V', 'K', '_', 'I', 'N', 'S', 'E', 'R', 'T']);
            assert(key_named(seq!['V', 'K', '_', 'I', 'N', 'S', 'E', 'R', 'T']) == Some(name_owner(k)));
        },
        Key::KpReturn => {
            assert(k.spec_name()->0 =~= seq!['V', 'K', '_', 'E', 'N', 'T', 'E', 'R']);
            assert(key_named(seq!['V', 'K', '_', 'E', 'N', 'T', 'E', 'R']) == Some(name_owner(k)));
        },
        Key::KpMinus => {
            assert(k.spec_name()->0 =~= seq!['V', 'K', '_', 'S', 'U', 'B', 'T', 'R', 'A', 'C', 'T']);
            assert(key_named(seq!['V', 'K', '_', 'S', 'U', 'B', 'T', 'R', 'A', 'C', 'T']) == Some(name_owner(k)));
        },
        Key::KpPlus => {
            assert(k.spec_name()->0 =~= seq!['V', 'K', '_', 'A', 'D', 'D']);
            assert(key_named(seq!['V', 'K', '_', 'A', 'D', 'D']) == Some(name_owner(k)));
        },
        Key::KpMultiply => {
            assert(k.spec_name()->0 =~= seq!['V', 'K', '_', 'M', 'U', 'L', 'T', 'I', 'P', 'L', 'Y']);
            assert(key_named(seq!['V', 'K', '_', 'M', 'U', 'L', 'T', 'I', 'P', 'L', 'Y']) == Some(name_owner(k)));
        },
        Key::KpDivide => {
            assert(k.spec_name()->0 =~= seq!['V', 'K', '_', 'D', 'I', 'V', 'I', 'D', 'E']);
            assert(key_named(seq!['V', 'K', '_', 'D', 'I', 'V', 'I', 'D', 'E']) == Some(name_owner(k)));
        },
        Key::KpDecimal => {
            assert(k.spec_name()->0 =~= seq!['V', 'K', '_', 'D', 'E', 'C', 'I', 'M', 'A', 'L']);
            assert(key_named(seq!['V', 'K', '_', 'D', 'E', 'C', 'I', 'M', 'A', 'L']) == Some(name_owner(k)));
        },
        Key::KpEqual => {
            assert(k.spec_name()->0 =~= seq!['V', 'K', '_', 'P', 'L', 'U', 'S']);
            assert(key_named(seq!['V', 'K', '_', 'P', 'L', 'U', 'S']) == Some(name_owner(k)));
        },
        Key::Kp0 => {
            assert(k.spec_name()->0 =~= seq!['V', 'K', '_', 'N', 'U', 'M', 'P', 'A', 'D', '0']);
            assert(key_named(seq!['V', 'K', '_', 'N', 'U', 'M', 'P', 'A', 'D', '0']) == Some(name_owner(k)));
        },
        Key::Kp1 => {
            assert(k.spec_name()->0 =~= seq!['V', 'K', '_', 'N', 'U', 'M', 'P', 'A', 'D', '1']);
            assert(key_named(seq!['V', 'K', '_', 'N', 'U', 'M', 'P', 'A', 'D', '1']) == Some(name_owner(k)));
        },
        Key::Kp2 => {
            assert(k.spec_name()->0 =~= seq!['V', 'K', '_', 'N', 'U', 'M', 'P', 'A', 'D', '2']);
            assert(key_named(seq!['V', 'K', '_', 'N', 'U', 'M', 'P', 'A', 'D', '2']) == Some(name_owner(k)));
        },
        Key::Kp3 => {
            assert(k.spec_name()->0 =~= seq!['V', 'K', '_', 'N', 'U', 'M', 'P', 'A', 'D', '3']);
            assert(key_named(seq!['V', 'K', '_', 'N', 'U', 'M', 'P', 'A', 'D', '3']) == Some(name_owner(k)));
        },
        Key::Kp4 => {
            assert(k.spec_name()->0 =~= seq!['V', 'K', '_', 'N', 'U', 'M', 'P', 'A', 'D', '4']);
            assert(key_named(seq!['V', 'K', '_', 'N', 'U', 'M', 'P', 'A', 'D', '4']) == Some(name_owner(k)));
        },
        Key::Kp5 => {
            assert(k.spec_name()->0 =~= seq!['V', 'K', '_', 'N', 'U', 'M', 'P', 'A', 'D', '5']);
            assert(key_named(seq!['V', 'K', '_', 'N', 'U', 'M', 'P', 'A', 'D', '5']) == Some(name_owner(k)));
        },
        Key::Kp6 => {
            assert(k.spec_name()->0 =~= seq!['V', 'K', '_', 'N', 'U', 'M', 'P', 'A', 'D', '6']);
            assert(key_named(seq!['V', 'K', '_', 'N', 'U', 'M', 'P', 'A', 'D', '6']) == Some(name_owner(k)));
        },
        Key::Kp7 => {
            assert(k.spec_name()->0 =~= seq!['V', 'K', '_', 'N', 'U', 'M', 'P', 'A', 'D', '7']);
            assert(key_named(seq!['V', 'K', '_', 'N', 'U', 'M', 'P', 'A', 'D', '7']) == Some(name_owner(k)));
        },
        Key::Kp8 => {
            assert(k.spec_name()->0 =~= seq!['V', 'K', '_', 'N', 'U', 'M', 'P', 'A', 'D', '8']);
            assert(key_named(seq!['V', 'K', '_', 'N', 'U', 'M', 'P', 'A', 'D', '8']) == Some(name_owner(k)));
        },
        Key::Kp9 => {
            assert(k.spec_name()->0 =~= seq!['V', 'K', '_', 'N', 'U', 'M', 'P', 'A', 'D', '9']);
            assert(key_named(seq!['V', 'K', '_', 'N', 'U', 'M', 'P', 'A', 'D', '9']) == Some(name_owner(k)));
        },
        Key::BackQuote => {
            assert(k.spec_name()->0 =~= seq!['`']);
            assert(key_named(seq!['`']) == Some(name_owner(k)));
        },
        _ => {},
    }
}

} // verus!
