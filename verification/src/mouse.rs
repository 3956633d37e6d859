use vstd::prelude::*;

verus! {

/// Mouse event kinds carried in the low three bits of a mouse mask.
pub const MOUSE_TYPE_MOVE: i32 = 0;
pub const MOUSE_TYPE_DOWN: i32 = 1;
pub const MOUSE_TYPE_UP: i32 = 2;
pub const MOUSE_TYPE_WHEEL: i32 = 3;
pub const MOUSE_TYPE_TRACKPAD: i32 = 4;

/// Mouse buttons carried in the bits above the event kind.
pub const MOUSE_BUTTON_LEFT: i32 = 1;
pub const MOUSE_BUTTON_RIGHT: i32 = 2;
pub const MOUSE_BUTTON_WHEEL: i32 = 4;
pub const MOUSE_BUTTON_BACK: i32 = 8;
pub const MOUSE_BUTTON_FORWARD: i32 = 16;

/// The kind of mouse event written to the session log.
#[allow(non_camel_case_types)]
#[derive(Clone, Copy, Debug, PartialEq, Eq, Structural)]
pub enum MouseLogEvents {
    LB_DOWN,
    LB_UP,
    RB_DOWN,
    RB_UP,
    MID_DOWN,
    MID_UP,
    SCROLL,
    UNDEFINED,
}

/// The button part of a mask: the mask shifted right by three bits.
pub open spec fn mask_buttons(mask: int) -> int {
    mask / 8
}

/// The event-kind part of a mask: its three lowest bits.
pub open spec fn mask_type(mask: int) -> int {
    mask % 8
}

/// The log event that a mouse mask stands for.
pub open spec fn spec_mouse_event(mask: int) -> MouseLogEvents {
    let buttons = mask_buttons(mask);
    let t = mask_type(mask);
    if t == MOUSE_TYPE_DOWN {
        if buttons == MOUSE_BUTTON_LEFT {
            MouseLogEvents::LB_DOWN
        } else if buttons == MOUSE_BUTTON_RIGHT {
            MouseLogEvents::RB_DOWN
        } else if buttons == MOUSE_BUTTON_WHEEL {
            MouseLogEvents::MID_DOWN
        } else {
            MouseLogEvents::UNDEFINED
        }
    } else if t == MOUSE_TYPE_UP {
        if buttons == MOUSE_BUTTON_LEFT {
            MouseLogEvents::LB_UP
        } else if buttons == MOUSE_BUTTON_RIGHT {
            MouseLogEvents::RB_UP
        } else if buttons == MOUSE_BUTTON_WHEEL {
            MouseLogEvents::MID_UP
        } else {
            MouseLogEvents::UNDEFINED
        }
    } else if t == MOUSE_TYPE_WHEEL || t == MOUSE_TYPE_TRACKPAD {
        MouseLogEvents::SCROLL
    } else {
        MouseLogEvents::UNDEFINED
    }
}

/// Decodes a mouse mask (`buttons << 3 | type`) into the event to log.
pub fn get_mouse_event_from_mask(mask: i32) -> (r: MouseLogEvents)
    ensures
        r == spec_mouse_event(mask as int),
{
    let buttons = mask >> 3;
    let evt_type = mask & 0x7;
    assert(buttons as int == mask as int / 8 && evt_type as int == mask as int % 8) by (bit_vector)
        requires
            buttons == mask >> 3,
            evt_type == mask & 0x7,
    ;
    if evt_type == MOUSE_TYPE_DOWN {
        if buttons == MOUSE_BUTTON_LEFT {
            MouseLogEvents::LB_DOWN
        } else if buttons == MOUSE_BUTTON_RIGHT {
            MouseLogEvents::RB_DOWN
        } else if buttons == MOUSE_BUTTON_WHEEL {
            MouseLogEvents::MID_DOWN
        } else {
            MouseLogEvents::UNDEFINED
        }
    } else if evt_type == MOUSE_TYPE_UP {
        if buttons == MOUSE_BUTTON_LEFT {
            MouseLogEvents::LB_UP
        } else if buttons == MOUSE_BUTTON_RIGHT {
            MouseLogEvents::RB_UP
        } else if buttons == MOUSE_BUTTON_WHEEL {
            MouseLogEvents::MID_UP
        } else {
            MouseLogEvents::UNDEFINED
        }
    } else if evt_type == MOUSE_TYPE_WHEEL || evt_type == MOUSE_TYPE_TRACKPAD {
        MouseLogEvents::SCROLL
    } else {
        MouseLogEvents::UNDEFINED
    }
}

impl MouseLogEvents {
    /// The bare name of the event, such as `LB_DOWN`.
    pub open spec fn spec_name(self) -> Seq<char> {
        match self {
            MouseLogEvents::LB_DOWN => "LB_DOWN"@,
            MouseLogEvents::LB_UP => "LB_UP"@,
            MouseLogEvents::RB_DOWN => "RB_DOWN"@,
            MouseLogEvents::RB_UP => "RB_UP"@,
            MouseLogEvents::MID_DOWN => "MID_DOWN"@,
            MouseLogEvents::MID_UP => "MID_UP"@,
            MouseLogEvents::SCROLL => "SCROLL"@,
            MouseLogEvents::UNDEFINED => "UNDEFINED"@,
        }
    }

    /// The bare name of the event.
    pub fn name(&self) -> (r: &'static str)
        ensures
            r@ == self.spec_name(),
    {
        match self {
            MouseLogEvents::LB_DOWN => "LB_DOWN",
            MouseLogEvents::LB_UP => "LB_UP",
            MouseLogEvents::RB_DOWN => "RB_DOWN",
            MouseLogEvents::RB_UP => "RB_UP",
            MouseLogEvents::MID_DOWN => "MID_DOWN",
            MouseLogEvents::MID_UP => "MID_UP",
            MouseLogEvents::SCROLL => "SCROLL",
            MouseLogEvents::UNDEFINED => "UNDEFINED",
        }
    }

    /// The text the event is logged as: its name in double quotes, as the
    /// debug rendering of the name gives it (`"LB_DOWN"`, quotes included).
    pub fn to_string(&self) -> (r: String)
        ensures
            r@ == seq!['"'] + self.spec_name() + seq!['"'],
    {
        let mut s = String::from_str("\"");
        s.append(self.name());
        s.append("\"");
        proof {
            reveal_strlit("\"");
        }
        s
    }
}

/// Each event kind is logged under its own identifier, so different kinds
/// are logged under different names.
pub proof fn law_event_names(e1: MouseLogEvents, e2: MouseLogEvents)
    ensures
        MouseLogEvents::LB_DOWN.spec_name() =~= seq!['L', 'B', '_', 'D', 'O', 'W', 'N'],
        MouseLogEvents::LB_UP.spec_name() =~= seq!['L', 'B', '_', 'U', 'P'],
        MouseLogEvents::RB_DOWN.spec_name() =~= seq!['R', 'B', '_', 'D', 'O', 'W', 'N'],
        MouseLogEvents::RB_UP.spec_name() =~= seq!['R', 'B', '_', 'U', 'P'],
        MouseLogEvents::MID_DOWN.spec_name() =~= seq!['M', 'I', 'D', '_', 'D', 'O', 'W', 'N'],
        MouseLogEvents::MID_UP.spec_name() =~= seq!['M', 'I', 'D', '_', 'U', 'P'],
        MouseLogEvents::SCROLL.spec_name() =~= seq!['S', 'C', 'R', 'O', 'L', 'L'],
        MouseLogEvents::UNDEFINED.spec_name() =~= seq!['U', 'N', 'D', 'E', 'F', 'I', 'N', 'E', 'D'],
        e1 != e2 ==> e1.spec_name() != e2.spec_name(),
{
    reveal_strlit("LB_DOWN");
    reveal_strlit("LB_UP");
    reveal_strlit("RB_DOWN");
    reveal_strlit("RB_UP");
    reveal_strlit("MID_DOWN");
    reveal_strlit("MID_UP");
    reveal_strlit("SCROLL");
    reveal_strlit("UNDEFINED");
    if e1 != e2 && e1.spec_name() == e2.spec_name() {
        let n = e1.spec_name();
        assert(n[0] == e2.spec_name()[0]);
        assert(n.len() == e2.spec_name().len());
        if n.len() > 2 {
            assert(n[2] == e2.spec_name()[2]);
        }
        if n.len() > 4 {
            assert(n[4] == e2.spec_name()[4]);
        }
    }
}

/// Standard mouse buttons, as the input hook reports them.
#[derive(Clone, Copy, Debug, PartialEq, Eq, Structural)]
pub enum Button {
    Left,
    Right,
    Middle,
    Unknown(u8),
}

/// The button bits that a button sets in a mask; other buttons set none.
pub open spec fn spec_button_code(b: Button) -> i32 {
    match b {
        Button::Left => MOUSE_BUTTON_LEFT,
        Button::Right => MOUSE_BUTTON_RIGHT,
        Button::Middle => MOUSE_BUTTON_WHEEL,
        Button::Unknown(_) => 0,
    }
}

/// The button bits that a button sets in a mask.
pub fn button_code(b: Button) -> (r: i32)
    ensures
        r == spec_button_code(b),
{
    match b {
        Button::Left => MOUSE_BUTTON_LEFT,
        Button::Right => MOUSE_BUTTON_RIGHT,
        Button::Middle => MOUSE_BUTTON_WHEEL,
        Button::Unknown(_) => 0,
    }
}

/// The mask sent for an event of kind `mouse_type` on `button`.
pub open spec fn spec_mouse_mask(mouse_type: i32, button: Button) -> i32 {
    mouse_type | (spec_button_code(button) << 3u32)
}

/// Builds the mask `mouse_type | button_bits << 3` that the client sends.
pub fn mouse_mask(mouse_type: i32, button: Button) -> (r: i32)
    ensures
        r == spec_mouse_mask(mouse_type, button),
{
    mouse_type | (button_code(button) << 3u32)
}

/// The event logged for a press of `b`.
pub open spec fn pressed_event(b: Button) -> MouseLogEvents {
    match b {
        Button::Left => MouseLogEvents::LB_DOWN,
        Button::Right => MouseLogEvents::RB_DOWN,
        Button::Middle => MouseLogEvents::MID_DOWN,
        Button::Unknown(_) => MouseLogEvents::UNDEFINED,
    }
}

/// The event logged for a release of `b`.
pub open spec fn released_event(b: Button) -> MouseLogEvents {
    match b {
        Button::Left => MouseLogEvents::LB_UP,
        Button::Right => MouseLogEvents::RB_UP,
        Button::Middle => MouseLogEvents::MID_UP,
        Button::Unknown(_) => MouseLogEvents::UNDEFINED,
    }
}

proof fn lemma_small_or(t: i32, c: i32)
    requires
        0 <= t < 8,
        0 <= c <= 4,
    ensures
        (t | (c << 3u32)) as int == t + 8 * c,
{
    assert((t | (c << 3u32)) as int == t + 8 * c) by (bit_vector)
        requires
            0 <= t < 8,
            0 <= c <= 4,
    ;
}

/// A mask built by the client decodes on the server to the event it was
/// built for: a press of a button logs that button's `DOWN` event, a
/// release its `UP` event, and a wheel turn logs `SCROLL`, whatever the button.
pub proof fn law_mask_round_trip(b: Button)
    ensures
        spec_mouse_event(spec_mouse_mask(MOUSE_TYPE_DOWN, b) as int) == pressed_event(b),
        spec_mouse_event(spec_mouse_mask(MOUSE_TYPE_UP, b) as int) == released_event(b),
        spec_mouse_event(spec_mouse_mask(MOUSE_TYPE_WHEEL, b) as int) == MouseLogEvents::SCROLL,
{
    let c = spec_button_code(b);
    lemma_small_or(MOUSE_TYPE_DOWN, c);
    lemma_small_or(MOUSE_TYPE_UP, c);
    lemma_small_or(MOUSE_TYPE_WHEEL, c);
}

} // verus!
