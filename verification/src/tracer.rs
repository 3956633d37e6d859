use vstd::prelude::*;
use crate::keys::{Key, convert_key_name};
use crate::mouse::{
    Button,
    mouse_mask,
    spec_mouse_mask,
    MOUSE_TYPE_DOWN,
    MOUSE_TYPE_UP,
    MOUSE_TYPE_WHEEL,
};

verus! {

broadcast use vstd::seq_lib::group_seq_properties;

/// The keys currently held down, each recorded once.
pub struct KeyBuffer {
    keys: Vec<Key>,
}

impl KeyBuffer {
    /// Each key is recorded at most once.
    pub closed spec fn wf(self) -> bool {
        self.keys@.no_duplicates()
    }

    /// The set of keys held down.
    pub closed spec fn held(self) -> Set<Key> {
        Set::new(|k: Key| self.keys@.contains(k))
    }

    /// An empty buffer.
    pub fn new() -> (r: KeyBuffer)
        ensures
            r.wf(),
            r.held() == Set::<Key>::empty(),
    {
        let r = KeyBuffer { keys: Vec::new() };
        assert(r.held() =~= Set::<Key>::empty());
        r
    }

    /// Whether `key` is held down.
    pub fn contains(&self, key: Key) -> (r: bool)
        ensures
            r == self.held().contains(key),
    {
        let n = self.keys.len();
        let mut i: usize = 0;
        while i < n
            invariant
                n == self.keys@.len(),
                i <= n,
                forall|j: int| 0 <= j < i ==> self.keys@[j] != key,
            decreases n - i,
        {
            if self.keys[i] == key {
                return true;
            }
            i += 1;
        }
        false
    }

    /// Records `key` as held down; a key already held is not recorded twice.
    pub fn insert(&mut self, key: Key)
        requires
            old(self).wf(),
        ensures
            final(self).wf(),
            final(self).held() == old(self).held().insert(key),
    {
        if !self.contains(key) {
            self.keys.push(key);
        }
        assert(self.held() =~= old(self).held().insert(key));
    }

    /// Records `key` as released.
    pub fn remove(&mut self, key: Key)
        requires
            old(self).wf(),
        ensures
            final(self).wf(),
            final(self).held() == old(self).held().remove(key),
    {
        let n = self.keys.len();
        let mut i: usize = 0;
        while i < n
            invariant
                n == self.keys@.len(),
                i <= n,
                self.keys@ == old(self).keys@,
                self.keys@.no_duplicates(),
                forall|j: int| 0 <= j < i ==> self.keys@[j] != key,
            decreases n - i,
        {
            if self.keys[i] == key {
                let ghost before = self.keys@;
                self.keys.remove(i);
                proof {
                    assert(self.keys@ == before.remove(i as int));
                    assert forall|a: int, b: int|
                        0 <= a < self.keys@.len() && 0 <= b < self.keys@.len() && a != b
                        implies self.keys@[a] != self.keys@[b] by {
                        let a0 = if a < i { a } else { a + 1 };
                        let b0 = if b < i { b } else { b + 1 };
                        assert(before[a0] != before[b0]);
                    }
                    assert forall|k: Key| #[trigger] self.keys@.contains(k) <==> (
                    before.contains(k) && k != key) by {
                        if self.keys@.contains(k) {
                            let p = choose|p: int| 0 <= p < self.keys@.len() && self.keys@[p] == k;
                            let p0 = if p < i { p } else { p + 1 };
                            assert(before[p0] == k);
                            assert(p0 != i);
                        }
                        if before.contains(k) && k != key {
                            let p = choose|p: int| 0 <= p < before.len() && before[p] == k;
                            assert(p != i);
                            let p1 = if p < i { p } else { p - 1 };
                            assert(self.keys@[p1] == k);
                        }
                    }
                    assert(self.held() =~= old(self).held().remove(key));
                }
                return;
            }
            i += 1;
        }
        assert(self.held() =~= old(self).held().remove(key));
    }
}

/// The modifier flags sent with an input event.
#[derive(Clone, Copy, Debug, PartialEq, Eq, Structural)]
pub struct Modifiers {
    pub alt: bool,
    pub ctrl: bool,
    pub shift: bool,
    pub command: bool,
}

/// Alt, left Control, left Shift and left Meta, read off the held keys.
pub open spec fn spec_modifiers(held: Set<Key>) -> Modifiers {
    Modifiers {
        alt: held.contains(Key::Alt),
        ctrl: held.contains(Key::ControlLeft),
        shift: held.contains(Key::ShiftLeft),
        command: held.contains(Key::MetaLeft),
    }
}

/// Each modifier flag sent with an event reads its own key among the held
/// ones: Alt from `Alt`, Control from the left Control key, Shift from the
/// left Shift key, Command from the left Meta key, and nothing else.
pub proof fn law_modifier_flags(held: Set<Key>)
    ensures
        spec_modifiers(held).alt <==> held.contains(Key::Alt),
        spec_modifiers(held).ctrl <==> held.contains(Key::ControlLeft),
        spec_modifiers(held).shift <==> held.contains(Key::ShiftLeft),
        spec_modifiers(held).command <==> held.contains(Key::MetaLeft),
        spec_modifiers(held) == spec_modifiers(held.remove(Key::CapsLock)),
        spec_modifiers(held) == spec_modifiers(held.insert(Key::CapsLock)),
{
    assert(held.remove(Key::CapsLock).contains(Key::ShiftLeft) == held.contains(Key::ShiftLeft));
    assert(held.insert(Key::CapsLock).contains(Key::ShiftLeft) == held.contains(Key::ShiftLeft));
}

/// The modifier flags of the held keys.
pub fn modifier_flags(held: &KeyBuffer) -> (r: Modifiers)
    ensures
        r == spec_modifiers(held.held()),
{
    Modifiers {
        alt: held.contains(Key::Alt),
        ctrl: held.contains(Key::ControlLeft),
        shift: held.contains(Key::ShiftLeft),
        command: held.contains(Key::MetaLeft),
    }
}

/// A mouse event as the client sends it to the remote session.
#[derive(Clone, Copy, Debug, PartialEq, Eq, Structural)]
pub struct MouseSend {
    pub mask: i32,
    pub x: i32,
    pub y: i32,
    pub modifiers: Modifiers,
}

/// A key event as the client sends it to the remote session; the key is
/// sent pressed exactly when it goes down.
#[derive(Clone, Copy, Debug)]
pub struct KeySend {
    pub name: &'static str,
    pub down: bool,
    pub modifiers: Modifiers,
}

/// A mouse event seen by the input hook, before it is sent.
#[derive(Clone, Copy, Debug, PartialEq, Eq, Structural)]
pub struct MouseEvent {
    pub x: i32,
    pub y: i32,
    pub button: Button,
    pub mouse_type: i32,
}

/// Turns a hooked mouse event into the message sent for it: the mask
/// `mouse_type | button_bits << 3`, the position, and the modifiers held.
pub fn mouse_send(mouse_event: MouseEvent, held: &KeyBuffer) -> (r: MouseSend)
    ensures
        r == (MouseSend {
            mask: spec_mouse_mask(mouse_event.mouse_type, mouse_event.button),
            x: mouse_event.x,
            y: mouse_event.y,
            modifiers: spec_modifiers(held.held()),
        }),
{
    MouseSend {
        mask: mouse_mask(mouse_event.mouse_type, mouse_event.button),
        x: mouse_event.x,
        y: mouse_event.y,
        modifiers: modifier_flags(held),
    }
}

/// Turns a hooked key event into the message sent for it: the key's name,
/// whether it went down, and the modifiers held.
pub fn key_send(button: Key, down: bool, held: &KeyBuffer) -> (r: KeySend)
    requires
        button.spec_name() is Some,
    ensures
        r.name@ == button.spec_name()->0,
        r.down == down,
        r.modifiers == spec_modifiers(held.held()),
{
    let modifiers = modifier_flags(held);
    KeySend { name: convert_key_name(button), down, modifiers }
}

/// `v` clamped into the range of `i32`, as a float conversion to `i32` does.
pub open spec fn spec_saturate(v: i64) -> i32 {
    if v < i32::MIN {
        i32::MIN
    } else if v > i32::MAX {
        i32::MAX
    } else {
        v as i32
    }
}

/// Clamps a wheel delta into the range of a mouse coordinate.
pub fn saturate_i32(v: i64) -> (r: i32)
    ensures
        r == spec_saturate(v),
{
    if v < i32::MIN as i64 {
        i32::MIN
    } else if v > i32::MAX as i64 {
        i32::MAX
    } else {
        v as i32
    }
}

/// An event reported by the input hook. Mouse positions arrive already
/// converted to whole pixels.
#[derive(Clone, Copy, Debug)]
pub enum InputEvent {
    MouseMove { x: i32, y: i32 },
    ButtonPress(Button),
    ButtonRelease(Button),
    KeyPress(Key),
    KeyRelease(Key),
    Wheel { delta_x: i64, delta_y: i64 },
}

/// What the tracer does with a hooked event.
#[derive(Clone, Copy, Debug)]
pub enum TracerAction {
    /// The tracer is not working: the event is dropped.
    Stopped,
    /// The event passes through and nothing is sent.
    Pass,
    /// The event passes through and this mouse event is sent.
    Mouse(MouseSend),
    /// The event passes through and this key event is sent.
    Key(KeySend),
}

/// The client-side state of the event tracer.
pub struct TracerState {
    /// Whether the tracer has been started.
    pub working: bool,
    /// The last pointer position seen.
    pub mouse_x: i32,
    pub mouse_y: i32,
    /// The keys held down.
    pub keys: KeyBuffer,
}

/// A key event the tracer can handle: any event when it is not working,
/// and otherwise every event but a key with no name.
pub open spec fn handled(working: bool, ev: InputEvent) -> bool {
    working ==> match ev {
        InputEvent::KeyPress(k) => k.spec_name() is Some,
        InputEvent::KeyRelease(k) => k.spec_name() is Some,
        _ => true,
    }
}

impl TracerState {
    /// The key buffer is well formed.
    pub open spec fn wf(&self) -> bool {
        self.keys.wf()
    }

    /// A tracer that is not yet working, at position (0, 0), with no key held.
    pub fn new() -> (r: TracerState)
        ensures
            r.wf(),
            !r.working,
            r.mouse_x == 0 && r.mouse_y == 0,
            r.keys.held() == Set::<Key>::empty(),
    {
        TracerState { working: false, mouse_x: 0, mouse_y: 0, keys: KeyBuffer::new() }
    }

    /// Starts tracing: from now on hooked events are sent.
    pub fn start(&mut self)
        requires
            old(self).wf(),
        ensures
            final(self).wf(),
            final(self).working,
            final(self).mouse_x == old(self).mouse_x,
            final(self).mouse_y == old(self).mouse_y,
            final(self).keys.held() == old(self).keys.held(),
    {
        self.working = true;
    }

    /// Handles one hooked event: records the pointer position and the held
    /// keys, and says what is sent for it.
    pub fn event_handler(&mut self, ev: InputEvent) -> (r: TracerAction)
        requires
            old(self).wf(),
            handled(old(self).working, ev),
        ensures
            final(self).wf(),
            final(self).working == old(self).working,
            old(self).working ==> final(self).keys.held() == held_step(old(self).keys.held(), ev),
            !old(self).working ==> r is Stopped && final(self).mouse_x == old(self).mouse_x
                && final(self).mouse_y == old(self).mouse_y && final(self).keys.held() == old(
                self,
            ).keys.held(),
            old(self).working ==> match ev {
                InputEvent::MouseMove { x, y } => {
                    &&& r is Pass
                    &&& final(self).mouse_x == x && final(self).mouse_y == y
                    &&& final(self).keys.held() == old(self).keys.held()
                },
                InputEvent::ButtonPress(b) => {
                    &&& r == TracerAction::Mouse(
                        MouseSend {
                            mask: spec_mouse_mask(MOUSE_TYPE_DOWN, b),
                            x: old(self).mouse_x,
                            y: old(self).mouse_y,
                            modifiers: spec_modifiers(old(self).keys.held()),
                        },
                    )
                    &&& final(self).mouse_x == old(self).mouse_x
                    &&& final(self).mouse_y == old(self).mouse_y
                    &&& final(self).keys.held() == old(self).keys.held()
                },
                InputEvent::ButtonRelease(b) => {
                    &&& r == TracerAction::Mouse(
                        MouseSend {
                            mask: spec_mouse_mask(MOUSE_TYPE_UP, b),
                            x: old(self).mouse_x,
                            y: old(self).mouse_y,
                            modifiers: spec_modifiers(old(self).keys.held()),
                        },
                    )
                    &&& final(self).mouse_x == old(self).mouse_x
                    &&& final(self).mouse_y == old(self).mouse_y
                    &&& final(self).keys.held() == old(self).keys.held()
                },
                InputEvent::KeyPress(k) => {
                    &&& r matches TracerAction::Key(s) && s.name@ == k.spec_name()->0 && s.down
                        && s.modifiers == spec_modifiers(old(self).keys.held().insert(k))
                    &&& final(self).mouse_x == old(self).mouse_x
                    &&& final(self).mouse_y == old(self).mouse_y
                    &&& final(self).keys.held() == old(self).keys.held().insert(k)
                },
                InputEvent::KeyRelease(k) => {
                    &&& r matches TracerAction::Key(s) && s.name@ == k.spec_name()->0 && !s.down
                        && s.modifiers == spec_modifiers(old(self).keys.held())
                    &&& final(self).mouse_x == old(self).mouse_x
                    &&& final(self).mouse_y == old(self).mouse_y
                    &&& final(self).keys.held() == old(self).keys.held().remove(k)
                },
                InputEvent::Wheel { delta_x, delta_y } => {
                    &&& r == TracerAction::Mouse(
                        MouseSend {
                            mask: spec_mouse_mask(MOUSE_TYPE_WHEEL, Button::Middle),
                            x: spec_saturate(delta_x),
                            y: spec_saturate(delta_y),
                            modifiers: spec_modifiers(old(self).keys.held()),
                        },
                    )
                    &&& final(self).mouse_x == old(self).mouse_x
                    &&& final(self).mouse_y == old(self).mouse_y
                    &&& final(self).keys.held() == old(self).keys.held()
                },
            },
    {
        if !self.working {
            return TracerAction::Stopped;
        }
        match ev {
            InputEvent::MouseMove { x, y } => {
                self.mouse_x = x;
                self.mouse_y = y;
                TracerAction::Pass
            },
            InputEvent::ButtonPress(button) => {
                let mouse_event = MouseEvent {
                    x: self.mouse_x,
                    y: self.mouse_y,
                    button,
                    mouse_type: MOUSE_TYPE_DOWN,
                };
                TracerAction::Mouse(mouse_send(mouse_event, &self.keys))
            },
            InputEvent::ButtonRelease(button) => {
                let mouse_event = MouseEvent {
                    x: self.mouse_x,
                    y: self.mouse_y,
                    button,
                    mouse_type: MOUSE_TYPE_UP,
                };
                TracerAction::Mouse(mouse_send(mouse_event, &self.keys))
            },
            InputEvent::KeyPress(key) => {
                self.keys.insert(key);
                TracerAction::Key(key_send(key, true, &self.keys))
            },
            InputEvent::KeyRelease(key) => {
                let sent = key_send(key, false, &self.keys);
                self.keys.remove(key);
                TracerAction::Key(sent)
            },
            InputEvent::Wheel { delta_x, delta_y } => {
                let mouse_event = MouseEvent {
                    x: saturate_i32(delta_x),
                    y: saturate_i32(delta_y),
                    button: Button::Middle,
                    mouse_type: MOUSE_TYPE_WHEEL,
                };
                TracerAction::Mouse(mouse_send(mouse_event, &self.keys))
            },
        }
    }
}

/// The held keys after one hooked event of a working tracer: a press
/// adds the key, a release removes it, other events leave them.
pub open spec fn held_step(held: Set<Key>, ev: InputEvent) -> Set<Key> {
    match ev {
        InputEvent::KeyPress(k) => held.insert(k),
        InputEvent::KeyRelease(k) => held.remove(k),
        _ => held,
    }
}

/// The held keys after a run of hooked events of a working tracer.
pub open spec fn held_after(held: Set<Key>, evs: Seq<InputEvent>) -> Set<Key>
    decreases evs.len(),
{
    if evs.len() == 0 {
        held
    } else {
        held_step(held_after(held, evs.drop_last()), evs.last())
    }
}

/// The last key event on `k` in a run: `Some(true)` for a press,
/// `Some(false)` for a release, `None` when the run has none.
pub open spec fn last_key_event(evs: Seq<InputEvent>, k: Key) -> Option<bool>
    decreases evs.len(),
{
    if evs.len() == 0 {
        None
    } else {
        match evs.last() {
            InputEvent::KeyPress(k2) if k2 == k => Some(true),
            InputEvent::KeyRelease(k2) if k2 == k => Some(false),
            _ => last_key_event(evs.drop_last(), k),
        }
    }
}

/// After any run of events, a key is held exactly when its last key event
/// in the run was a press, or, when the run has none, when it was held
/// before the run.
pub proof fn law_held_keys(held: Set<Key>, evs: Seq<InputEvent>, k: Key)
    ensures
        held_after(held, evs).contains(k) == match last_key_event(evs, k) {
            Some(pressed) => pressed,
            None => held.contains(k),
        },
    decreases evs.len(),
{
    if evs.len() > 0 {
        law_held_keys(held, evs.drop_last(), k);
    }
}

/// The x coordinate that marks the end of a traced session.
pub const STOP_MARK_X: i32 = -123;

/// The mouse event the client sends to end a traced session: no button,
/// at x = -123, y = 0, with no modifier.
pub fn stop_log() -> (r: MouseSend)
    ensures
        r == (MouseSend {
            mask: 0,
            x: STOP_MARK_X,
            y: 0,
            modifiers: Modifiers { alt: false, ctrl: false, shift: false, command: false },
        }),
{
    MouseSend {
        mask: 0,
        x: STOP_MARK_X,
        y: 0,
        modifiers: Modifiers { alt: false, ctrl: false, shift: false, command: false },
    }
}

} // verus!
