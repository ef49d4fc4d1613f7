//! Device state on macOS: the keyboard's virtual key codes, the event tap's
//! scroll events, and the snapshot made of what the event source reported.

use vstd::prelude::*;
use crate::device_state::{construction, prepare, reported_keys, slots_distinct};
use crate::hook::{HookError, HookLifecycle};
use crate::keymap::Keycode;
use crate::mouse_state::{MousePosition, MouseState, MouseStateView, ScrollDelta};
use crate::scroll::{wrap_i32, Axis, ScrollAccumulator};

verus! {

/// The event type of a scroll wheel movement.
pub const K_CG_EVENT_SCROLL_WHEEL: u32 = 22;

/// The event type by which the system says that it has disabled the tap
/// because the tap was too slow.
pub const K_CG_EVENT_TAP_DISABLED_BY_TIMEOUT: u32 = 0xFFFF_FFFE;

/// The number of key codes that a keyboard query tests.
pub const KEY_SLOTS: usize = 256;

/// The virtual key code of `key`, for the keys that the keyboard table has.
pub open spec fn native_code(key: Keycode) -> Option<u16> {
    match key {
        Keycode::Key0 => Some(0x1D),
        Keycode::Key1 => Some(0x12),
        Keycode::Key2 => Some(0x13),
        Keycode::Key3 => Some(0x14),
        Keycode::Key4 => Some(0x15),
        Keycode::Key5 => Some(0x17),
        Keycode::Key6 => Some(0x16),
        Keycode::Key7 => Some(0x1A),
        Keycode::Key8 => Some(0x1C),
        Keycode::Key9 => Some(0x19),
        Keycode::A => Some(0x00),
        Keycode::B => Some(0x0B),
        Keycode::C => Some(0x08),
        Keycode::D => Some(0x02),
        Keycode::E => Some(0x0E),
        Keycode::F => Some(0x03),
        Keycode::G => Some(0x05),
        Keycode::H => Some(0x04),
        Keycode::I => Some(0x22),
        Keycode::J => Some(0x26),
        Keycode::K => Some(0x28),
        Keycode::L => Some(0x25),
        Keycode::M => Some(0x2E),
        Keycode::N => Some(0x2D),
        Keycode::O => Some(0x1F),
        Keycode::P => Some(0x23),
        Keycode::Q => Some(0x0C),
        Keycode::R => Some(0x0F),
        Keycode::S => Some(0x01),
        Keycode::T => Some(0x11),
        Keycode::U => Some(0x20),
        Keycode::V => Some(0x09),
        Keycode::W => Some(0x0D),
        Keycode::X => Some(0x07),
        Keycode::Y => Some(0x10),
        Keycode::Z => Some(0x06),
        Keycode::F1 => Some(0x7A),
        Keycode::F2 => Some(0x78),
        Keycode::F3 => Some(0x63),
        Keycode::F4 => Some(0x76),
        Keycode::F5 => Some(0x60),
        Keycode::F6 => Some(0x61),
        Keycode::F7 => Some(0x62),
        Keycode::F8 => Some(0x64),
        Keycode::F9 => Some(0x65),
        Keycode::F10 => Some(0x6D),
        Keycode::F11 => Some(0x67),
        Keycode::F12 => Some(0x6F),
        Keycode::F13 => Some(0x69),
        Keycode::F14 => Some(0x6B),
        Keycode::F15 => Some(0x71),
        Keycode::F16 => Some(0x6A),
        Keycode::F17 => Some(0x40),
        Keycode::F18 => Some(0x4F),
        Keycode::F19 => Some(0x50),
        Keycode::F20 => Some(0x5A),
        Keycode::Escape => Some(0x35),
        Keycode::Space => Some(0x31),
        Keycode::LControl => Some(0x3B),
        Keycode::RControl => Some(0x3E),
        Keycode::LShift => Some(0x38),
        Keycode::RShift => Some(0x3C),
        Keycode::Command => Some(0x37),
        Keycode::RCommand => Some(0x90),
        Keycode::LOption => Some(0x3A),
        Keycode::ROption => Some(0x3D),
        Keycode::Enter => Some(0x24),
        Keycode::Up => Some(0x7E),
        Keycode::Down => Some(0x7D),
        Keycode::Left => Some(0x7B),
        Keycode::Right => Some(0x7C),
        Keycode::Backspace => Some(0x33),
        Keycode::CapsLock => Some(0x39),
        Keycode::Tab => Some(0x30),
        Keycode::Home => Some(0x73),
        Keycode::End => Some(0x77),
        Keycode::PageUp => Some(0x74),
        Keycode::PageDown => Some(0x79),
        Keycode::Insert => Some(0x72),
        Keycode::Delete => Some(0x75),
        Keycode::Numpad0 => Some(0x52),
        Keycode::Numpad1 => Some(0x53),
        Keycode::Numpad2 => Some(0x54),
        Keycode::Numpad3 => Some(0x55),
        Keycode::Numpad4 => Some(0x56),
        Keycode::Numpad5 => Some(0x57),
        Keycode::Numpad6 => Some(0x58),
        Keycode::Numpad7 => Some(0x59),
        Keycode::Numpad8 => Some(0x5B),
        Keycode::Numpad9 => Some(0x5C),
        Keycode::NumpadSubtract => Some(0x4E),
        Keycode::NumpadAdd => Some(0x45),
        Keycode::NumpadDivide => Some(0x4B),
        Keycode::NumpadMultiply => Some(0x43),
        Keycode::NumpadEquals => Some(0x51),
        Keycode::NumpadEnter => Some(0x4C),
        Keycode::NumpadDecimal => Some(0x41),
        Keycode::Grave => Some(0x32),
        Keycode::Minus => Some(0x1B),
        Keycode::Equal => Some(0x18),
        Keycode::LeftBracket => Some(0x21),
        Keycode::RightBracket => Some(0x1E),
        Keycode::BackSlash => Some(0x2A),
        Keycode::Semicolon => Some(0x29),
        Keycode::Apostrophe => Some(0x27),
        Keycode::Comma => Some(0x2B),
        Keycode::Dot => Some(0x2F),
        Keycode::Slash => Some(0x2C),
        // keys that only other platforms have
        Keycode::LAlt | Keycode::RAlt | Keycode::LMeta | Keycode::RMeta => None,
    }
}

/// The key that a native code stands for: the key whose virtual key code it
/// is, if there is one.
pub open spec fn translate_spec(code: u16) -> Option<Keycode> {
    if exists|key: Keycode| native_code(key) == Some(code) {
        Some(choose|key: Keycode| native_code(key) == Some(code))
    } else {
        None
    }
}

/// What the tap's callback has to do with the tap itself.
#[derive(Debug, PartialEq, Eq, Structural, Clone, Copy)]
pub enum TapAction {
    /// Enable the tap again at once.
    ReEnableTap,
    /// Nothing.
    PassThrough,
}

/// What one event does to the pending scroll movement, and what the callback
/// has to do with the tap. A scroll event adds the low 32 bits of its two
/// deltas, the vertical one first. The notice that the tap was disabled asks
/// for the tap to be enabled again. Every other event changes nothing.
pub open spec fn callback_effect(
    pending: ScrollDelta,
    event_type: u32,
    vertical: i64,
    horizontal: i64,
) -> (ScrollDelta, TapAction) {
    if event_type == K_CG_EVENT_TAP_DISABLED_BY_TIMEOUT {
        (pending, TapAction::ReEnableTap)
    } else if event_type == K_CG_EVENT_SCROLL_WHEEL {
        (
            pending.plus(Axis::Vertical, wrap_i32(vertical as int)).plus(
                Axis::Horizontal,
                wrap_i32(horizontal as int),
            ),
            TapAction::PassThrough,
        )
    } else {
        (pending, TapAction::PassThrough)
    }
}

/// What the event source reported of the pointer for one query.
#[derive(Debug, Clone, Copy)]
pub struct PointerReading {
    /// The pointer's location, in whole pixels.
    pub location: MousePosition,
    /// Whether the left button is down.
    pub left: bool,
    /// Whether the right button is down.
    pub right: bool,
    /// Whether the center button is down.
    pub center: bool,
}

/// The snapshot that a pointer query makes of `reading` while `pending`
/// scroll movement waits.
pub open spec fn pointer_snapshot(reading: PointerReading, pending: ScrollDelta)
    -> MouseStateView {
    MouseStateView {
        coords: reading.location,
        button_pressed: seq![false, reading.left, reading.right, reading.center, false],
        scroll_delta: pending,
    }
}

/// The key that each of the first `n` slots of a keyboard reading reports:
/// the key that the slot's number stands for, where that key is down.
pub open spec fn key_slots(pressed: Seq<bool>, n: int) -> Seq<Option<Keycode>> {
    Seq::new(
        n as nat,
        |code: int|
            if pressed[code] {
                translate_spec(code as u16)
            } else {
                None
            },
    )
}

/// The events that the tap asks the system for: scroll events and no others.
pub fn event_mask() -> (mask: u64)
    ensures
        mask == 0x40_0000,
        mask == 1u64 << K_CG_EVENT_SCROLL_WHEEL,
{
    assert(1u64 << 22u32 == 0x40_0000u64) by (bit_vector);
    1u64 << K_CG_EVENT_SCROLL_WHEEL
}

/// Whether an event of this type carries scroll deltas to read.
pub fn is_scroll_event(event_type: u32) -> (scroll: bool)
    ensures
        scroll == (event_type == K_CG_EVENT_SCROLL_WHEEL),
{
    event_type == K_CG_EVENT_SCROLL_WHEEL
}

/// The tap callback's part in the scroll movement. `vertical` and
/// `horizontal` are the event's two delta fields, and count only for a scroll
/// event. Whatever this returns, the event itself is to be handed back to the
/// system unchanged: the tap only listens.
pub fn scroll_callback(
    scroll: &mut ScrollAccumulator,
    event_type: u32,
    vertical: i64,
    horizontal: i64,
) -> (action: TapAction)
    ensures
        (final(scroll)@, action) == callback_effect(
            old(scroll)@,
            event_type,
            vertical,
            horizontal,
        ),
{
    if event_type == K_CG_EVENT_TAP_DISABLED_BY_TIMEOUT {
        return TapAction::ReEnableTap;
    }
    if event_type == K_CG_EVENT_SCROLL_WHEEL {
        assert((vertical as i32) as int == (if (vertical as int) % 0x1_0000_0000 >= 0x8000_0000 {
            (vertical as int) % 0x1_0000_0000 - 0x1_0000_0000
        } else {
            (vertical as int) % 0x1_0000_0000
        })) by (bit_vector);
        assert((horizontal as i32) as int == (if (horizontal as int) % 0x1_0000_0000
            >= 0x8000_0000 {
            (horizontal as int) % 0x1_0000_0000 - 0x1_0000_0000
        } else {
            (horizontal as int) % 0x1_0000_0000
        })) by (bit_vector);
        let vertical_ticks = #[verifier::truncate] (vertical as i32);
        let horizontal_ticks = #[verifier::truncate] (horizontal as i32);
        scroll.add(Axis::Vertical, vertical_ticks);
        scroll.add(Axis::Horizontal, horizontal_ticks);
    }
    TapAction::PassThrough
}

/// The key that the native code `code` stands for, if it stands for one.
pub fn translate(code: u16) -> (keycode: Option<Keycode>)
    ensures
        keycode == translate_spec(code),
        code > 0x90 ==> keycode is None,
{
    let keycode = match code {
        0x1D => Some(Keycode::Key0),
        0x12 => Some(Keycode::Key1),
        0x13 => Some(Keycode::Key2),
        0x14 => Some(Keycode::Key3),
        0x15 => Some(Keycode::Key4),
        0x17 => Some(Keycode::Key5),
        0x16 => Some(Keycode::Key6),
        0x1A => Some(Keycode::Key7),
        0x1C => Some(Keycode::Key8),
        0x19 => Some(Keycode::Key9),
        0x00 => Some(Keycode::A),
        0x0B => Some(Keycode::B),
        0x08 => Some(Keycode::C),
        0x02 => Some(Keycode::D),
        0x0E => Some(Keycode::E),
        0x03 => Some(Keycode::F),
        0x05 => Some(Keycode::G),
        0x04 => Some(Keycode::H),
        0x22 => Some(Keycode::I),
        0x26 => Some(Keycode::J),
        0x28 => Some(Keycode::K),
        0x25 => Some(Keycode::L),
        0x2E => Some(Keycode::M),
        0x2D => Some(Keycode::N),
        0x1F => Some(Keycode::O),
        0x23 => Some(Keycode::P),
        0x0C => Some(Keycode::Q),
        0x0F => Some(Keycode::R),
        0x01 => Some(Keycode::S),
        0x11 => Some(Keycode::T),
        0x20 => Some(Keycode::U),
        0x09 => Some(Keycode::V),
        0x0D => Some(Keycode::W),
        0x07 => Some(Keycode::X),
        0x10 => Some(Keycode::Y),
        0x06 => Some(Keycode::Z),
        0x7A => Some(Keycode::F1),
        0x78 => Some(Keycode::F2),
        0x63 => Some(Keycode::F3),
        0x76 => Some(Keycode::F4),
        0x60 => Some(Keycode::F5),
        0x61 => Some(Keycode::F6),
        0x62 => Some(Keycode::F7),
        0x64 => Some(Keycode::F8),
        0x65 => Some(Keycode::F9),
        0x6D => Some(Keycode::F10),
        0x67 => Some(Keycode::F11),
        0x6F => Some(Keycode::F12),
        0x69 => Some(Keycode::F13),
        0x6B => Some(Keycode::F14),
        0x71 => Some(Keycode::F15),
        0x6A => Some(Keycode::F16),
        0x40 => Some(Keycode::F17),
        0x4F => Some(Keycode::F18),
        0x50 => Some(Keycode::F19),
        0x5A => Some(Keycode::F20),
        0x52 => Some(Keycode::Numpad0),
        0x53 => Some(Keycode::Numpad1),
        0x54 => Some(Keycode::Numpad2),
        0x55 => Some(Keycode::Numpad3),
        0x56 => Some(Keycode::Numpad4),
        0x57 => Some(Keycode::Numpad5),
        0x58 => Some(Keycode::Numpad6),
        0x59 => Some(Keycode::Numpad7),
        0x5B => Some(Keycode::Numpad8),
        0x5C => Some(Keycode::Numpad9),
        0x45 => Some(Keycode::NumpadAdd),
        0x4E => Some(Keycode::NumpadSubtract),
        0x4B => Some(Keycode::NumpadDivide),
        0x43 => Some(Keycode::NumpadMultiply),
        0x51 => Some(Keycode::NumpadEquals),
        0x4C => Some(Keycode::NumpadEnter),
        0x41 => Some(Keycode::NumpadDecimal),
        0x35 => Some(Keycode::Escape),
        0x31 => Some(Keycode::Space),
        0x3B => Some(Keycode::LControl),
        0x3E => Some(Keycode::RControl),
        0x38 => Some(Keycode::LShift),
        0x3C => Some(Keycode::RShift),
        0x3A => Some(Keycode::LOption),
        0x3D => Some(Keycode::ROption),
        0x37 => Some(Keycode::Command),
        0x90 => Some(Keycode::RCommand),
        0x24 => Some(Keycode::Enter),
        0x7E => Some(Keycode::Up),
        0x7D => Some(Keycode::Down),
        0x7B => Some(Keycode::Left),
        0x7C => Some(Keycode::Right),
        0x33 => Some(Keycode::Backspace),
        0x39 => Some(Keycode::CapsLock),
        0x30 => Some(Keycode::Tab),
        0x73 => Some(Keycode::Home),
        0x77 => Some(Keycode::End),
        0x74 => Some(Keycode::PageUp),
        0x79 => Some(Keycode::PageDown),
        0x72 => Some(Keycode::Insert),
        0x75 => Some(Keycode::Delete),
        0x32 => Some(Keycode::Grave),
        0x1B => Some(Keycode::Minus),
        0x18 => Some(Keycode::Equal),
        0x21 => Some(Keycode::LeftBracket),
        0x1E => Some(Keycode::RightBracket),
        0x2A => Some(Keycode::BackSlash),
        0x29 => Some(Keycode::Semicolon),
        0x27 => Some(Keycode::Apostrophe),
        0x2B => Some(Keycode::Comma),
        0x2F => Some(Keycode::Dot),
        0x2C => Some(Keycode::Slash),
        _ => None,
    };
    proof {
        if let Some(key) = keycode {
            lemma_native_code_is_injective(key, translate_spec(code).unwrap());
        }
    }
    keycode
}

/// The device state of a process that may watch input and whose scroll hook
/// was asked for.
#[derive(Debug, Clone, Copy)]
pub struct DeviceState;

impl DeviceState {
    /// Makes the device state, starting the scroll hook where no start was
    /// asked for before. `permission_granted` says whether the process has
    /// the accessibility permission; `report` is what is known of the hook's
    /// worker when the wait for it ends, its report or `None`, and counts
    /// where `install_needed` says so. The permission must be granted and the
    /// hook must not have failed.
    pub fn new(
        permission_granted: bool,
        hook: &mut HookLifecycle,
        report: Option<Result<(), HookError>>,
    ) -> (state: DeviceState)
        requires
            construction(permission_granted, old(hook)@, report).1 is Ok,
        ensures
            final(hook)@ == construction(permission_granted, old(hook)@, report).0,
    {
        let _ = prepare(permission_granted, hook, report);
        DeviceState
    }

    /// Makes the device state as `new` does, or returns `None`: without the
    /// permission, in which case the hook is left alone, or where the hook
    /// has failed.
    pub fn checked_new(
        permission_granted: bool,
        hook: &mut HookLifecycle,
        report: Option<Result<(), HookError>>,
    ) -> (state: Option<DeviceState>)
        ensures
            final(hook)@ == construction(permission_granted, old(hook)@, report).0,
            state is Some <==> construction(permission_granted, old(hook)@, report).1 is Ok,
    {
        match prepare(permission_granted, hook, report) {
            Ok(_) => Some(DeviceState),
            Err(_) => None,
        }
    }

    /// The mouse now: the pointer's location, slot 0 unused, the three
    /// buttons and an unused slot after them, and the scroll movement since
    /// the previous query, which is taken out of `scroll`.
    pub fn query_pointer(&self, reading: &PointerReading, scroll: &mut ScrollAccumulator)
        -> (state: MouseState)
        ensures
            state@ == pointer_snapshot(*reading, old(scroll)@),
            (state.scroll_delta, final(scroll)@) == old(scroll)@.drained(),
            state@.well_formed(),
            state.button_pressed@.len() == 5,
    {
        let button_pressed = vec![false, reading.left, reading.right, reading.center, false];
        let scroll_delta = scroll.drain();
        let state = MouseState { coords: reading.location, button_pressed, scroll_delta };
        assert(state@.button_pressed =~= pointer_snapshot(*reading, old(scroll)@).button_pressed);
        state
    }

    /// The keys that are down, each once, in no order that a caller may
    /// count on. `pressed[c]` says whether the key with the virtual key code
    /// `c` is down. A code that stands for no key is passed over.
    pub fn query_keymap(&self, pressed: &[bool; 256]) -> (keys: Vec<Keycode>)
        ensures
            keys@.no_duplicates(),
            forall|key: Keycode| #[trigger]
                keys@.contains(key) <==> exists|code: int|
                    0 <= code < 256 && key_slots(pressed@, 256)[code] == Some(key),
    {
        let mut slots: Vec<Option<Keycode>> = Vec::new();
        let mut code: usize = 0;
        while code < KEY_SLOTS
            invariant
                code <= 256,
                slots@ == key_slots(pressed@, code as int),
            decreases 256 - code,
        {
            let slot = if pressed[code] {
                translate(code as u16)
            } else {
                None
            };
            slots.push(slot);
            code += 1;
        }
        proof {
            lemma_key_slots_distinct(pressed@);
        }
        reported_keys(&slots)
    }
}

/// No two keys share a virtual key code.
pub proof fn lemma_native_code_is_injective(a: Keycode, b: Keycode)
    requires
        native_code(a) is Some,
        native_code(a) == native_code(b),
    ensures
        a == b,
{
}

/// Law of the table, one way: a key that a code translates to has that code
/// for its virtual key code.
pub proof fn lemma_translated_key_has_code(code: u16)
    ensures
        translate_spec(code) matches Some(key) ==> native_code(key) == Some(code),
{
}

/// Law of the table, the other way: the virtual key code of a key
/// translates to that key.
pub proof fn lemma_key_code_translates_back(key: Keycode)
    requires
        native_code(key) is Some,
    ensures
        translate_spec(native_code(key).unwrap()) == Some(key),
{
    let code = native_code(key).unwrap();
    lemma_native_code_is_injective(key, translate_spec(code).unwrap());
}

/// Law of the codes outside the table: a code translates to nothing exactly
/// if it is the virtual key code of no key. Every code above 0x90 is such a
/// code.
pub proof fn lemma_code_outside_the_table_is_none(code: u16)
    ensures
        translate_spec(code) is None <==> forall|key: Keycode| #[trigger]
            native_code(key) != Some(code),
        code > 0x90 ==> translate_spec(code) is None,
{
}

/// No two codes translate to the same key.
pub proof fn lemma_translate_is_injective(a: u16, b: u16)
    requires
        translate_spec(a) is Some,
        translate_spec(a) == translate_spec(b),
    ensures
        a == b,
{
}

/// The slots of a keyboard reading report no key twice.
pub proof fn lemma_key_slots_distinct(pressed: Seq<bool>)
    ensures
        slots_distinct(key_slots(pressed, 256)),
{
    let slots = key_slots(pressed, 256);
    assert forall|i: int, j: int|
        0 <= i < slots.len() && 0 <= j < slots.len() && slots[i] is Some && slots[i]
            == slots[j] implies i == j by {
        lemma_translate_is_injective(i as u16, j as u16);
    }
}

} // verus!
