//! Device state on Windows: virtual-key codes, the low-level mouse hook's
//! wheel messages, and the snapshot made of what the synchronous key-state
//! calls reported.

use vstd::prelude::*;
use crate::device_state::{construction, prepare, present, reported_keys, slots_distinct};
use crate::hook::{HookError, HookLifecycle};
use crate::keymap::Keycode;
use crate::mouse_state::{MousePosition, MouseState, MouseStateView, ScrollDelta};
use crate::scroll::{Axis, ScrollAccumulator};

verus! {

// The mouse buttons, whose state is read as that of a key.
pub const VK_LBUTTON: u16 = 1;
pub const VK_RBUTTON: u16 = 2;
pub const VK_MBUTTON: u16 = 4;
pub const VK_XBUTTON1: u16 = 5;
pub const VK_XBUTTON2: u16 = 6;

// The keys of the table, by their virtual-key codes.
pub const VK_BACK: u16 = 8;
pub const VK_TAB: u16 = 9;
pub const VK_RETURN: u16 = 13;
pub const VK_CAPITAL: u16 = 20;
pub const VK_ESCAPE: u16 = 27;
pub const VK_SPACE: u16 = 32;
pub const VK_PRIOR: u16 = 33;
pub const VK_NEXT: u16 = 34;
pub const VK_END: u16 = 35;
pub const VK_HOME: u16 = 36;
pub const VK_LEFT: u16 = 37;
pub const VK_UP: u16 = 38;
pub const VK_RIGHT: u16 = 39;
pub const VK_DOWN: u16 = 40;
pub const VK_INSERT: u16 = 45;
pub const VK_DELETE: u16 = 46;
pub const VK_LWIN: u16 = 91;
pub const VK_RWIN: u16 = 92;
pub const VK_NUMPAD0: u16 = 96;
pub const VK_NUMPAD1: u16 = 97;
pub const VK_NUMPAD2: u16 = 98;
pub const VK_NUMPAD3: u16 = 99;
pub const VK_NUMPAD4: u16 = 100;
pub const VK_NUMPAD5: u16 = 101;
pub const VK_NUMPAD6: u16 = 102;
pub const VK_NUMPAD7: u16 = 103;
pub const VK_NUMPAD8: u16 = 104;
pub const VK_NUMPAD9: u16 = 105;
pub const VK_MULTIPLY: u16 = 106;
pub const VK_ADD: u16 = 107;
pub const VK_SUBTRACT: u16 = 109;
pub const VK_DECIMAL: u16 = 110;
pub const VK_DIVIDE: u16 = 111;
pub const VK_F1: u16 = 112;
pub const VK_F2: u16 = 113;
pub const VK_F3: u16 = 114;
pub const VK_F4: u16 = 115;
pub const VK_F5: u16 = 116;
pub const VK_F6: u16 = 117;
pub const VK_F7: u16 = 118;
pub const VK_F8: u16 = 119;
pub const VK_F9: u16 = 120;
pub const VK_F10: u16 = 121;
pub const VK_F11: u16 = 122;
pub const VK_F12: u16 = 123;
pub const VK_F13: u16 = 124;
pub const VK_F14: u16 = 125;
pub const VK_F15: u16 = 126;
pub const VK_F16: u16 = 127;
pub const VK_F17: u16 = 128;
pub const VK_F18: u16 = 129;
pub const VK_F19: u16 = 130;
pub const VK_F20: u16 = 131;
pub const VK_OEM_NEC_EQUAL: u16 = 146;
pub const VK_LSHIFT: u16 = 160;
pub const VK_RSHIFT: u16 = 161;
pub const VK_LCONTROL: u16 = 162;
pub const VK_RCONTROL: u16 = 163;
pub const VK_LMENU: u16 = 164;
pub const VK_RMENU: u16 = 165;
pub const VK_OEM_1: u16 = 186;
pub const VK_OEM_PLUS: u16 = 187;
pub const VK_OEM_COMMA: u16 = 188;
pub const VK_OEM_MINUS: u16 = 189;
pub const VK_OEM_PERIOD: u16 = 190;
pub const VK_OEM_2: u16 = 191;
pub const VK_OEM_3: u16 = 192;
pub const VK_OEM_4: u16 = 219;
pub const VK_OEM_5: u16 = 220;
pub const VK_OEM_6: u16 = 221;
pub const VK_OEM_7: u16 = 222;

/// The message of a vertical wheel movement.
pub const WM_MOUSEWHEEL: u32 = 522;

/// The message of a horizontal wheel movement.
pub const WM_MOUSEHWHEEL: u32 = 526;

/// The wheel distance that makes one tick.
pub const WHEEL_DELTA: i16 = 120;

/// The number of virtual-key codes that a keyboard query tests.
pub const KEY_SLOTS: usize = 256;

/// The virtual-key code of `key`, for the keys that Windows has.
pub open spec fn virtual_key(key: Keycode) -> Option<u16> {
    match key {
        Keycode::Key0 => Some(48),
        Keycode::Key1 => Some(49),
        Keycode::Key2 => Some(50),
        Keycode::Key3 => Some(51),
        Keycode::Key4 => Some(52),
        Keycode::Key5 => Some(53),
        Keycode::Key6 => Some(54),
        Keycode::Key7 => Some(55),
        Keycode::Key8 => Some(56),
        Keycode::Key9 => Some(57),
        Keycode::A => Some(65),
        Keycode::B => Some(66),
        Keycode::C => Some(67),
        Keycode::D => Some(68),
        Keycode::E => Some(69),
        Keycode::F => Some(70),
        Keycode::G => Some(71),
        Keycode::H => Some(72),
        Keycode::I => Some(73),
        Keycode::J => Some(74),
        Keycode::K => Some(75),
        Keycode::L => Some(76),
        Keycode::M => Some(77),
        Keycode::N => Some(78),
        Keycode::O => Some(79),
        Keycode::P => Some(80),
        Keycode::Q => Some(81),
        Keycode::R => Some(82),
        Keycode::S => Some(83),
        Keycode::T => Some(84),
        Keycode::U => Some(85),
        Keycode::V => Some(86),
        Keycode::W => Some(87),
        Keycode::X => Some(88),
        Keycode::Y => Some(89),
        Keycode::Z => Some(90),
        Keycode::F1 => Some(112),
        Keycode::F2 => Some(113),
        Keycode::F3 => Some(114),
        Keycode::F4 => Some(115),
        Keycode::F5 => Some(116),
        Keycode::F6 => Some(117),
        Keycode::F7 => Some(118),
        Keycode::F8 => Some(119),
        Keycode::F9 => Some(120),
        Keycode::F10 => Some(121),
        Keycode::F11 => Some(122),
        Keycode::F12 => Some(123),
        Keycode::F13 => Some(124),
        Keycode::F14 => Some(125),
        Keycode::F15 => Some(126),
        Keycode::F16 => Some(127),
        Keycode::F17 => Some(128),
        Keycode::F18 => Some(129),
        Keycode::F19 => Some(130),
        Keycode::F20 => Some(131),
        Keycode::Escape => Some(27),
        Keycode::Space => Some(32),
        Keycode::LControl => Some(162),
        Keycode::RControl => Some(163),
        Keycode::LShift => Some(160),
        Keycode::RShift => Some(161),
        Keycode::LAlt => Some(164),
        Keycode::RAlt => Some(165),
        Keycode::LMeta => Some(91),
        Keycode::RMeta => Some(92),
        Keycode::Enter => Some(13),
        Keycode::Up => Some(38),
        Keycode::Down => Some(40),
        Keycode::Left => Some(37),
        Keycode::Right => Some(39),
        Keycode::Backspace => Some(8),
        Keycode::CapsLock => Some(20),
        Keycode::Tab => Some(9),
        Keycode::Home => Some(36),
        Keycode::End => Some(35),
        Keycode::PageUp => Some(33),
        Keycode::PageDown => Some(34),
        Keycode::Insert => Some(45),
        Keycode::Delete => Some(46),
        Keycode::Numpad0 => Some(96),
        Keycode::Numpad1 => Some(97),
        Keycode::Numpad2 => Some(98),
        Keycode::Numpad3 => Some(99),
        Keycode::Numpad4 => Some(100),
        Keycode::Numpad5 => Some(101),
        Keycode::Numpad6 => Some(102),
        Keycode::Numpad7 => Some(103),
        Keycode::Numpad8 => Some(104),
        Keycode::Numpad9 => Some(105),
        Keycode::NumpadSubtract => Some(109),
        Keycode::NumpadAdd => Some(107),
        Keycode::NumpadDivide => Some(111),
        Keycode::NumpadMultiply => Some(106),
        Keycode::NumpadEquals => Some(146),
        Keycode::NumpadDecimal => Some(110),
        Keycode::Grave => Some(192),
        Keycode::Minus => Some(189),
        Keycode::Equal => Some(187),
        Keycode::LeftBracket => Some(219),
        Keycode::RightBracket => Some(221),
        Keycode::BackSlash => Some(220),
        Keycode::Semicolon => Some(186),
        Keycode::Apostrophe => Some(222),
        Keycode::Comma => Some(188),
        Keycode::Dot => Some(190),
        Keycode::Slash => Some(191),
        // keys that only other platforms have
        Keycode::Command | Keycode::RCommand | Keycode::LOption
        | Keycode::ROption | Keycode::NumpadEnter => None,
    }
}

/// The key that a native code stands for: the key whose virtual-key code it
/// is, if there is one. A code that no key has stands for nothing, whatever
/// its low byte is.
pub open spec fn translate_spec(win_key: u16) -> Option<Keycode> {
    if exists|key: Keycode| virtual_key(key) == Some(win_key) {
        Some(choose|key: Keycode| virtual_key(key) == Some(win_key))
    } else {
        None
    }
}

/// Whether a key state, as the synchronous key-state call returns it, says
/// that the key is down: its most significant bit is set.
pub open spec fn is_down(state: i16) -> bool {
    state < 0
}

/// The signed high word of a wheel message's data: the distance the wheel
/// moved.
pub open spec fn wheel_distance(mouse_data: u32) -> int {
    let high = mouse_data as int / 0x1_0000;
    if high >= 0x8000 {
        high - 0x1_0000
    } else {
        high
    }
}

/// The whole ticks in a wheel message's data, rounded toward zero.
pub open spec fn wheel_ticks_spec(mouse_data: u32) -> int {
    let distance = wheel_distance(mouse_data);
    if distance >= 0 {
        distance / 120
    } else {
        -((-distance) / 120)
    }
}

/// What a hook call does to the pending scroll movement. Only a call that
/// the platform marks as an event (`code` not negative) counts, and of those
/// only the two wheel messages; the message is the low 32 bits of `message`.
pub open spec fn hook_effect(pending: ScrollDelta, code: i32, message: usize, mouse_data: u32)
    -> ScrollDelta {
    let low = (message as int) % 0x1_0000_0000;
    if code < 0 {
        pending
    } else if low == WM_MOUSEWHEEL {
        pending.plus(Axis::Vertical, wheel_ticks_spec(mouse_data) as i32)
    } else if low == WM_MOUSEHWHEEL {
        pending.plus(Axis::Horizontal, wheel_ticks_spec(mouse_data) as i32)
    } else {
        pending
    }
}

/// What the pointer and button calls reported for one query.
#[derive(Debug, Clone, Copy)]
pub struct PointerReading {
    /// The cursor position, or `None` where it could not be read.
    pub cursor: Option<MousePosition>,
    /// Key state of `VK_LBUTTON`.
    pub left: i16,
    /// Key state of `VK_RBUTTON`.
    pub right: i16,
    /// Key state of `VK_MBUTTON`.
    pub middle: i16,
    /// Key state of `VK_XBUTTON1`.
    pub x1: i16,
    /// Key state of `VK_XBUTTON2`.
    pub x2: i16,
}

/// The snapshot that a pointer query makes of `reading` while `pending`
/// scroll movement waits.
pub open spec fn pointer_snapshot(reading: PointerReading, pending: ScrollDelta)
    -> MouseStateView {
    MouseStateView {
        coords: match reading.cursor {
            Some(position) => position,
            None => (0i32, 0i32),
        },
        button_pressed: seq![
            false,
            is_down(reading.left),
            is_down(reading.right),
            is_down(reading.middle),
            is_down(reading.x1),
            is_down(reading.x2),
        ],
        scroll_delta: pending,
    }
}

/// The key that each of the first `n` slots of a keyboard reading reports:
/// the key that the slot's number stands for, where that key is down.
pub open spec fn key_slots(key_states: Seq<i16>, n: int) -> Seq<Option<Keycode>> {
    Seq::new(
        n as nat,
        |code: int|
            if is_down(key_states[code]) {
                translate_spec(code as u16)
            } else {
                None
            },
    )
}

/// Whether a key state says that the key is down.
pub fn key_is_down(state: i16) -> (down: bool)
    ensures
        down == is_down(state),
{
    assert((((state as u32) & 0x8000) != 0) == (state < 0)) by (bit_vector);
    (#[verifier::truncate] (state as u32)) & 0x8000 != 0
}

/// The ticks that a wheel message carries: the signed high word of its data,
/// in units of `WHEEL_DELTA`.
pub fn wheel_ticks(mouse_data: u32) -> (ticks: i32)
    ensures
        ticks == wheel_ticks_spec(mouse_data),
        -273 <= ticks <= 273,
{
    assert(((mouse_data >> 16) as i16) as int == (if mouse_data / 0x1_0000 >= 0x8000 {
        mouse_data / 0x1_0000 - 0x1_0000
    } else {
        (mouse_data / 0x1_0000) as int
    })) by (bit_vector);
    let distance = #[verifier::truncate] ((mouse_data >> 16) as i16);
    let ticks = distance / WHEEL_DELTA;
    ticks as i32
}

/// The hook procedure's part in the scroll movement: adds the ticks of a
/// wheel message to the pending movement of its axis. Every call, counted or
/// not, is to be handed on to the next hook unchanged.
pub fn mouse_hook_proc(scroll: &mut ScrollAccumulator, code: i32, message: usize, mouse_data: u32)
    ensures
        final(scroll)@ == hook_effect(old(scroll)@, code, message, mouse_data),
{
    if code >= 0 {
        assert(message as u32 == (message as int) % 0x1_0000_0000) by (bit_vector);
        let low = #[verifier::truncate] (message as u32);
        match low {
            WM_MOUSEWHEEL => {
                let delta = wheel_ticks(mouse_data);
                scroll.add(Axis::Vertical, delta);
            },
            WM_MOUSEHWHEEL => {
                let delta = wheel_ticks(mouse_data);
                scroll.add(Axis::Horizontal, delta);
            },
            _ => {},
        }
    }
}

/// The device state of a process whose scroll hook was asked for.
#[derive(Debug, Clone, Copy)]
pub struct DeviceState;

impl DeviceState {
    /// Makes the device state, starting the scroll hook where no start was
    /// asked for before. `report` is what is known of the hook's worker when
    /// the wait for it ends, its report or `None`; see `install_needed` for
    /// when it counts. The hook must not have failed.
    pub fn new(hook: &mut HookLifecycle, report: Option<Result<(), HookError>>)
        -> (state: DeviceState)
        requires
            construction(true, old(hook)@, report).1 is Ok,
        ensures
            final(hook)@ == construction(true, old(hook)@, report).0,
    {
        let _ = prepare(true, hook, report);
        DeviceState
    }

    /// Makes the device state as `new` does, or returns `None` where the
    /// hook has failed. Windows asks for no permission.
    pub fn checked_new(hook: &mut HookLifecycle, report: Option<Result<(), HookError>>)
        -> (state: Option<DeviceState>)
        ensures
            final(hook)@ == construction(true, old(hook)@, report).0,
            state is Some <==> construction(true, old(hook)@, report).1 is Ok,
    {
        match prepare(true, hook, report) {
            Ok(_) => Some(DeviceState),
            Err(_) => None,
        }
    }

    /// The mouse now: the cursor where it was read and the origin where it
    /// was not, slot 0 unused and the five buttons after it, and the scroll
    /// movement since the previous query, which is taken out of `scroll`.
    pub fn query_pointer(&self, reading: &PointerReading, scroll: &mut ScrollAccumulator)
        -> (state: MouseState)
        ensures
            state@ == pointer_snapshot(*reading, old(scroll)@),
            (state.scroll_delta, final(scroll)@) == old(scroll)@.drained(),
            state@.well_formed(),
            state.button_pressed@.len() == 6,
    {
        let coords = match reading.cursor {
            Some(position) => position,
            None => (0, 0),
        };
        let scroll_delta = scroll.drain();
        let state = MouseState {
            coords,
            button_pressed: vec![
                false,
                key_is_down(reading.left),
                key_is_down(reading.right),
                key_is_down(reading.middle),
                key_is_down(reading.x1),
                key_is_down(reading.x2),
            ],
            scroll_delta,
        };
        assert(state@.button_pressed =~= pointer_snapshot(*reading, old(scroll)@).button_pressed);
        state
    }

    /// The keys that are down, in the order of their codes. `key_states[c]`
    /// is the key state of the virtual-key code `c`. A code that stands for
    /// no key is passed over, and no key is reported twice.
    pub fn query_keymap(&self, key_states: &[i16; 256]) -> (keys: Vec<Keycode>)
        ensures
            keys@ == present(key_slots(key_states@, 256)),
            keys@.no_duplicates(),
            forall|key: Keycode| #[trigger]
                keys@.contains(key) <==> exists|code: int|
                    0 <= code < 256 && key_slots(key_states@, 256)[code] == Some(key),
    {
        let mut slots: Vec<Option<Keycode>> = Vec::new();
        let mut ix: usize = 0;
        while ix < KEY_SLOTS
            invariant
                ix <= 256,
                slots@ == key_slots(key_states@, ix as int),
            decreases 256 - ix,
        {
            let slot = if key_is_down(key_states[ix]) {
                self.win_key_to_keycode(ix as u16)
            } else {
                None
            };
            slots.push(slot);
            ix += 1;
        }
        proof {
            lemma_key_slots_distinct(key_states@);
        }
        reported_keys(&slots)
    }

    /// The key that the native code `win_key` stands for, if it stands for
    /// one: first by the table of virtual keys, then, for a code that is a
    /// byte, by the digit or letter that the byte is as a character. A code
    /// above 255 stands for no key.
    pub fn win_key_to_keycode(&self, win_key: u16) -> (keycode: Option<Keycode>)
        ensures
            keycode == translate_spec(win_key),
            win_key > 255 ==> keycode is None,
    {
        let mut keycode = match win_key {
            VK_F1 => Some(Keycode::F1),
            VK_F2 => Some(Keycode::F2),
            VK_F3 => Some(Keycode::F3),
            VK_F4 => Some(Keycode::F4),
            VK_F5 => Some(Keycode::F5),
            VK_F6 => Some(Keycode::F6),
            VK_F7 => Some(Keycode::F7),
            VK_F8 => Some(Keycode::F8),
            VK_F9 => Some(Keycode::F9),
            VK_F10 => Some(Keycode::F10),
            VK_F11 => Some(Keycode::F11),
            VK_F12 => Some(Keycode::F12),
            VK_F13 => Some(Keycode::F13),
            VK_F14 => Some(Keycode::F14),
            VK_F15 => Some(Keycode::F15),
            VK_F16 => Some(Keycode::F16),
            VK_F17 => Some(Keycode::F17),
            VK_F18 => Some(Keycode::F18),
            VK_F19 => Some(Keycode::F19),
            VK_F20 => Some(Keycode::F20),
            VK_NUMPAD0 => Some(Keycode::Numpad0),
            VK_NUMPAD1 => Some(Keycode::Numpad1),
            VK_NUMPAD2 => Some(Keycode::Numpad2),
            VK_NUMPAD3 => Some(Keycode::Numpad3),
            VK_NUMPAD4 => Some(Keycode::Numpad4),
            VK_NUMPAD5 => Some(Keycode::Numpad5),
            VK_NUMPAD6 => Some(Keycode::Numpad6),
            VK_NUMPAD7 => Some(Keycode::Numpad7),
            VK_NUMPAD8 => Some(Keycode::Numpad8),
            VK_NUMPAD9 => Some(Keycode::Numpad9),
            VK_ADD => Some(Keycode::NumpadAdd),
            VK_SUBTRACT => Some(Keycode::NumpadSubtract),
            VK_DIVIDE => Some(Keycode::NumpadDivide),
            VK_MULTIPLY => Some(Keycode::NumpadMultiply),
            VK_OEM_NEC_EQUAL => Some(Keycode::NumpadEquals),
            VK_DECIMAL => Some(Keycode::NumpadDecimal),
            VK_SPACE => Some(Keycode::Space),
            VK_LCONTROL => Some(Keycode::LControl),
            VK_RCONTROL => Some(Keycode::RControl),
            VK_LSHIFT => Some(Keycode::LShift),
            VK_RSHIFT => Some(Keycode::RShift),
            VK_LMENU => Some(Keycode::LAlt),
            VK_RMENU => Some(Keycode::RAlt),
            VK_LWIN => Some(Keycode::LMeta),
            VK_RWIN => Some(Keycode::RMeta),
            VK_RETURN => Some(Keycode::Enter),
            VK_ESCAPE => Some(Keycode::Escape),
            VK_UP => Some(Keycode::Up),
            VK_DOWN => Some(Keycode::Down),
            VK_LEFT => Some(Keycode::Left),
            VK_RIGHT => Some(Keycode::Right),
            VK_BACK => Some(Keycode::Backspace),
            VK_CAPITAL => Some(Keycode::CapsLock),
            VK_TAB => Some(Keycode::Tab),
            VK_HOME => Some(Keycode::Home),
            VK_END => Some(Keycode::End),
            VK_PRIOR => Some(Keycode::PageUp),
            VK_NEXT => Some(Keycode::PageDown),
            VK_INSERT => Some(Keycode::Insert),
            VK_DELETE => Some(Keycode::Delete),
            VK_OEM_3 => Some(Keycode::Grave),
            VK_OEM_MINUS => Some(Keycode::Minus),
            VK_OEM_PLUS => Some(Keycode::Equal),
            VK_OEM_4 => Some(Keycode::LeftBracket),
            VK_OEM_6 => Some(Keycode::RightBracket),
            VK_OEM_5 => Some(Keycode::BackSlash),
            VK_OEM_1 => Some(Keycode::Semicolon),
            VK_OEM_7 => Some(Keycode::Apostrophe),
            VK_OEM_COMMA => Some(Keycode::Comma),
            VK_OEM_PERIOD => Some(Keycode::Dot),
            VK_OEM_2 => Some(Keycode::Slash),
            _ => None,
        };

        if keycode.is_none() && win_key < 256 {
            let byte = win_key as u8;
            keycode = match byte as char {
                '0' => Some(Keycode::Key0),
                '1' => Some(Keycode::Key1),
                '2' => Some(Keycode::Key2),
                '3' => Some(Keycode::Key3),
                '4' => Some(Keycode::Key4),
                '5' => Some(Keycode::Key5),
                '6' => Some(Keycode::Key6),
                '7' => Some(Keycode::Key7),
                '8' => Some(Keycode::Key8),
                '9' => Some(Keycode::Key9),
                'A' => Some(Keycode::A),
                'B' => Some(Keycode::B),
                'C' => Some(Keycode::C),
                'D' => Some(Keycode::D),
                'E' => Some(Keycode::E),
                'F' => Some(Keycode::F),
                'G' => Some(Keycode::G),
                'H' => Some(Keycode::H),
                'I' => Some(Keycode::I),
                'J' => Some(Keycode::J),
                'K' => Some(Keycode::K),
                'L' => Some(Keycode::L),
                'M' => Some(Keycode::M),
                'N' => Some(Keycode::N),
                'O' => Some(Keycode::O),
                'P' => Some(Keycode::P),
                'Q' => Some(Keycode::Q),
                'R' => Some(Keycode::R),
                'S' => Some(Keycode::S),
                'T' => Some(Keycode::T),
                'U' => Some(Keycode::U),
                'V' => Some(Keycode::V),
                'W' => Some(Keycode::W),
                'X' => Some(Keycode::X),
                'Y' => Some(Keycode::Y),
                'Z' => Some(Keycode::Z),
                _ => None,
            }
        }
        proof {
            if let Some(key) = keycode {
                lemma_virtual_key_is_injective(key, translate_spec(win_key).unwrap());
            }
        }
        keycode
    }
}

/// No two keys share a virtual-key code.
pub proof fn lemma_virtual_key_is_injective(a: Keycode, b: Keycode)
    requires
        virtual_key(a) is Some,
        virtual_key(a) == virtual_key(b),
    ensures
        a == b,
{
}

/// Law of the table, one way: a key that a code translates to has that code
/// for its virtual-key code.
pub proof fn lemma_translated_key_has_code(win_key: u16)
    ensures
        translate_spec(win_key) matches Some(key) ==> virtual_key(key) == Some(win_key),
{
}

/// Law of the table, the other way: the virtual-key code of a key
/// translates to that key.
pub proof fn lemma_key_code_translates_back(key: Keycode)
    requires
        virtual_key(key) is Some,
    ensures
        translate_spec(virtual_key(key).unwrap()) == Some(key),
{
    let code = virtual_key(key).unwrap();
    lemma_virtual_key_is_injective(key, translate_spec(code).unwrap());
}

/// Law of the codes outside the table: a code translates to nothing exactly
/// if it is the virtual-key code of no key. Every code above 255 is such a
/// code.
pub proof fn lemma_code_outside_the_table_is_none(win_key: u16)
    ensures
        translate_spec(win_key) is None <==> forall|key: Keycode| #[trigger]
            virtual_key(key) != Some(win_key),
        win_key > 255 ==> translate_spec(win_key) is None,
{
}

/// No two codes translate to the same key.
pub proof fn lemma_translate_is_injective(a: u16, b: u16)
    requires
        translate_spec(a) is Some,
        translate_spec(a) == translate_spec(b),
    ensures
        a == b,
{
}

/// The slots of a keyboard reading report no key twice.
pub proof fn lemma_key_slots_distinct(key_states: Seq<i16>)
    ensures
        slots_distinct(key_slots(key_states, 256)),
{
    let slots = key_slots(key_states, 256);
    assert forall|i: int, j: int|
        0 <= i < slots.len() && 0 <= j < slots.len() && slots[i] is Some && slots[i]
            == slots[j] implies i == j by {
        lemma_translate_is_injective(i as u16, j as u16);
    }
}

} // verus!
