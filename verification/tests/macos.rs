use device_query::device_state::install_needed;
use device_query::device_state::macos::{
    event_mask, is_scroll_event, scroll_callback, translate, DeviceState, PointerReading, TapAction,
    K_CG_EVENT_SCROLL_WHEEL, K_CG_EVENT_TAP_DISABLED_BY_TIMEOUT,
};
use device_query::hook::{HookError, HookLifecycle, HookState};
use device_query::keymap::Keycode;
use device_query::mouse_state::ScrollDelta;
use device_query::scroll::{Axis, ScrollAccumulator};

fn ready_state() -> DeviceState {
    let mut hook = HookLifecycle::new();
    DeviceState::new(true, &mut hook, Some(Ok(())))
}

/// Whether `keys` holds the keys of `expected`, each once, in whatever order.
fn same_keys(keys: &[Keycode], expected: &[Keycode]) -> bool {
    keys.len() == expected.len()
        && expected.iter().all(|key| keys.iter().filter(|k| *k == key).count() == 1)
}

fn reading(location: (i32, i32), left: bool, right: bool, center: bool) -> PointerReading {
    PointerReading { location, left, right, center }
}

#[test]
fn macos_scroll_up_three_down_two_then_query() {
    let state = ready_state();
    let mut scroll = ScrollAccumulator::new();
    assert_eq!(
        scroll_callback(&mut scroll, K_CG_EVENT_SCROLL_WHEEL, 3, 0),
        TapAction::PassThrough
    );
    assert_eq!(
        scroll_callback(&mut scroll, K_CG_EVENT_SCROLL_WHEEL, -2, 0),
        TapAction::PassThrough
    );
    let first = state.query_pointer(&reading((10, 20), false, false, false), &mut scroll);
    assert_eq!(first.scroll_delta, ScrollDelta { vertical: 1, horizontal: 0 });
    let second = state.query_pointer(&reading((10, 20), false, false, false), &mut scroll);
    assert_eq!(second.scroll_delta, ScrollDelta { vertical: 0, horizontal: 0 });
}

#[test]
fn macos_checked_new_without_permission_is_none() {
    let mut hook = HookLifecycle::new();
    assert!(!install_needed(false, &hook));
    let state = DeviceState::checked_new(false, &mut hook, Some(Ok(())));
    assert!(state.is_none());
    // no worker was asked for: the hook is as it was
    assert_eq!(hook.state(), HookState::Uninitialized);
    assert!(hook.needs_worker());
}

#[test]
fn macos_checked_new_without_permission_leaves_a_running_hook() {
    let mut hook = HookLifecycle::new();
    assert!(DeviceState::checked_new(true, &mut hook, Some(Ok(()))).is_some());
    assert!(DeviceState::checked_new(false, &mut hook, Some(Err(HookError::HookInstallFailed))).is_none());
    assert_eq!(hook.state(), HookState::Running);
}

#[test]
fn macos_checked_new_with_permission_starts_the_hook() {
    let mut hook = HookLifecycle::new();
    assert!(install_needed(true, &hook));
    assert!(DeviceState::checked_new(true, &mut hook, Some(Ok(()))).is_some());
    assert_eq!(hook.state(), HookState::Running);
    assert!(!install_needed(true, &hook));
}

#[test]
fn macos_checked_new_is_none_where_the_hook_fails() {
    let mut hook = HookLifecycle::new();
    assert!(DeviceState::checked_new(true, &mut hook, Some(Err(HookError::HookInstallFailed))).is_none());
    assert_eq!(hook.state(), HookState::Failed(HookError::HookInstallFailed));
    // failed for good: a later construction does not try again
    assert!(!install_needed(true, &hook));
    assert!(DeviceState::checked_new(true, &mut hook, Some(Ok(()))).is_none());
    let mut other = HookLifecycle::new();
    assert!(DeviceState::checked_new(true, &mut other, Some(Err(HookError::PermissionDenied))).is_none());
    assert_eq!(other.state(), HookState::Failed(HookError::PermissionDenied));
}

#[test]
fn macos_two_device_states_share_one_hook() {
    let mut hook = HookLifecycle::new();
    let _first = DeviceState::new(true, &mut hook, Some(Ok(())));
    assert_eq!(hook.state(), HookState::Running);
    assert!(!install_needed(true, &hook));
    let _second = DeviceState::new(true, &mut hook, Some(Err(HookError::HookInstallFailed)));
    assert_eq!(hook.state(), HookState::Running);
}

#[test]
fn macos_query_pointer_has_five_slots_and_slot_zero_unused() {
    let state = ready_state();
    let mut scroll = ScrollAccumulator::new();
    for bits in 0..8 {
        let r = reading((0, 0), bits & 1 != 0, bits & 2 != 0, bits & 4 != 0);
        let mouse = state.query_pointer(&r, &mut scroll);
        assert_eq!(mouse.button_pressed.len(), 5);
        assert!(!mouse.button_pressed[0]);
        assert_eq!(
            mouse.button_pressed,
            vec![false, bits & 1 != 0, bits & 2 != 0, bits & 4 != 0, false]
        );
    }
}

#[test]
fn macos_query_pointer_reports_location_and_buttons() {
    let state = ready_state();
    let mut scroll = ScrollAccumulator::new();
    scroll.add(Axis::Horizontal, -4);
    let mouse = state.query_pointer(&reading((1440, -3), true, false, true), &mut scroll);
    assert_eq!(mouse.coords, (1440, -3));
    assert_eq!(mouse.button_pressed, vec![false, true, false, true, false]);
    assert_eq!(mouse.scroll_delta, ScrollDelta { vertical: 0, horizontal: -4 });
    assert_eq!(scroll.pending(), ScrollDelta { vertical: 0, horizontal: 0 });
}

#[test]
fn macos_scroll_callback_adds_both_axes() {
    let mut scroll = ScrollAccumulator::new();
    assert_eq!(scroll_callback(&mut scroll, 22, 2, -5), TapAction::PassThrough);
    assert_eq!(scroll.pending(), ScrollDelta { vertical: 2, horizontal: -5 });
}

#[test]
fn macos_scroll_callback_reenables_disabled_tap() {
    let mut scroll = ScrollAccumulator::new();
    scroll.add(Axis::Vertical, 1);
    assert_eq!(
        scroll_callback(&mut scroll, K_CG_EVENT_TAP_DISABLED_BY_TIMEOUT, 9, 9),
        TapAction::ReEnableTap
    );
    assert_eq!(scroll_callback(&mut scroll, 0xFFFF_FFFE, 9, 9), TapAction::ReEnableTap);
    assert_eq!(scroll.pending(), ScrollDelta { vertical: 1, horizontal: 0 });
}

#[test]
fn macos_scroll_callback_ignores_other_events() {
    let mut scroll = ScrollAccumulator::new();
    for event_type in [0u32, 1, 5, 21, 23, 0xFFFF_FFFF, 0xFFFF_FFFD] {
        assert_eq!(scroll_callback(&mut scroll, event_type, 9, 9), TapAction::PassThrough);
    }
    assert_eq!(scroll.pending(), ScrollDelta { vertical: 0, horizontal: 0 });
}

#[test]
fn macos_scroll_callback_keeps_low_32_bits_of_a_delta() {
    let mut scroll = ScrollAccumulator::new();
    scroll_callback(&mut scroll, 22, (1i64 << 32) + 5, -(1i64 << 32) - 6);
    assert_eq!(scroll.pending(), ScrollDelta { vertical: 5, horizontal: -6 });
    scroll_callback(&mut scroll, 22, 0x8000_0000, i64::MIN);
    assert_eq!(
        scroll.pending(),
        ScrollDelta { vertical: 5i32.wrapping_add(i32::MIN), horizontal: -6 }
    );
}

#[test]
fn macos_event_mask_asks_for_scroll_events_only() {
    assert_eq!(event_mask(), 1u64 << 22);
    assert_eq!(event_mask(), 0x40_0000);
    assert!(is_scroll_event(22));
    assert!(!is_scroll_event(0xFFFF_FFFE));
    assert!(!is_scroll_event(0));
}

#[test]
fn macos_translate_known_codes() {
    assert_eq!(translate(0x00), Some(Keycode::A));
    assert_eq!(translate(0x01), Some(Keycode::S));
    assert_eq!(translate(0x0B), Some(Keycode::B));
    assert_eq!(translate(0x1D), Some(Keycode::Key0));
    assert_eq!(translate(0x12), Some(Keycode::Key1));
    assert_eq!(translate(0x17), Some(Keycode::Key5));
    assert_eq!(translate(0x16), Some(Keycode::Key6));
    assert_eq!(translate(0x7A), Some(Keycode::F1));
    assert_eq!(translate(0x5A), Some(Keycode::F20));
    assert_eq!(translate(0x52), Some(Keycode::Numpad0));
    assert_eq!(translate(0x45), Some(Keycode::NumpadAdd));
    assert_eq!(translate(0x4E), Some(Keycode::NumpadSubtract));
    assert_eq!(translate(0x4C), Some(Keycode::NumpadEnter));
    assert_eq!(translate(0x51), Some(Keycode::NumpadEquals));
    assert_eq!(translate(0x35), Some(Keycode::Escape));
    assert_eq!(translate(0x31), Some(Keycode::Space));
    assert_eq!(translate(0x3B), Some(Keycode::LControl));
    assert_eq!(translate(0x3E), Some(Keycode::RControl));
    assert_eq!(translate(0x38), Some(Keycode::LShift));
    assert_eq!(translate(0x3C), Some(Keycode::RShift));
    assert_eq!(translate(0x3A), Some(Keycode::LOption));
    assert_eq!(translate(0x3D), Some(Keycode::ROption));
    assert_eq!(translate(0x37), Some(Keycode::Command));
    assert_eq!(translate(0x90), Some(Keycode::RCommand));
    assert_eq!(translate(0x24), Some(Keycode::Enter));
    assert_eq!(translate(0x33), Some(Keycode::Backspace));
    assert_eq!(translate(0x75), Some(Keycode::Delete));
    assert_eq!(translate(0x72), Some(Keycode::Insert));
    assert_eq!(translate(0x27), Some(Keycode::Apostrophe));
    assert_eq!(translate(0x2F), Some(Keycode::Dot));
    assert_eq!(translate(0x2A), Some(Keycode::BackSlash));
    assert_eq!(translate(0x7E), Some(Keycode::Up));
}

#[test]
fn macos_translate_unmapped_codes_are_none() {
    // keys of the keyboard that the table leaves out
    for code in [0x0Au16, 0x3F, 0x47, 0x48, 0x49, 0x4A, 0x5D, 0x5E, 0x5F, 0x66, 0x68] {
        assert_eq!(translate(code), None);
    }
    // codes of no key
    for code in [0x34u16, 0x36, 0x7F, 0x80, 0x8F, 0x91, 0xFF, 0x100, 0x190, 0xFFFF] {
        assert_eq!(translate(code), None);
    }
}

#[test]
fn macos_translate_table_is_complete_and_one_to_one() {
    let mut seen: Vec<(u16, Keycode)> = Vec::new();
    for code in 0..=u16::MAX {
        if let Some(key) = translate(code) {
            assert!(seen.iter().all(|(_, k)| *k != key));
            seen.push((code, key));
        }
    }
    assert_eq!(seen.len(), 108);
    assert!(seen.iter().all(|(code, _)| *code <= 0x90));
    for lost in [Keycode::LAlt, Keycode::RAlt, Keycode::LMeta, Keycode::RMeta] {
        assert!(seen.iter().all(|(_, k)| *k != lost));
    }
}

#[test]
fn macos_query_keymap_reports_pressed_keys() {
    let state = ready_state();
    let mut pressed = [false; 256];
    assert_eq!(state.query_keymap(&pressed), Vec::<Keycode>::new());
    pressed[0x38] = true; // shift
    pressed[0x00] = true; // a
    pressed[0x7E] = true; // up
    let keys = state.query_keymap(&pressed);
    assert!(same_keys(&keys, &[Keycode::A, Keycode::LShift, Keycode::Up]));
}

#[test]
fn macos_query_keymap_passes_over_unmapped_codes() {
    let state = ready_state();
    let mut pressed = [false; 256];
    pressed[0x3F] = true; // fn
    pressed[0x0A] = true; // section
    pressed[0xFF] = true;
    assert_eq!(state.query_keymap(&pressed), Vec::<Keycode>::new());
    pressed[0x90] = true;
    assert_eq!(state.query_keymap(&pressed), vec![Keycode::RCommand]);
}

#[test]
fn macos_query_keymap_with_every_slot_down_reports_each_key_once() {
    let state = ready_state();
    let keys = state.query_keymap(&[true; 256]);
    assert_eq!(keys.len(), 108);
    for (i, key) in keys.iter().enumerate() {
        assert!(keys[..i].iter().all(|k| k != key));
    }
}

#[test]
fn macos_query_keymap_reports_digit_and_letter_whatever_the_order() {
    let state = ready_state();
    let mut pressed = [false; 256];
    pressed[0x12] = true; // 1
    pressed[0x00] = true; // a
    let keys = state.query_keymap(&pressed);
    assert!(same_keys(&keys, &[Keycode::Key1, Keycode::A]));
}

#[test]
fn macos_checked_new_without_a_report_succeeds() {
    let mut hook = HookLifecycle::new();
    assert!(DeviceState::checked_new(true, &mut hook, None).is_some());
    assert_eq!(hook.state(), HookState::Installing);
    // the report comes after the constructor has returned
    hook.complete_start(Ok(()));
    assert_eq!(hook.state(), HookState::Running);
    assert!(DeviceState::checked_new(true, &mut hook, None).is_some());
}
