use device_query::device_state::{install_needed, prepare, reported_keys};
use device_query::keymap::Keycode;
use device_query::hook::{HookCommand, HookError, HookLifecycle, HookState};

#[test]
fn install_is_needed_once_and_only_with_permission() {
    let mut hook = HookLifecycle::new();
    assert!(!install_needed(false, &hook));
    assert!(install_needed(true, &hook));
    assert_eq!(hook.request_start(), HookCommand::SpawnWorker);
    assert!(!install_needed(true, &hook));
    hook.complete_start(Ok(()));
    assert!(!install_needed(true, &hook));
    assert!(!install_needed(false, &hook));
}

#[test]
fn install_is_not_needed_after_a_failure() {
    let mut hook = HookLifecycle::new();
    assert_eq!(
        hook.ensure_started(Some(Err(HookError::HookInstallFailed))),
        Err(HookError::HookInstallFailed)
    );
    assert!(!install_needed(true, &hook));
}

#[test]
fn prepare_says_why_no_device_state_can_be_made() {
    let mut hook = HookLifecycle::new();
    assert_eq!(prepare(false, &mut hook, Some(Ok(()))), Err(HookError::PermissionDenied));
    assert_eq!(hook.state(), HookState::Uninitialized);
    assert_eq!(
        prepare(true, &mut hook, Some(Err(HookError::HookInstallFailed))),
        Err(HookError::HookInstallFailed)
    );
    assert_eq!(hook.state(), HookState::Failed(HookError::HookInstallFailed));
    assert_eq!(prepare(true, &mut hook, Some(Ok(()))), Err(HookError::HookInstallFailed));
    assert_eq!(prepare(false, &mut hook, Some(Ok(()))), Err(HookError::PermissionDenied));
}

#[test]
fn prepare_starts_the_hook_once() {
    let mut hook = HookLifecycle::new();
    assert_eq!(prepare(true, &mut hook, Some(Ok(()))), Ok(()));
    assert_eq!(hook.state(), HookState::Running);
    assert_eq!(prepare(true, &mut hook, Some(Err(HookError::HookInstallFailed))), Ok(()));
    assert_eq!(hook.state(), HookState::Running);
}

#[test]
fn prepare_without_a_report_succeeds() {
    let mut hook = HookLifecycle::new();
    assert_eq!(prepare(true, &mut hook, None), Ok(()));
    assert_eq!(hook.state(), HookState::Installing);
    assert!(!install_needed(true, &hook));
    assert_eq!(prepare(false, &mut hook, None), Err(HookError::PermissionDenied));
    assert_eq!(hook.state(), HookState::Installing);
}

#[test]
fn reported_keys_are_the_keys_of_the_slots_in_order() {
    assert_eq!(reported_keys(&vec![]), Vec::<Keycode>::new());
    assert_eq!(reported_keys(&vec![None, None, None]), Vec::<Keycode>::new());
    let slots = vec![
        None,
        Some(Keycode::Z),
        None,
        None,
        Some(Keycode::A),
        Some(Keycode::F5),
        None,
    ];
    assert_eq!(reported_keys(&slots), vec![Keycode::Z, Keycode::A, Keycode::F5]);
}

#[test]
fn reported_keys_keep_what_the_slots_repeat() {
    let slots = vec![Some(Keycode::A), None, Some(Keycode::A)];
    assert_eq!(reported_keys(&slots), vec![Keycode::A, Keycode::A]);
}
