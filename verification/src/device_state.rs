//! The query side: what is the same on every platform. A device state can be
//! made once the process may watch input and its scroll hook has not failed;
//! a keyboard query reports the keys of the slots that are down, each once.

use vstd::prelude::*;
use crate::hook::{HookError, HookLifecycle, HookState};
use crate::keymap::Keycode;

pub mod macos;
pub mod windows;

verus! {

/// Whether making a device state has the hook installed first: the process
/// may watch input, and nobody asked for the hook before.
pub open spec fn install_needed_spec(permission_granted: bool, hook: HookState) -> bool {
    permission_granted && hook == HookState::Uninitialized
}

/// What making a device state does to the hook, and whether a device state
/// comes of it. Without permission the hook is left alone and nothing is
/// made. With it the hook is started, and a device state is made unless the
/// hook has failed. `report` is what is known of the hook's worker when the
/// wait for it ends: its report, or `None`.
pub open spec fn construction(
    permission_granted: bool,
    hook: HookState,
    report: Option<Result<(), HookError>>,
) -> (HookState, Result<(), HookError>) {
    if permission_granted {
        hook.ensured(report)
    } else {
        (hook, Err(HookError::PermissionDenied))
    }
}

/// Whether the caller is to start the hook's worker, and wait a bounded time
/// for its report, before it makes a device state with what it then knows.
pub fn install_needed(permission_granted: bool, hook: &HookLifecycle) -> (needed: bool)
    ensures
        needed == install_needed_spec(permission_granted, hook@),
{
    permission_granted && hook.needs_worker()
}

/// The part of making a device state that no platform does differently:
/// starts the hook where the process may watch input, and says whether a
/// device state can be made, or why not.
pub fn prepare(
    permission_granted: bool,
    hook: &mut HookLifecycle,
    report: Option<Result<(), HookError>>,
) -> (ready: Result<(), HookError>)
    ensures
        (final(hook)@, ready) == construction(permission_granted, old(hook)@, report),
{
    if permission_granted {
        hook.ensure_started(report)
    } else {
        Err(HookError::PermissionDenied)
    }
}

/// The keys that the slots report, in the order of the slots.
pub open spec fn present(slots: Seq<Option<Keycode>>) -> Seq<Keycode>
    decreases slots.len(),
{
    if slots.len() == 0 {
        Seq::empty()
    } else {
        let before = present(slots.drop_last());
        match slots.last() {
            Some(key) => before.push(key),
            None => before,
        }
    }
}

/// No two slots report the same key.
pub open spec fn slots_distinct(slots: Seq<Option<Keycode>>) -> bool {
    forall|i: int, j: int|
        0 <= i < slots.len() && 0 <= j < slots.len() && slots[i] is Some && slots[i] == slots[j]
            ==> i == j
}

/// The part of a keyboard query that no platform does differently: the keys
/// that the slots report, in the order of the slots. A key is among them
/// exactly if some slot reports it, and once only where no two slots report
/// the same key.
pub fn reported_keys(slots: &Vec<Option<Keycode>>) -> (keys: Vec<Keycode>)
    ensures
        keys@ == present(slots@),
        slots_distinct(slots@) ==> keys@.no_duplicates(),
        forall|key: Keycode| #[trigger]
            keys@.contains(key) <==> exists|i: int|
                0 <= i < slots@.len() && slots@[i] == Some(key),
{
    let mut keys: Vec<Keycode> = Vec::new();
    let mut i: usize = 0;
    while i < slots.len()
        invariant
            i <= slots.len(),
            keys@ == present(slots@.take(i as int)),
        decreases slots.len() - i,
    {
        assert(slots@.take(i + 1).drop_last() =~= slots@.take(i as int));
        if let Some(key) = slots[i] {
            keys.push(key);
        }
        i += 1;
    }
    proof {
        assert(slots@.take(slots.len() as int) =~= slots@);
        lemma_present_membership(slots@);
        if slots_distinct(slots@) {
            lemma_present_holds_each_once(slots@);
        }
    }
    keys
}

/// The worker's report counts only where the hook is installed first: in
/// every other case two constructions that differ in it alone do the same.
pub proof fn lemma_report_counts_only_when_needed(
    permission_granted: bool,
    hook: HookState,
    one: Option<Result<(), HookError>>,
    other: Option<Result<(), HookError>>,
)
    requires
        !install_needed_spec(permission_granted, hook),
    ensures
        construction(permission_granted, hook, one) == construction(
            permission_granted,
            hook,
            other,
        ),
{
}

/// Without permission nothing is made and the hook is not touched: no worker
/// is asked for, whatever the state and whatever a worker would report.
pub proof fn lemma_denied_leaves_hook_alone(hook: HookState, report: Option<Result<(), HookError>>)
    ensures
        construction(false, hook, report) == (hook, Err::<(), HookError>(HookError::PermissionDenied)),
        !install_needed_spec(false, hook),
{
}

/// A key is among the reported keys exactly if some slot reports it.
pub proof fn lemma_present_membership(slots: Seq<Option<Keycode>>)
    ensures
        forall|key: Keycode| #[trigger]
            present(slots).contains(key) <==> exists|i: int|
                0 <= i < slots.len() && slots[i] == Some(key),
    decreases slots.len(),
{
    if slots.len() == 0 {
        assert forall|key: Keycode| !(#[trigger] present(slots).contains(key)) by {}
    } else {
        let before = slots.drop_last();
        let last = slots.len() - 1;
        lemma_present_membership(before);
        assert forall|key: Keycode| #[trigger]
            present(slots).contains(key) <==> exists|i: int|
                0 <= i < slots.len() && slots[i] == Some(key) by {
            if present(slots).contains(key) {
                let at = choose|at: int|
                    0 <= at < present(slots).len() && present(slots)[at] == key;
                if at < present(before).len() {
                    assert(present(before)[at] == key);
                    assert(present(before).contains(key));
                    let i = choose|i: int| 0 <= i < before.len() && before[i] == Some(key);
                    assert(slots[i] == Some(key));
                } else {
                    assert(slots[last] == Some(key));
                }
            }
            if exists|i: int| 0 <= i < slots.len() && slots[i] == Some(key) {
                let i = choose|i: int| 0 <= i < slots.len() && slots[i] == Some(key);
                if i < last {
                    assert(before[i] == Some(key));
                    assert(present(before).contains(key));
                    let at = choose|at: int|
                        0 <= at < present(before).len() && present(before)[at] == key;
                    assert(present(slots)[at] == key);
                } else {
                    assert(present(slots)[present(before).len() as int] == key);
                }
            }
        }
    }
}

/// Where no two slots report the same key, every reported key is reported
/// once; and a key is reported exactly if some slot reports it.
pub proof fn lemma_present_holds_each_once(slots: Seq<Option<Keycode>>)
    requires
        slots_distinct(slots),
    ensures
        present(slots).no_duplicates(),
        forall|key: Keycode| #[trigger]
            present(slots).contains(key) <==> exists|i: int|
                0 <= i < slots.len() && slots[i] == Some(key),
    decreases slots.len(),
{
    lemma_present_membership(slots);
    if slots.len() > 0 {
        let before = slots.drop_last();
        let last = slots.len() - 1;
        assert(slots_distinct(before)) by {
            assert forall|i: int, j: int|
                0 <= i < before.len() && 0 <= j < before.len() && before[i] is Some && before[i]
                    == before[j] implies i == j by {
                assert(slots[i] == before[i] && slots[j] == before[j]);
            }
        }
        lemma_present_holds_each_once(before);
        match slots.last() {
            Some(key) => {
                if present(before).contains(key) {
                    let i = choose|i: int| 0 <= i < before.len() && before[i] == Some(key);
                    assert(slots[i] == slots[last]);
                }
                let all = present(slots);
                assert forall|a: int, b: int|
                    0 <= a < all.len() && 0 <= b < all.len() && a != b implies all[a]
                    != all[b] by {
                    if a < present(before).len() && b < present(before).len() {
                    } else if a < present(before).len() {
                        assert(present(before)[a] == all[a]);
                        assert(present(before).contains(all[a]));
                    } else {
                        assert(present(before)[b] == all[b]);
                        assert(present(before).contains(all[b]));
                    }
                }
            },
            None => {},
        }
    }
}

} // verus!
