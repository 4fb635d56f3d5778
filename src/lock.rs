use vstd::prelude::*;

use crate::action::{InputAction, Platform, LOCK_SETTLE_MS};
use crate::keys::{contains_key, ControlKey, Key, LiveKeys};
use crate::ledger::RawKey;

verus! {

/// macOS virtual key code of Caps Lock.
pub const MAC_CAPS_LOCK_KEYCODE: u32 = 0x39;

/// The corrections a lock-key guard applied when it was opened.
#[derive(Clone, Copy, Debug, PartialEq, Eq, Structural)]
pub struct LockGuard {
    pub caps_lock_changed: bool,
    pub num_lock_changed: bool,
}

/// What follows a lock-key click until its state can be trusted: a poll of
/// the state under uinput, a fixed pause under the portal, nothing elsewhere.
pub open spec fn lock_wait(platform: Platform, lock: ControlKey, on: bool) -> Seq<InputAction> {
    if platform == Platform::LinuxUinput {
        seq![InputAction::WaitLockState { lock, on }]
    } else if platform == Platform::LinuxRdp {
        seq![InputAction::Pause { ms: LOCK_SETTLE_MS }]
    } else {
        Seq::empty()
    }
}

fn push_lock_wait(platform: Platform, lock: ControlKey, on: bool, out: &mut Vec<InputAction>)
    ensures
        final(out)@ == old(out)@ + lock_wait(platform, lock, on),
{
    match platform {
        Platform::LinuxUinput => out.push(InputAction::WaitLockState { lock, on }),
        Platform::LinuxRdp => out.push(InputAction::Pause { ms: LOCK_SETTLE_MS }),
        _ => {},
    }
    assert(out@ =~= old(out)@ + lock_wait(platform, lock, on));
}

/// Navigation keys that produce numpad values while Num Lock is on.
pub open spec fn is_numpad_navigation_key(ck: ControlKey) -> bool {
    ck == ControlKey::Home || ck == ControlKey::UpArrow || ck == ControlKey::PageUp || ck
        == ControlKey::LeftArrow || ck == ControlKey::RightArrow || ck == ControlKey::End || ck
        == ControlKey::DownArrow || ck == ControlKey::PageDown || ck == ControlKey::Insert || ck
        == ControlKey::Delete
}

/// Whether `ck` is a navigation key that Num Lock turns into a digit.
pub fn numpad_navigation_key(ck: ControlKey) -> (r: bool)
    ensures
        r == is_numpad_navigation_key(ck),
{
    match ck {
        ControlKey::Home | ControlKey::UpArrow | ControlKey::PageUp | ControlKey::LeftArrow
        | ControlKey::RightArrow | ControlKey::End | ControlKey::DownArrow | ControlKey::PageDown
        | ControlKey::Insert | ControlKey::Delete => true,
        _ => false,
    }
}

/// Opening a guard (Windows and Linux): a Caps Lock LED that differs from
/// the declared one is clicked; for a numpad key a differing Num Lock LED is
/// clicked; for a legacy navigation key on Windows (`disable_numlock`) a lit
/// Num Lock is clicked off. Returns the plan, the live state, the guard.
pub open spec fn open_guard(
    platform: Platform,
    declared: Seq<ControlKey>,
    is_numpad_key: bool,
    disable_numlock: bool,
    live: LiveKeys,
) -> (Seq<InputAction>, LiveKeys, LockGuard) {
    let caps_on = declared.contains(ControlKey::CapsLock);
    let caps_changed = caps_on != live.caps_lock;
    let a1 = if caps_changed {
        seq![InputAction::KeyClick(Key::Symbol(ControlKey::CapsLock))] + lock_wait(
            platform,
            ControlKey::CapsLock,
            caps_on,
        )
    } else {
        Seq::empty()
    };
    let l1 = if caps_changed {
        live.with_key(ControlKey::CapsLock, caps_on)
    } else {
        live
    };
    let num_on = is_numpad_key && declared.contains(ControlKey::NumLock);
    let num_changed = if is_numpad_key {
        num_on != l1.num_lock
    } else {
        platform == Platform::Windows && disable_numlock && l1.num_lock
    };
    let a2 = if num_changed {
        seq![InputAction::KeyClick(Key::Symbol(ControlKey::NumLock))] + lock_wait(
            platform,
            ControlKey::NumLock,
            num_on,
        )
    } else {
        Seq::empty()
    };
    let l2 = if num_changed {
        l1.with_key(ControlKey::NumLock, !l1.num_lock)
    } else {
        l1
    };
    (a1 + a2, l2, LockGuard { caps_lock_changed: caps_changed, num_lock_changed: num_changed })
}

/// Opens a lock-key guard (see `open_guard`), appending its corrections.
pub fn open_lock_guard(
    platform: Platform,
    declared: &Vec<ControlKey>,
    is_numpad_key: bool,
    disable_numlock: bool,
    live: &mut LiveKeys,
    out: &mut Vec<InputAction>,
) -> (r: LockGuard)
    ensures
        ({
            let g = open_guard(platform, declared@, is_numpad_key, disable_numlock, *old(live));
            &&& final(out)@ == old(out)@ + g.0
            &&& *final(live) == g.1
            &&& r == g.2
        }),
{
    let ghost out0 = out@;
    let caps_on = contains_key(declared, ControlKey::CapsLock);
    let caps_changed = caps_on != live.caps_lock;
    if caps_changed {
        out.push(InputAction::KeyClick(Key::Symbol(ControlKey::CapsLock)));
        push_lock_wait(platform, ControlKey::CapsLock, caps_on, out);
        live.set_key(ControlKey::CapsLock, caps_on);
    }
    let num_on = is_numpad_key && contains_key(declared, ControlKey::NumLock);
    let num_changed = if is_numpad_key {
        num_on != live.num_lock
    } else {
        platform == Platform::Windows && disable_numlock && live.num_lock
    };
    if num_changed {
        out.push(InputAction::KeyClick(Key::Symbol(ControlKey::NumLock)));
        push_lock_wait(platform, ControlKey::NumLock, num_on, out);
        let cur = live.num_lock;
        live.set_key(ControlKey::NumLock, !cur);
    }
    assert(out@ =~= out0 + open_guard(platform, declared@, is_numpad_key, disable_numlock, *old(live)).0);
    LockGuard { caps_lock_changed: caps_changed, num_lock_changed: num_changed }
}

/// Closing a guard undoes its clicks, except under uinput, where lock state
/// settles too slowly and the correction is kept.
pub open spec fn close_guard(platform: Platform, guard: LockGuard, live: LiveKeys) -> (
    Seq<InputAction>,
    LiveKeys,
) {
    if platform == Platform::LinuxUinput {
        (Seq::empty(), live)
    } else {
        let a1 = if guard.caps_lock_changed {
            seq![InputAction::KeyClick(Key::Symbol(ControlKey::CapsLock))]
        } else {
            Seq::empty()
        };
        let l1 = if guard.caps_lock_changed {
            live.with_key(ControlKey::CapsLock, !live.caps_lock)
        } else {
            live
        };
        let a2 = if guard.num_lock_changed {
            seq![InputAction::KeyClick(Key::Symbol(ControlKey::NumLock))]
        } else {
            Seq::empty()
        };
        let l2 = if guard.num_lock_changed {
            l1.with_key(ControlKey::NumLock, !l1.num_lock)
        } else {
            l1
        };
        (a1 + a2, l2)
    }
}

/// Closes a lock-key guard (see `close_guard`), appending its undoing.
pub fn close_lock_guard(platform: Platform, guard: LockGuard, live: &mut LiveKeys, out: &mut Vec<InputAction>)
    ensures
        final(out)@ == old(out)@ + close_guard(platform, guard, *old(live)).0,
        *final(live) == close_guard(platform, guard, *old(live)).1,
{
    let ghost out0 = out@;
    if platform == Platform::LinuxUinput {
        assert(out@ =~= out0 + Seq::<InputAction>::empty());
        return;
    }
    if guard.caps_lock_changed {
        out.push(InputAction::KeyClick(Key::Symbol(ControlKey::CapsLock)));
        let cur = live.caps_lock;
        live.set_key(ControlKey::CapsLock, !cur);
    }
    if guard.num_lock_changed {
        out.push(InputAction::KeyClick(Key::Symbol(ControlKey::NumLock)));
        let cur = live.num_lock;
        live.set_key(ControlKey::NumLock, !cur);
    }
    assert(out@ =~= out0 + close_guard(platform, guard, *old(live)).0);
}

/// The macOS guard: the virtual input's Caps Lock is pressed or released to
/// match the declared state. Returns the plan and whether it is held after.
pub open spec fn mac_caps_guard(declared: Seq<ControlKey>, capslock_down: bool) -> (Seq<InputAction>, bool) {
    let on = declared.contains(ControlKey::CapsLock);
    let raw = RawKey::MacVirtualKeycode(MAC_CAPS_LOCK_KEYCODE);
    if on && !capslock_down {
        (seq![InputAction::RawKey { raw, down: true }], true)
    } else if !on && capslock_down {
        (seq![InputAction::RawKey { raw, down: false }], false)
    } else {
        (Seq::empty(), capslock_down)
    }
}

/// Opens the macOS guard (see `mac_caps_guard`), appending its correction.
pub fn open_mac_caps_guard(declared: &Vec<ControlKey>, capslock_down: &mut bool, out: &mut Vec<InputAction>)
    ensures
        final(out)@ == old(out)@ + mac_caps_guard(declared@, *old(capslock_down)).0,
        *final(capslock_down) == mac_caps_guard(declared@, *old(capslock_down)).1,
{
    let on = contains_key(declared, ControlKey::CapsLock);
    let raw = RawKey::MacVirtualKeycode(MAC_CAPS_LOCK_KEYCODE);
    if on && !*capslock_down {
        out.push(InputAction::RawKey { raw, down: true });
        *capslock_down = true;
    } else if !on && *capslock_down {
        out.push(InputAction::RawKey { raw, down: false });
        *capslock_down = false;
    } else {
        assert(out@ =~= old(out)@ + Seq::<InputAction>::empty());
    }
}

} // verus!
