use vstd::prelude::*;

use crate::action::{InputAction, Platform};
use crate::keys::{contains_key, is_modifier, modifier_group, modifier_group_of, ControlKey, Key, LiveKeys};

verus! {

/// The order in which the reconciler visits the eight modifiers.
pub open spec fn modifier_slot(i: int) -> ControlKey {
    if i == 0 {
        ControlKey::Shift
    } else if i == 1 {
        ControlKey::RShift
    } else if i == 2 {
        ControlKey::Alt
    } else if i == 3 {
        ControlKey::RAlt
    } else if i == 4 {
        ControlKey::Control
    } else if i == 5 {
        ControlKey::RControl
    } else if i == 6 {
        ControlKey::Meta
    } else {
        ControlKey::RWin
    }
}

fn modifier_slot_at(i: usize) -> (r: ControlKey)
    ensures
        r == modifier_slot(i as int),
{
    if i == 0 {
        ControlKey::Shift
    } else if i == 1 {
        ControlKey::RShift
    } else if i == 2 {
        ControlKey::Alt
    } else if i == 3 {
        ControlKey::RAlt
    } else if i == 4 {
        ControlKey::Control
    } else if i == 5 {
        ControlKey::RControl
    } else if i == 6 {
        ControlKey::Meta
    } else {
        ControlKey::RWin
    }
}

/// Whether the reconciler releases modifier `k`: it reads as held, the
/// event does not declare its pair, it is not the key being processed, and
/// (on Windows) it is not a Control held together with Alt, which is AltGr.
pub open spec fn releases_modifier(
    platform: Platform,
    declared: Seq<ControlKey>,
    excluded: Option<ControlKey>,
    live: LiveKeys,
    k: ControlKey,
) -> bool {
    &&& excluded != Some(k)
    &&& live.modifier_down(k)
    &&& !declared.contains(modifier_group(k))
    &&& !(platform == Platform::Windows && modifier_group(k) == ControlKey::Control
        && live.modifier_down(ControlKey::Alt))
}

/// The releases issued for the modifiers from slot `i` on, and the live
/// state they leave.
pub open spec fn fix_modifiers_from(
    platform: Platform,
    declared: Seq<ControlKey>,
    excluded: Option<ControlKey>,
    live: LiveKeys,
    i: int,
) -> (Seq<InputAction>, LiveKeys)
    decreases 8 - i,
{
    if i >= 8 || i < 0 {
        (Seq::empty(), live)
    } else {
        let k = modifier_slot(i);
        if releases_modifier(platform, declared, excluded, live, k) {
            let rest = fix_modifiers_from(platform, declared, excluded, live.with_key(k, false), i + 1);
            (seq![InputAction::KeyUp(Key::Symbol(k))] + rest.0, rest.1)
        } else {
            fix_modifiers_from(platform, declared, excluded, live, i + 1)
        }
    }
}

/// Releases every modifier that the live state reports held but the event
/// does not declare (see `releases_modifier`), visiting them in slot order.
pub fn fix_modifiers(
    platform: Platform,
    declared: &Vec<ControlKey>,
    excluded: Option<ControlKey>,
    live: &mut LiveKeys,
    out: &mut Vec<InputAction>,
)
    ensures
        final(out)@ == old(out)@ + fix_modifiers_from(platform, declared@, excluded, *old(live), 0).0,
        *final(live) == fix_modifiers_from(platform, declared@, excluded, *old(live), 0).1,
{
    let ghost total = fix_modifiers_from(platform, declared@, excluded, *live, 0);
    let ghost out0 = out@;
    let mut i: usize = 0;
    while i < 8
        invariant
            0 <= i <= 8,
            out@ + fix_modifiers_from(platform, declared@, excluded, *live, i as int).0 == out0 + total.0,
            fix_modifiers_from(platform, declared@, excluded, *live, i as int).1 == total.1,
        decreases 8 - i,
    {
        let k = modifier_slot_at(i);
        let group = modifier_group_of(k);
        let altgr = match platform {
            Platform::Windows => group == ControlKey::Control && live.modifier_state(ControlKey::Alt),
            _ => false,
        };
        let release = excluded != Some(k) && live.modifier_state(k) && !contains_key(declared, group)
            && !altgr;
        assert(release == releases_modifier(platform, declared@, excluded, *live, k));
        if release {
            let ghost before = out@;
            out.push(InputAction::KeyUp(Key::Symbol(k)));
            live.set_key(k, false);
            assert(out@ == before + seq![InputAction::KeyUp(Key::Symbol(k))]);
            assert(out@ + fix_modifiers_from(platform, declared@, excluded, *live, i + 1).0 =~= out0 + total.0);
        }
        i = i + 1;
    }
}

/// The modifiers from position `i` of `declared` on that are pressed for
/// the duration of one event: declared standard modifiers not already held
/// (lock keys are never pressed this way), and the live state after.
pub open spec fn modifiers_to_press(declared: Seq<ControlKey>, live: LiveKeys, i: int) -> (
    Seq<ControlKey>,
    LiveKeys,
)
    decreases declared.len() - i,
{
    if i >= declared.len() || i < 0 {
        (Seq::empty(), live)
    } else {
        let ck = declared[i];
        if is_modifier(ck) && !live.modifier_down(ck) {
            let rest = modifiers_to_press(declared, live.with_key(ck, true), i + 1);
            (seq![ck] + rest.0, rest.1)
        } else {
            modifiers_to_press(declared, live, i + 1)
        }
    }
}

/// Presses of the given keys, in order.
pub open spec fn key_downs(keys: Seq<ControlKey>) -> Seq<InputAction> {
    keys.map_values(|k: ControlKey| InputAction::KeyDown(Key::Symbol(k)))
}

/// Releases of the given keys, in order.
pub open spec fn key_ups(keys: Seq<ControlKey>) -> Seq<InputAction> {
    keys.map_values(|k: ControlKey| InputAction::KeyUp(Key::Symbol(k)))
}

/// The live state after releasing `keys`.
pub open spec fn live_after_release(live: LiveKeys, keys: Seq<ControlKey>) -> LiveKeys
    decreases keys.len(),
{
    if keys.len() == 0 {
        live
    } else {
        live_after_release(live.with_key(keys[0], false), keys.drop_first())
    }
}

fn is_modifier_key(ck: ControlKey) -> (r: bool)
    ensures
        r == is_modifier(ck),
{
    match ck {
        ControlKey::Shift | ControlKey::RShift | ControlKey::Control | ControlKey::RControl
        | ControlKey::Alt | ControlKey::RAlt | ControlKey::Meta | ControlKey::RWin => true,
        _ => false,
    }
}

/// Presses the declared modifiers that are not held (see
/// `modifiers_to_press`) and returns them, to be released after the event.
pub fn press_modifiers(declared: &Vec<ControlKey>, live: &mut LiveKeys, out: &mut Vec<InputAction>) -> (r: Vec<
    ControlKey,
>)
    ensures
        r@ == modifiers_to_press(declared@, *old(live), 0).0,
        *final(live) == modifiers_to_press(declared@, *old(live), 0).1,
        final(out)@ == old(out)@ + key_downs(r@),
{
    let ghost total = modifiers_to_press(declared@, *live, 0);
    let ghost out0 = out@;
    let mut pressed: Vec<ControlKey> = Vec::new();
    let mut i: usize = 0;
    while i < declared.len()
        invariant
            0 <= i <= declared@.len(),
            pressed@ + modifiers_to_press(declared@, *live, i as int).0 == total.0,
            modifiers_to_press(declared@, *live, i as int).1 == total.1,
            out@ == out0 + key_downs(pressed@),
        decreases declared@.len() - i,
    {
        let ck = declared[i];
        if is_modifier_key(ck) && !live.modifier_state(ck) {
            let ghost p0 = pressed@;
            out.push(InputAction::KeyDown(Key::Symbol(ck)));
            pressed.push(ck);
            live.set_key(ck, true);
            assert(key_downs(pressed@) =~= key_downs(p0) + seq![InputAction::KeyDown(Key::Symbol(ck))]);
            assert(pressed@ + modifiers_to_press(declared@, *live, i + 1).0 =~= total.0);
        }
        i = i + 1;
    }
    assert(pressed@ =~= total.0);
    pressed
}

/// Releases the keys pressed by `press_modifiers`, in the order pressed.
pub fn release_keys(keys: &Vec<ControlKey>, live: &mut LiveKeys, out: &mut Vec<InputAction>)
    ensures
        final(out)@ == old(out)@ + key_ups(keys@),
        *final(live) == live_after_release(*old(live), keys@),
{
    let ghost out0 = out@;
    let ghost live0 = *live;
    assert(keys@.subrange(0, keys@.len() as int) =~= keys@);
    assert(key_ups(keys@.subrange(0, 0)) =~= Seq::<InputAction>::empty());
    assert(out@ =~= out0 + Seq::<InputAction>::empty());
    let mut i: usize = 0;
    while i < keys.len()
        invariant
            0 <= i <= keys@.len(),
            out@ == out0 + key_ups(keys@.subrange(0, i as int)),
            live_after_release(*live, keys@.subrange(i as int, keys@.len() as int))
                == live_after_release(live0, keys@),
        decreases keys@.len() - i,
    {
        let k = keys[i];
        out.push(InputAction::KeyUp(Key::Symbol(k)));
        live.set_key(k, false);
        assert(keys@.subrange(i as int, keys@.len() as int).drop_first() =~= keys@.subrange(
            i + 1,
            keys@.len() as int,
        ));
        assert(key_ups(keys@.subrange(0, i + 1)) =~= key_ups(keys@.subrange(0, i as int)) + seq![
            InputAction::KeyUp(Key::Symbol(k)),
        ]);
        i = i + 1;
    }
    assert(keys@.subrange(0, keys@.len() as int) =~= keys@);
    assert(keys@.subrange(keys@.len() as int, keys@.len() as int) =~= Seq::<ControlKey>::empty());
}

} // verus!

verus! {

/// The order in which all device modifiers are released.
pub open spec fn device_modifier(i: int) -> ControlKey {
    if i == 0 {
        ControlKey::Shift
    } else if i == 1 {
        ControlKey::Control
    } else if i == 2 {
        ControlKey::Alt
    } else if i == 3 {
        ControlKey::Meta
    } else if i == 4 {
        ControlKey::RShift
    } else if i == 5 {
        ControlKey::RControl
    } else if i == 6 {
        ControlKey::RAlt
    } else {
        ControlKey::RWin
    }
}

fn device_modifier_at(i: usize) -> (r: ControlKey)
    ensures
        r == device_modifier(i as int),
{
    if i == 0 {
        ControlKey::Shift
    } else if i == 1 {
        ControlKey::Control
    } else if i == 2 {
        ControlKey::Alt
    } else if i == 3 {
        ControlKey::Meta
    } else if i == 4 {
        ControlKey::RShift
    } else if i == 5 {
        ControlKey::RControl
    } else if i == 6 {
        ControlKey::RAlt
    } else {
        ControlKey::RWin
    }
}

/// The releases of every modifier that reads as held, from position `i` of
/// the release order on, and the live state after.
pub open spec fn release_all_from(live: LiveKeys, i: int) -> (Seq<InputAction>, LiveKeys)
    decreases 8 - i,
{
    if i >= 8 || i < 0 {
        (Seq::empty(), live)
    } else {
        let k = device_modifier(i);
        if live.modifier_down(k) {
            let rest = release_all_from(live.with_key(k, false), i + 1);
            (seq![InputAction::KeyUp(Key::Symbol(k))] + rest.0, rest.1)
        } else {
            release_all_from(live, i + 1)
        }
    }
}

/// Releases every modifier that reads as held: left sides first, then right.
pub fn release_device_modifiers(live: &mut LiveKeys) -> (r: Vec<InputAction>)
    ensures
        r@ == release_all_from(*old(live), 0).0,
        *final(live) == release_all_from(*old(live), 0).1,
{
    let ghost total = release_all_from(*live, 0);
    let mut out: Vec<InputAction> = Vec::new();
    let mut i: usize = 0;
    while i < 8
        invariant
            0 <= i <= 8,
            out@ + release_all_from(*live, i as int).0 == total.0,
            release_all_from(*live, i as int).1 == total.1,
        decreases 8 - i,
    {
        let k = device_modifier_at(i);
        if live.modifier_state(k) {
            let ghost before = out@;
            out.push(InputAction::KeyUp(Key::Symbol(k)));
            live.set_key(k, false);
            assert(out@ == before + seq![InputAction::KeyUp(Key::Symbol(k))]);
            assert(out@ + release_all_from(*live, i + 1).0 =~= total.0);
        }
        i = i + 1;
    }
    assert(out@ =~= total.0);
    out
}

} // verus!
