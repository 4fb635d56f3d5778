use vstd::prelude::*;

use crate::action::{InputAction, Platform};
use crate::broadcast::{cached_after, delivered, CursorMessage};
use crate::keys::{ControlKey, Key, LiveKeys};
use crate::ledger::{due_keys, swept, KeysDown, STUCK_KEY_TIMEOUT_MS};
use crate::reconcile::fix_modifiers_from;
use crate::sweep::release_actions;

verus! {

/// A forced sweep leaves the ledger empty, whatever it held; a second forced
/// sweep then releases nothing, so its plan is empty.
pub proof fn lemma_forced_sweep_clears(m: Map<KeysDown, u64>, now: u64, later: u64)
    ensures
        swept(m, now, true) == Map::<KeysDown, u64>::empty(),
        due_keys(swept(m, now, true), later, true) == Set::<KeysDown>::empty(),
        forall|ks: Seq<KeysDown>|
            (forall|k: KeysDown| #[trigger] ks.contains(k) <==> due_keys(swept(m, now, true), later, true).contains(k))
                ==> release_actions(ks) == Seq::<InputAction>::empty(),
{
    assert(swept(m, now, true) =~= Map::<KeysDown, u64>::empty());
    assert(due_keys(swept(m, now, true), later, true) =~= Set::<KeysDown>::empty());
    assert forall|ks: Seq<KeysDown>|
        (forall|k: KeysDown| #[trigger] ks.contains(k) <==> due_keys(swept(m, now, true), later, true).contains(k))
            implies release_actions(ks) == Seq::<InputAction>::empty() by {
        if ks.len() > 0 {
            assert(ks.contains(ks[0]));
        }
    }
}

/// A key pressed at `pressed_at` and never released stays held by sweeps
/// before `STUCK_KEY_TIMEOUT_MS` have passed; the first sweep at or after
/// that releases it and removes its entry, and no later sweep finds it.
pub proof fn lemma_stuck_key_released_once(
    m: Map<KeysDown, u64>,
    k: KeysDown,
    pressed_at: u64,
    now: u64,
    later: u64,
)
    ensures
        now < pressed_at as int + STUCK_KEY_TIMEOUT_MS as int ==> !due_keys(m.insert(k, pressed_at), now, false).contains(k)
            && swept(m.insert(k, pressed_at), now, false).contains_key(k),
        now >= pressed_at as int + STUCK_KEY_TIMEOUT_MS as int ==> {
            &&& due_keys(m.insert(k, pressed_at), now, false).contains(k)
            &&& !swept(m.insert(k, pressed_at), now, false).contains_key(k)
            &&& !due_keys(swept(m.insert(k, pressed_at), now, false), later, false).contains(k)
            &&& !swept(swept(m.insert(k, pressed_at), now, false), later, false).contains_key(k)
        },
{
    let m1 = m.insert(k, pressed_at);
    assert(m1.contains_key(k) && m1[k] == pressed_at);
}

/// What a subscriber receives for a sequence of cursor messages, starting
/// from the shapes `cached`, and the shapes it holds after.
pub open spec fn deliver_all(cached: Set<u64>, msgs: Seq<CursorMessage>) -> (Seq<CursorMessage>, Set<u64>)
    decreases msgs.len(),
{
    if msgs.len() == 0 {
        (Seq::empty(), cached)
    } else {
        let prev = deliver_all(cached, msgs.drop_last());
        (prev.0.push(delivered(prev.1, msgs.last())), cached_after(prev.1, msgs.last()))
    }
}

/// Each cursor shape reaches a subscriber as a full bitmap at most once,
/// and never when the subscriber already held it: every later occurrence is
/// an id marker.
pub proof fn lemma_bitmap_sent_at_most_once(cached: Set<u64>, msgs: Seq<CursorMessage>)
    ensures
        deliver_all(cached, msgs).0.len() == msgs.len(),
        forall|i: int, id: u64|
            0 <= i < msgs.len() && cached.contains(id) ==> deliver_all(cached, msgs).0[i] != CursorMessage::Data(id),
        forall|i: int, j: int, id: u64|
            0 <= i < j < msgs.len() && deliver_all(cached, msgs).0[i] == CursorMessage::Data(id)
                ==> deliver_all(cached, msgs).0[j] != CursorMessage::Data(id),
        forall|i: int, id: u64|
            0 <= i < msgs.len() && deliver_all(cached, msgs).0[i] == CursorMessage::Data(id)
                ==> deliver_all(cached, msgs).1.contains(id),
        cached.subset_of(deliver_all(cached, msgs).1),
    decreases msgs.len(),
{
    if msgs.len() > 0 {
        let prefix = msgs.drop_last();
        lemma_bitmap_sent_at_most_once(cached, prefix);
        let prev = deliver_all(cached, prefix);
        let out = deliver_all(cached, msgs).0;
        assert(out == prev.0.push(delivered(prev.1, msgs.last())));
        assert forall|i: int, j: int, id: u64|
            0 <= i < j < msgs.len() && out[i] == CursorMessage::Data(id) implies out[j]
            != CursorMessage::Data(id) by {
            if j == msgs.len() - 1 {
                assert(prev.0[i] == CursorMessage::Data(id));
                assert(prev.1.contains(id));
            } else {
                assert(prev.0[i] == out[i] && prev.0[j] == out[j]);
            }
        }
        assert forall|i: int, id: u64|
            0 <= i < msgs.len() && cached.contains(id) implies out[i] != CursorMessage::Data(id) by {
            if i == msgs.len() - 1 {
                assert(prev.1.contains(id));
            } else {
                assert(prev.0[i] == out[i]);
            }
        }
        assert forall|i: int, id: u64|
            0 <= i < msgs.len() && out[i] == CursorMessage::Data(id) implies deliver_all(
            cached,
            msgs,
        ).1.contains(id) by {
            if i < msgs.len() - 1 {
                assert(prev.0[i] == out[i]);
            }
        }
    }
}

/// With Control the only key held and only Shift declared, the reconciler
/// releases Control once and does nothing else, whatever the platform and
/// whichever key (other than either Control) is being processed.
pub proof fn lemma_lone_stale_control_released(platform: Platform, excluded: Option<ControlKey>)
    requires
        excluded != Some(ControlKey::Control),
        excluded != Some(ControlKey::RControl),
    ensures
        ({
            let live = LiveKeys {
                shift: false,
                right_shift: false,
                control: true,
                right_control: false,
                alt: false,
                right_alt: false,
                meta: false,
                right_meta: false,
                caps_lock: false,
                num_lock: false,
            };
            let r = fix_modifiers_from(platform, seq![ControlKey::Shift], excluded, live, 0);
            &&& r.0 == seq![InputAction::KeyUp(Key::Symbol(ControlKey::Control))]
            &&& r.1 == live.with_key(ControlKey::Control, false)
        }),
{
    reveal_with_fuel(fix_modifiers_from, 9);
    let declared = seq![ControlKey::Shift];
    assert(declared.contains(ControlKey::Shift)) by {
        assert(declared[0] == ControlKey::Shift);
    }
    assert(!declared.contains(ControlKey::Control));
    let live = LiveKeys {
        shift: false,
        right_shift: false,
        control: true,
        right_control: false,
        alt: false,
        right_alt: false,
        meta: false,
        right_meta: false,
        caps_lock: false,
        num_lock: false,
    };
    let after = live.with_key(ControlKey::Control, false);
    assert(fix_modifiers_from(platform, declared, excluded, after, 5).0 =~= Seq::<InputAction>::empty());
    assert(fix_modifiers_from(platform, declared, excluded, live, 0).0 =~= seq![
        InputAction::KeyUp(Key::Symbol(ControlKey::Control)),
    ]);
}

} // verus!
