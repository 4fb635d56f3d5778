use vstd::prelude::*;

use crate::action::InputAction;
use crate::keys::{char_of, char_value_to_key, key_map, spec_key_map, Key};
use crate::ledger::{due_keys, swept, KeysDown};
use crate::state::InputState;

verus! {

/// The backend release for a held identity: a raw key is released by code,
/// a symbolic id through its backend key (if it has one), a character
/// through its layout key.
pub open spec fn release_action(k: KeysDown) -> Option<InputAction> {
    match k {
        KeysDown::Raw(raw) => Some(InputAction::RawKey { raw, down: false }),
        KeysDown::Control(ck) => match spec_key_map(ck) {
            Some(key) => Some(InputAction::KeyUp(key)),
            None => None,
        },
        KeysDown::Chr(c) => Some(InputAction::KeyUp(Key::Layout(char_of(c)))),
    }
}

/// The releases for a sequence of identities, in order.
pub open spec fn release_actions(ks: Seq<KeysDown>) -> Seq<InputAction>
    decreases ks.len(),
{
    if ks.len() == 0 {
        Seq::empty()
    } else {
        release_actions(ks.drop_last()) + match release_action(ks.last()) {
            Some(a) => seq![a],
            None => Seq::empty(),
        }
    }
}

/// The backend release for one held identity.
pub fn release_record_key(k: KeysDown) -> (r: Option<InputAction>)
    ensures
        r == release_action(k),
{
    match k {
        KeysDown::Raw(raw) => Some(InputAction::RawKey { raw, down: false }),
        KeysDown::Control(ck) => match key_map(ck) {
            Some(key) => Some(InputAction::KeyUp(key)),
            None => None,
        },
        KeysDown::Chr(c) => Some(InputAction::KeyUp(char_value_to_key(c))),
    }
}

/// Sweeps the ledger at `now` (every entry when `force` is set, else the
/// entries held for `STUCK_KEY_TIMEOUT_MS` or longer): they leave the ledger,
/// and the plan releases each of them once.
pub fn fix_key_down_timeout(state: &mut InputState, force: bool, now: u64) -> (r: Vec<InputAction>)
    requires
        old(state).wf(),
    ensures
        final(state).wf(),
        final(state).ledger@ == swept(old(state).ledger@, now, force),
        exists|ks: Seq<KeysDown>|
            {
                &&& ks.no_duplicates()
                &&& forall|k: KeysDown| #[trigger]
                    ks.contains(k) <==> due_keys(old(state).ledger@, now, force).contains(k)
                &&& r@ == release_actions(ks)
            },
        final(state).platform == old(state).platform,
        final(state).exiting == old(state).exiting,
        final(state).sys_cursor == old(state).sys_cursor,
        final(state).peer_input == old(state).peer_input,
        final(state).last_legacy_mode == old(state).last_legacy_mode,
        final(state).capslock_down == old(state).capslock_down,
        final(state).recording == old(state).recording,
        final(state).lock_resync == old(state).lock_resync,
{
    let keys = state.ledger.fix_key_down_timeout(force, now);
    let mut out: Vec<InputAction> = Vec::new();
    let mut i: usize = 0;
    while i < keys.len()
        invariant
            0 <= i <= keys@.len(),
            out@ == release_actions(keys@.subrange(0, i as int)),
        decreases keys@.len() - i,
    {
        let a = release_record_key(keys[i]);
        assert(keys@.subrange(0, i + 1).drop_last() =~= keys@.subrange(0, i as int));
        if let Some(a) = a {
            out.push(a);
        }
        i = i + 1;
    }
    assert(keys@.subrange(0, keys@.len() as int) =~= keys@);
    out
}

/// The sweep run when the process exits: the first call marks the state as
/// exiting and force-releases every held key; later calls do nothing.
pub fn fix_key_down_timeout_at_exit(state: &mut InputState, now: u64) -> (r: Vec<InputAction>)
    requires
        old(state).wf(),
    ensures
        final(state).wf(),
        final(state).exiting,
        old(state).exiting ==> r@ == Seq::<InputAction>::empty() && *final(state) == *old(state),
        !old(state).exiting ==> {
            &&& final(state).ledger@ == Map::<KeysDown, u64>::empty()
            &&& exists|ks: Seq<KeysDown>|
                {
                    &&& ks.no_duplicates()
                    &&& forall|k: KeysDown| #[trigger] ks.contains(k) <==> old(state).ledger@.contains_key(k)
                    &&& r@ == release_actions(ks)
                }
        },
{
    if state.exiting {
        return Vec::new();
    }
    state.exiting = true;
    let ghost before = state.ledger@;
    let r = fix_key_down_timeout(state, true, now);
    assert(swept(before, now, true) =~= Map::<KeysDown, u64>::empty());
    r
}

} // verus!
