use vstd::prelude::*;

use crate::keys::ControlKey;

verus! {

/// Age, in milliseconds, from which a held key counts as stuck.
pub const STUCK_KEY_TIMEOUT_MS: u64 = 360_000;

/// A raw platform key code, tagged with its code space.
#[derive(Clone, Copy, Debug, PartialEq, Eq, Structural)]
pub enum RawKey {
    ScanCode(u32),
    LinuxXorgKeycode(u32),
    MacVirtualKeycode(u32),
    WinVirtualKeycode(u32),
}

/// Identity of a held key: symbolic ids, characters and raw codes share one
/// namespace, kept apart by the variant.
#[derive(Clone, Copy, Debug, PartialEq, Eq, Structural)]
pub enum KeysDown {
    Raw(RawKey),
    Control(ControlKey),
    Chr(u32),
}

#[derive(Clone, Copy, Debug, PartialEq, Eq, Structural)]
pub struct LedgerEntry {
    pub key: KeysDown,
    pub pressed_at: u64,
}

/// Whether a key pressed at `pressed_at` is released by a sweep at `now`.
pub open spec fn key_is_due(pressed_at: u64, now: u64, force: bool) -> bool {
    force || now as int - pressed_at as int >= STUCK_KEY_TIMEOUT_MS as int
}

/// The keys a sweep at `now` releases.
pub open spec fn due_keys(m: Map<KeysDown, u64>, now: u64, force: bool) -> Set<KeysDown> {
    Set::new(|k: KeysDown| m.contains_key(k) && key_is_due(m[k], now, force))
}

/// The ledger left behind by a sweep at `now`.
pub open spec fn swept(m: Map<KeysDown, u64>, now: u64, force: bool) -> Map<KeysDown, u64> {
    m.remove_keys(due_keys(m, now, force))
}

/// The table of keys believed held, each with the instant (milliseconds) of
/// its last press. Its view maps each held identity to that instant.
pub struct Ledger {
    entries: Vec<LedgerEntry>,
    model: Ghost<Map<KeysDown, u64>>,
}

impl View for Ledger {
    type V = Map<KeysDown, u64>;

    closed spec fn view(&self) -> Map<KeysDown, u64> {
        self.model@
    }
}

impl Ledger {
    /// Entries hold distinct identities, and the view maps exactly those to their instants.
    pub closed spec fn wf(&self) -> bool {
        &&& forall|i: int, j: int|
            0 <= i < j < self.entries@.len() ==> self.entries@[i].key != self.entries@[j].key
        &&& forall|i: int|
            0 <= i < self.entries@.len() ==> {
                &&& self.model@.contains_key(#[trigger] self.entries@[i].key)
                &&& self.model@[self.entries@[i].key] == self.entries@[i].pressed_at
            }
        &&& forall|k: KeysDown| #[trigger]
            self.model@.contains_key(k) ==> exists|i: int|
                0 <= i < self.entries@.len() && self.entries@[i].key == k
    }

    /// An empty ledger.
    pub fn new() -> (r: Ledger)
        ensures
            r.wf(),
            r@ == Map::<KeysDown, u64>::empty(),
    {
        Ledger { entries: Vec::new(), model: Ghost(Map::empty()) }
    }

    /// Whether no key is recorded as held.
    pub fn is_empty(&self) -> (r: bool)
        requires
            self.wf(),
        ensures
            r == (self@.dom() == Set::<KeysDown>::empty()),
    {
        if self.entries.len() == 0 {
            assert(self@.dom() =~= Set::<KeysDown>::empty());
            true
        } else {
            assert(self@.dom().contains(self.entries@[0].key));
            false
        }
    }

    fn find(&self, k: KeysDown) -> (r: Option<usize>)
        requires
            self.wf(),
        ensures
            match r {
                Some(i) => i < self.entries@.len() && self.entries@[i as int].key == k,
                None => !self@.contains_key(k),
            },
    {
        let mut i: usize = 0;
        while i < self.entries.len()
            invariant
                self.wf(),
                0 <= i <= self.entries@.len(),
                forall|j: int| 0 <= j < i ==> self.entries@[j].key != k,
            decreases self.entries@.len() - i,
        {
            if self.entries[i].key == k {
                return Some(i);
            }
            i = i + 1;
        }
        None
    }

    /// Whether `k` is recorded as held.
    pub fn contains(&self, k: KeysDown) -> (r: bool)
        requires
            self.wf(),
        ensures
            r == self@.contains_key(k),
    {
        self.find(k).is_some()
    }

    /// Records a press (at `now`) or a release of `k`.
    pub fn record_pressed_key(&mut self, k: KeysDown, down: bool, now: u64)
        requires
            old(self).wf(),
        ensures
            final(self).wf(),
            final(self)@ == if down {
                old(self)@.insert(k, now)
            } else {
                old(self)@.remove(k)
            },
    {
        let found = self.find(k);
        if down {
            let ghost m = self.model@.insert(k, now);
            match found {
                Some(i) => {
                    self.entries.set(i, LedgerEntry { key: k, pressed_at: now });
                },
                None => {
                    self.entries.push(LedgerEntry { key: k, pressed_at: now });
                },
            }
            self.model = Ghost(m);
            assert forall|q: KeysDown| #[trigger] self.model@.contains_key(q) implies exists|j: int|
                0 <= j < self.entries@.len() && self.entries@[j].key == q by {
                if q == k {
                    match found {
                        Some(i) => assert(self.entries@[i as int].key == q),
                        None => assert(self.entries@[self.entries@.len() - 1].key == q),
                    }
                } else {
                    assert(old(self)@.contains_key(q));
                    let j = choose|j: int| 0 <= j < old(self).entries@.len() && old(self).entries@[j].key == q;
                    assert(self.entries@[j].key == q);
                }
            }
        } else {
            let ghost m = self.model@.remove(k);
            match found {
                Some(i) => {
                    let ghost before = self.entries@;
                    self.entries.remove(i);
                    assert forall|j: int| 0 <= j < self.entries@.len() implies #[trigger] self.entries@[j]
                        == if j < i { before[j] } else { before[j + 1] } by {}
                    self.model = Ghost(m);
                    assert forall|q: KeysDown| #[trigger] self.model@.contains_key(q) implies exists|j: int|
                        0 <= j < self.entries@.len() && self.entries@[j].key == q by {
                        let j = choose|j: int| 0 <= j < before.len() && before[j].key == q;
                        if j < i {
                            assert(self.entries@[j].key == q);
                        } else {
                            assert(j != i);
                            assert(self.entries@[j - 1].key == q);
                        }
                    }
                },
                None => {
                    assert(m =~= self.model@);
                },
            }
        }
    }

    /// Sweeps the ledger at `now`: every entry pressed at least
    /// `STUCK_KEY_TIMEOUT_MS` ago, or every entry when `force` is set, is
    /// removed. Returns the removed identities, in ledger order, each once.
    pub fn fix_key_down_timeout(&mut self, force: bool, now: u64) -> (r: Vec<KeysDown>)
        requires
            old(self).wf(),
        ensures
            final(self).wf(),
            final(self)@ == swept(old(self)@, now, force),
            r@.no_duplicates(),
            forall|k: KeysDown| r@.contains(k) <==> due_keys(old(self)@, now, force).contains(k),
    {
        let ghost old_entries = self.entries@;
        let ghost m = self.model@;
        let mut kept: Vec<LedgerEntry> = Vec::new();
        let mut released: Vec<KeysDown> = Vec::new();
        let ghost mut kept_src: Seq<int> = Seq::empty();
        let ghost mut rel_src: Seq<int> = Seq::empty();
        let mut i: usize = 0;
        while i < self.entries.len()
            invariant
                self.wf(),
                self.entries@ == old_entries,
                self.model@ == m,
                0 <= i <= old_entries.len(),
                kept_src.len() == kept@.len(),
                rel_src.len() == released@.len(),
                forall|a: int| 0 <= a < kept@.len() ==> 0 <= #[trigger] kept_src[a] < i,
                forall|a: int| 0 <= a < released@.len() ==> 0 <= #[trigger] rel_src[a] < i,
                forall|a: int, b: int| 0 <= a < b < kept@.len() ==> kept_src[a] < kept_src[b],
                forall|a: int, b: int| 0 <= a < b < released@.len() ==> rel_src[a] < rel_src[b],
                forall|a: int| 0 <= a < kept@.len() ==> #[trigger] kept@[a] == old_entries[kept_src[a]]
                    && !key_is_due(kept@[a].pressed_at, now, force),
                forall|a: int| 0 <= a < released@.len() ==> #[trigger] released@[a] == old_entries[rel_src[a]].key
                    && key_is_due(old_entries[rel_src[a]].pressed_at, now, force),
                forall|p: int| 0 <= p < i ==> (#[trigger] old_entries[p]).pressed_at == old_entries[p].pressed_at && (
                    if key_is_due(old_entries[p].pressed_at, now, force) {
                        exists|a: int| 0 <= a < released@.len() && rel_src[a] == p
                    } else {
                        exists|a: int| 0 <= a < kept@.len() && kept_src[a] == p
                    }),
            decreases old_entries.len() - i,
        {
            let ghost rs0 = rel_src;
            let ghost ks0 = kept_src;
            let ghost rl0 = released@.len();
            let ghost kl0 = kept@.len();
            let e = self.entries[i];
            let due = force || (e.pressed_at <= now && now - e.pressed_at >= STUCK_KEY_TIMEOUT_MS);
            if due {
                released.push(e.key);
                proof {
                    rel_src = rel_src.push(i as int);
                }
                assert(released@[released@.len() - 1] == old_entries[rel_src[released@.len() - 1]].key);
            } else {
                kept.push(e);
                proof {
                    kept_src = kept_src.push(i as int);
                }
                assert(kept@[kept@.len() - 1] == old_entries[kept_src[kept@.len() - 1]]);
            }
            proof {
                assert forall|p: int| 0 <= p < i + 1 implies (if key_is_due(
                    old_entries[p].pressed_at,
                    now,
                    force,
                ) {
                    exists|a: int| 0 <= a < released@.len() && rel_src[a] == p
                } else {
                    exists|a: int| 0 <= a < kept@.len() && kept_src[a] == p
                }) by {
                    if p == i {
                        if due {
                            assert(rel_src[released@.len() - 1] == p);
                        } else {
                            assert(kept_src[kept@.len() - 1] == p);
                        }
                    } else {
                        assert(old_entries[p] == old_entries[p]);
                        if key_is_due(old_entries[p].pressed_at, now, force) {
                            let a = choose|a: int| 0 <= a < rl0 && rs0[a] == p;
                            assert(rel_src[a] == p);
                        } else {
                            let a = choose|a: int| 0 <= a < kl0 && ks0[a] == p;
                            assert(kept_src[a] == p);
                        }
                    }
                }
            }
            i = i + 1;
        }
        let ghost s = swept(m, now, force);
        proof {
            assert forall|a: int, b: int| 0 <= a < b < released@.len() implies released@[a] != released@[b] by {
                assert(rel_src[a] < rel_src[b]);
            }
            assert forall|k: KeysDown| released@.contains(k) <==> due_keys(m, now, force).contains(k) by {
                if released@.contains(k) {
                    let a = choose|a: int| 0 <= a < released@.len() && released@[a] == k;
                    assert(released@[a] == old_entries[rel_src[a]].key);
                    assert(m.contains_key(old_entries[rel_src[a]].key));
                }
                if due_keys(m, now, force).contains(k) {
                    let p = choose|p: int| 0 <= p < old_entries.len() && old_entries[p].key == k;
                    assert(old_entries[p] == old_entries[p]);
                    let a = choose|a: int| 0 <= a < released@.len() && rel_src[a] == p;
                    assert(released@[a] == k);
                }
            }
        }
        self.entries = kept;
        self.model = Ghost(s);
        proof {
            assert forall|a: int, b: int| 0 <= a < b < self.entries@.len() implies self.entries@[a].key
                != self.entries@[b].key by {
                assert(kept_src[a] < kept_src[b]);
                assert(self.entries@[a] == old_entries[kept_src[a]]);
                assert(self.entries@[b] == old_entries[kept_src[b]]);
            }
            assert forall|a: int| 0 <= a < self.entries@.len() implies {
                &&& self.model@.contains_key(#[trigger] self.entries@[a].key)
                &&& self.model@[self.entries@[a].key] == self.entries@[a].pressed_at
            } by {
                let p = kept_src[a];
                assert(self.entries@[a] == old_entries[p]);
                assert(m.contains_key(old_entries[p].key));
                assert(!due_keys(m, now, force).contains(old_entries[p].key));
            }
            assert forall|k: KeysDown| #[trigger] self.model@.contains_key(k) implies exists|a: int|
                0 <= a < self.entries@.len() && self.entries@[a].key == k by {
                assert(m.contains_key(k));
                let p = choose|p: int| 0 <= p < old_entries.len() && old_entries[p].key == k;
                assert(old_entries[p] == old_entries[p]);
                assert(!key_is_due(old_entries[p].pressed_at, now, force));
                let a = choose|a: int| 0 <= a < kept@.len() && kept_src[a] == p;
                assert(self.entries@[a].key == k);
            }
        }
        released
    }
}

} // verus!
