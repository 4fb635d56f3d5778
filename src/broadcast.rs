use std::collections::HashSet;

use vstd::prelude::*;

use crate::action::InputAction;
use crate::state::InputState;
use crate::sweep::fix_key_down_timeout;

verus! {

pub const NAME_CURSOR: &'static str = "mouse_cursor";
pub const NAME_POS: &'static str = "mouse_pos";
pub const NAME_WINDOW_FOCUS: &'static str = "window_focus";

/// Tick of the broadcast services and of the cursor sampler, in milliseconds.
pub const BROADCAST_INTERVAL_MS: u64 = 33;

/// How long after a peer's pointer input its connection is left out of
/// position broadcasts, in milliseconds.
pub const ECHO_SUPPRESSION_MS: u64 = 300;

/// Display index that marks the focused display as unknown.
pub const INVALID_DISPLAY_IDX: i32 = -1;

/// A cursor message on the wire.
#[derive(Clone, Copy, Debug, PartialEq, Eq, Structural)]
pub enum CursorMessage {
    /// The full compressed bitmap of cursor shape `id` (the bytes travel
    /// with the message; they are built once per shape).
    Data(u64),
    /// A marker naming a shape the receiver already holds.
    Id(u64),
}

/// What a subscriber holding the shapes `cached` receives for `msg`: a
/// bitmap it holds becomes an id marker.
pub open spec fn delivered(cached: Set<u64>, msg: CursorMessage) -> CursorMessage {
    match msg {
        CursorMessage::Data(id) => if cached.contains(id) {
            CursorMessage::Id(id)
        } else {
            msg
        },
        CursorMessage::Id(_) => msg,
    }
}

/// The shapes a subscriber holds after `msg`.
pub open spec fn cached_after(cached: Set<u64>, msg: CursorMessage) -> Set<u64> {
    match msg {
        CursorMessage::Data(id) => cached.insert(id),
        CursorMessage::Id(_) => cached,
    }
}

/// A subscriber of the cursor service: a connection and the cursor shapes it
/// has already been sent in full.
pub struct MouseCursorSub {
    pub conn: i32,
    pub cached: HashSet<u64>,
}

impl MouseCursorSub {
    /// The subscriber's connection.
    pub open spec fn conn_id(&self) -> i32 {
        self.conn
    }

    /// Whether shape `id` has been sent to this subscriber in full.
    pub open spec fn has_cached(&self, id: u64) -> bool {
        self.cached@.contains(id)
    }

    /// The shapes sent to this subscriber in full.
    pub open spec fn cached_set(&self) -> Set<u64> {
        Set::new(|id: u64| self.has_cached(id))
    }

    /// A subscriber for connection `conn` that holds no shape yet.
    pub fn from(conn: i32) -> (r: MouseCursorSub)
        ensures
            r.conn_id() == conn,
            forall|id: u64| !r.has_cached(id),
    {
        MouseCursorSub { conn, cached: HashSet::new() }
    }

    /// The subscriber's connection.
    pub fn id(&self) -> (r: i32)
        ensures
            r == self.conn_id(),
    {
        self.conn
    }

    fn is_cached(&self, id: u64) -> (r: bool)
        ensures
            r == self.has_cached(id),
    {
        broadcast use vstd::std_specs::hash::group_hash_axioms;
        self.cached.contains(&id)
    }

    fn insert_cached(&mut self, id: u64)
        ensures
            final(self).conn == old(self).conn,
            final(self).cached@ == old(self).cached@.insert(id),
    {
        broadcast use vstd::std_specs::hash::group_hash_axioms;
        self.cached.insert(id);
    }

    /// What goes to this subscriber for `msg`: a full bitmap it already
    /// holds becomes an id marker; any other message passes unchanged. A
    /// bitmap sent in full is remembered.
    pub fn send(&mut self, msg: CursorMessage) -> (r: CursorMessage)
        ensures
            final(self).conn_id() == old(self).conn_id(),
            r == delivered(old(self).cached_set(), msg),
            final(self).cached_set() == cached_after(old(self).cached_set(), msg),
            r == match msg {
                CursorMessage::Data(id) => if old(self).has_cached(id) {
                    CursorMessage::Id(id)
                } else {
                    msg
                },
                CursorMessage::Id(_) => msg,
            },
            forall|j: u64| #[trigger]
                final(self).has_cached(j) == (old(self).has_cached(j) || msg == CursorMessage::Data(j)),
    {
        match msg {
            CursorMessage::Data(id) => {
                if self.is_cached(id) {
                    assert(self.cached_set() =~= cached_after(old(self).cached_set(), msg));
                    return CursorMessage::Id(id);
                }
                self.insert_cached(id);
                assert(self.cached_set() =~= cached_after(old(self).cached_set(), msg));
                msg
            },
            CursorMessage::Id(_) => {
                assert(self.cached_set() =~= cached_after(old(self).cached_set(), msg));
                msg
            },
        }
    }
}

/// The cursor service's own state: the last sampled shape, the message
/// last published, and the shapes whose bitmap has been built.
pub struct StateCursor {
    pub hcursor: u64,
    pub cursor_data: Option<CursorMessage>,
    pub built: HashSet<u64>,
}

impl StateCursor {
    /// Whether the bitmap of shape `id` has been built.
    pub open spec fn is_built(&self, id: u64) -> bool {
        self.built@.contains(id)
    }

    /// No shape seen, nothing published, no bitmap built.
    pub fn new() -> (r: StateCursor)
        ensures
            r.hcursor == 0,
            r.cursor_data is None,
            forall|id: u64| !r.is_built(id),
    {
        StateCursor { hcursor: 0, cursor_data: None, built: HashSet::new() }
    }

    fn built_contains(&self, id: u64) -> (r: bool)
        ensures
            r == self.is_built(id),
    {
        broadcast use vstd::std_specs::hash::group_hash_axioms;
        self.built.contains(&id)
    }

    fn mark_built(&mut self, id: u64)
        ensures
            final(self).hcursor == old(self).hcursor,
            final(self).cursor_data == old(self).cursor_data,
            final(self).built@ == old(self).built@.insert(id),
    {
        broadcast use vstd::std_specs::hash::group_hash_axioms;
        self.built.insert(id);
    }

    /// Back to the initial state after the session is lost: held keys are
    /// force-released (the plan returned), and the next key event is marked
    /// to re-run lock-key convergence whatever its key.
    pub fn reset(&mut self, input: &mut InputState, now: u64) -> (r: Vec<InputAction>)
        requires
            old(input).wf(),
        ensures
            final(self).hcursor == 0,
            final(self).cursor_data is None,
            forall|id: u64| !final(self).is_built(id),
            final(input).wf(),
            final(input).ledger@ == Map::<crate::ledger::KeysDown, u64>::empty(),
            exists|ks: Seq<crate::ledger::KeysDown>|
                {
                    &&& ks.no_duplicates()
                    &&& forall|k: crate::ledger::KeysDown| #[trigger]
                        ks.contains(k) <==> old(input).ledger@.contains_key(k)
                    &&& r@ == crate::sweep::release_actions(ks)
                },
            final(input).lock_resync,
            final(input).platform == old(input).platform,
            final(input).exiting == old(input).exiting,
            final(input).sys_cursor == old(input).sys_cursor,
            final(input).peer_input == old(input).peer_input,
            final(input).last_legacy_mode == old(input).last_legacy_mode,
            final(input).capslock_down == old(input).capslock_down,
            final(input).recording == old(input).recording,
    {
        *self = StateCursor::new();
        let ghost before = input.ledger@;
        let r = fix_key_down_timeout(input, true, now);
        input.lock_resync = true;
        assert(crate::ledger::swept(before, now, true) =~= Map::<crate::ledger::KeysDown, u64>::empty());
        r
    }
}

/// What one tick of the cursor service does.
#[derive(Clone, Copy, Debug, PartialEq, Eq, Structural)]
pub struct CursorUpdate {
    /// The message to publish to every subscriber, if any.
    pub publish: Option<CursorMessage>,
    /// Whether the bitmap of the sampled shape must be built first.
    pub build: bool,
}

/// One tick of the cursor service on the sampled shape `hcursor`: an
/// unchanged (or unknown) shape publishes nothing; a changed shape is
/// published in full, its bitmap built only the first time it is seen.
pub fn run_cursor(state: &mut StateCursor, hcursor: Option<u64>) -> (r: CursorUpdate)
    ensures
        match hcursor {
            Some(h) if h != old(state).hcursor => {
                &&& r == (CursorUpdate { publish: Some(CursorMessage::Data(h)), build: !old(state).is_built(h) })
                &&& final(state).hcursor == h
                &&& final(state).cursor_data == Some(CursorMessage::Data(h))
                &&& forall|j: u64| #[trigger] final(state).is_built(j) == (old(state).is_built(j) || j == h)
            },
            _ => {
                &&& r == (CursorUpdate { publish: None, build: false })
                &&& final(state).hcursor == old(state).hcursor
                &&& final(state).cursor_data == old(state).cursor_data
                &&& forall|j: u64| #[trigger] final(state).is_built(j) == old(state).is_built(j)
            },
        },
{
    match hcursor {
        Some(h) => {
            if h == state.hcursor {
                return CursorUpdate { publish: None, build: false };
            }
            let cached = state.built_contains(h);
            if !cached {
                state.mark_built(h);
            }
            state.hcursor = h;
            state.cursor_data = Some(CursorMessage::Data(h));
            CursorUpdate { publish: Some(CursorMessage::Data(h)), build: !cached }
        },
        None => CursorUpdate { publish: None, build: false },
    }
}

/// The cursor broadcast service: its subscribers and its state.
pub struct MouseCursorService {
    pub name: String,
    pub need_snapshot: bool,
    pub subs: Vec<MouseCursorSub>,
    pub state: StateCursor,
}

impl MouseCursorService {
    /// A service with no subscriber and a fresh state.
    pub fn new(name: String, need_snapshot: bool) -> (r: MouseCursorService)
        ensures
            r.name@ == name@,
            r.need_snapshot == need_snapshot,
            r.subs@.len() == 0,
            r.state.hcursor == 0,
            r.state.cursor_data is None,
            forall|id: u64| !r.state.is_built(id),
    {
        MouseCursorService { name, need_snapshot, subs: Vec::new(), state: StateCursor::new() }
    }

    /// Publishes `msg` to every subscriber; returns what each connection
    /// receives, in subscriber order.
    pub fn send_shared(&mut self, msg: CursorMessage) -> (r: Vec<(i32, CursorMessage)>)
        ensures
            final(self).subs@.len() == old(self).subs@.len(),
            r@.len() == old(self).subs@.len(),
            forall|i: int|
                0 <= i < r@.len() ==> {
                    &&& (#[trigger] r@[i]).0 == old(self).subs@[i].conn_id()
                    &&& r@[i].1 == match msg {
                        CursorMessage::Data(id) => if old(self).subs@[i].has_cached(id) {
                            CursorMessage::Id(id)
                        } else {
                            msg
                        },
                        CursorMessage::Id(_) => msg,
                    }
                    &&& final(self).subs@[i].conn_id() == old(self).subs@[i].conn_id()
                    &&& forall|j: u64| #[trigger]
                        final(self).subs@[i].has_cached(j) == (old(self).subs@[i].has_cached(j) || msg
                            == CursorMessage::Data(j))
                },
            final(self).name@ == old(self).name@,
            final(self).need_snapshot == old(self).need_snapshot,
            final(self).state == old(self).state,
    {
        let mut out: Vec<(i32, CursorMessage)> = Vec::new();
        let mut i: usize = 0;
        while i < self.subs.len()
            invariant
                0 <= i <= self.subs@.len(),
                self.subs@.len() == old(self).subs@.len(),
                out@.len() == i,
                self.name@ == old(self).name@,
                self.need_snapshot == old(self).need_snapshot,
                self.state == old(self).state,
                forall|k: int| i <= k < self.subs@.len() ==> self.subs@[k] == old(self).subs@[k],
                forall|k: int|
                    0 <= k < i ==> {
                        &&& (#[trigger] out@[k]).0 == old(self).subs@[k].conn_id()
                        &&& out@[k].1 == match msg {
                            CursorMessage::Data(id) => if old(self).subs@[k].has_cached(id) {
                                CursorMessage::Id(id)
                            } else {
                                msg
                            },
                            CursorMessage::Id(_) => msg,
                        }
                        &&& self.subs@[k].conn_id() == old(self).subs@[k].conn_id()
                        &&& forall|j: u64| #[trigger]
                            self.subs@[k].has_cached(j) == (old(self).subs@[k].has_cached(j) || msg
                                == CursorMessage::Data(j))
                    },
            decreases old(self).subs@.len() - i,
        {
            let mut sub = self.subs.remove(i);
            let conn = sub.id();
            let m = sub.send(msg);
            self.subs.insert(i, sub);
            out.push((conn, m));
            i = i + 1;
        }
        out
    }

    /// A subscriber joins; with snapshots enabled it is sent the last
    /// published message (as its cache turns it), which is returned.
    pub fn join(&mut self, conn: i32) -> (r: Option<CursorMessage>)
        ensures
            final(self).subs@.len() == old(self).subs@.len() + 1,
            final(self).subs@.last().conn_id() == conn,
            forall|k: int| 0 <= k < old(self).subs@.len() ==> final(self).subs@[k] == old(self).subs@[k],
            r == if old(self).need_snapshot {
                old(self).state.cursor_data
            } else {
                None
            },
            forall|j: u64| #[trigger]
                final(self).subs@.last().has_cached(j) == (r == Some(CursorMessage::Data(j))),
            final(self).state == old(self).state,
    {
        let mut sub = MouseCursorSub::from(conn);
        let r = if self.need_snapshot {
            match self.state.cursor_data {
                Some(m) => Some(sub.send(m)),
                None => None,
            }
        } else {
            None
        };
        self.subs.push(sub);
        r
    }

    /// A subscriber leaves: the first subscriber of connection `conn`, if
    /// any, is removed.
    pub fn leave(&mut self, conn: i32) -> (r: bool)
        ensures
            r == exists|k: int| 0 <= k < old(self).subs@.len() && old(self).subs@[k].conn_id() == conn,
            r ==> exists|k: int|
                {
                    &&& 0 <= k < old(self).subs@.len()
                    &&& old(self).subs@[k].conn_id() == conn
                    &&& forall|j: int| 0 <= j < k ==> old(self).subs@[j].conn_id() != conn
                    &&& final(self).subs@ == old(self).subs@.remove(k)
                },
            !r ==> final(self).subs@ == old(self).subs@,
            final(self).state == old(self).state,
    {
        let mut i: usize = 0;
        while i < self.subs.len()
            invariant
                0 <= i <= self.subs@.len(),
                self.subs@ == old(self).subs@,
                self.state == old(self).state,
                forall|k: int| 0 <= k < i ==> self.subs@[k].conn_id() != conn,
            decreases self.subs@.len() - i,
        {
            if self.subs[i].id() == conn {
                let _ = self.subs.remove(i);
                return true;
            }
            i = i + 1;
        }
        false
    }
}

/// The cursor service, named `NAME_CURSOR`, with snapshots for new subscribers.
pub fn new_cursor() -> (r: MouseCursorService)
    ensures
        r.name@ == NAME_CURSOR@,
        r.need_snapshot,
        r.subs@.len() == 0,
        r.state.hcursor == 0,
        r.state.cursor_data is None,
{
    MouseCursorService::new(NAME_CURSOR.to_owned(), true)
}

} // verus!
