use vstd::prelude::*;

use crate::action::Platform;
use crate::broadcast::{ECHO_SUPPRESSION_MS, INVALID_DISPLAY_IDX, NAME_POS, NAME_WINDOW_FOCUS};
use crate::state::{InputState, PeerInput, SysCursorPos, INVALID_CURSOR_POS};

verus! {

/// The position service's last broadcast position; `INVALID_CURSOR_POS`
/// marks it unset.
#[derive(Clone, Copy, Debug)]
pub struct StatePos {
    pub cursor_pos: (i32, i32),
}

impl StatePos {
    pub open spec fn valid(&self) -> bool {
        self.cursor_pos.0 != INVALID_CURSOR_POS
    }

    pub open spec fn moved(&self, x: i32, y: i32) -> bool {
        self.valid() && (self.cursor_pos.0 != x || self.cursor_pos.1 != y)
    }

    /// The unset state.
    pub fn new() -> (r: StatePos)
        ensures
            r.cursor_pos == (INVALID_CURSOR_POS, INVALID_CURSOR_POS),
    {
        StatePos { cursor_pos: (INVALID_CURSOR_POS, INVALID_CURSOR_POS) }
    }

    /// Back to unset, after the session is lost.
    pub fn reset(&mut self)
        ensures
            final(self).cursor_pos == (INVALID_CURSOR_POS, INVALID_CURSOR_POS),
    {
        self.cursor_pos = (INVALID_CURSOR_POS, INVALID_CURSOR_POS);
    }

    /// Whether a value is set.
    pub fn is_valid(&self) -> (r: bool)
        ensures
            r == self.valid(),
    {
        self.cursor_pos.0 != INVALID_CURSOR_POS
    }

    /// Whether (`x`, `y`) differs from a set last position.
    pub fn is_moved(&self, x: i32, y: i32) -> (r: bool)
        ensures
            r == self.moved(x, y),
    {
        self.is_valid() && (self.cursor_pos.0 != x || self.cursor_pos.1 != y)
    }
}

/// A position broadcast: to every subscriber but `exclude`.
#[derive(Clone, Copy, Debug, PartialEq, Eq, Structural)]
pub struct PosBroadcast {
    pub x: i32,
    pub y: i32,
    pub exclude: Option<i32>,
}

/// The connection left out of a broadcast at `now`: the peer whose pointer
/// input is younger than `ECHO_SUPPRESSION_MS`.
pub open spec fn echo_exclude(peer: PeerInput, now: u64) -> Option<i32> {
    if (now as int) - (peer.time as int) < ECHO_SUPPRESSION_MS as int {
        Some(peer.conn)
    } else {
        None
    }
}

/// One tick of the position service at `now`, on the sampled system cursor
/// position and the latest peer input. An unknown position does nothing. A
/// position that differs from a set last broadcast is published, leaving
/// out the connection given by `echo_exclude`; the sample becomes the last
/// broadcast position either way.
pub fn run_pos(state: &mut StatePos, sys: SysCursorPos, peer: PeerInput, now: u64) -> (r: Option<PosBroadcast>)
    ensures
        sys.x == INVALID_CURSOR_POS || sys.y == INVALID_CURSOR_POS ==> r is None && *final(state) == *old(state),
        !(sys.x == INVALID_CURSOR_POS || sys.y == INVALID_CURSOR_POS) ==> {
            &&& final(state).cursor_pos == (sys.x, sys.y)
            &&& r == if old(state).moved(sys.x, sys.y) {
                Some(PosBroadcast { x: sys.x, y: sys.y, exclude: echo_exclude(peer, now) })
            } else {
                None
            }
        },
{
    let (x, y) = (sys.x, sys.y);
    if x == INVALID_CURSOR_POS || y == INVALID_CURSOR_POS {
        return None;
    }
    let mut r = None;
    if state.is_moved(x, y) {
        let exclude = if now < peer.time || now - peer.time < ECHO_SUPPRESSION_MS {
            Some(peer.conn)
        } else {
            None
        };
        r = Some(PosBroadcast { x, y, exclude });
    }
    state.cursor_pos = (x, y);
    r
}

/// The position service.
pub struct PosService {
    pub name: String,
    pub state: StatePos,
}

impl PosService {
    /// The position sent to a joining subscriber: the last broadcast one,
    /// as it stands.
    pub fn snapshot(&self) -> (r: (i32, i32))
        ensures
            r == self.state.cursor_pos,
    {
        self.state.cursor_pos
    }
}

/// The position service, named `NAME_POS`, with no position set.
pub fn new_pos() -> (r: PosService)
    ensures
        r.name@ == NAME_POS@,
        r.state.cursor_pos == (INVALID_CURSOR_POS, INVALID_CURSOR_POS),
{
    PosService { name: NAME_POS.to_owned(), state: StatePos::new() }
}

/// The focus service's last broadcast display; `INVALID_DISPLAY_IDX` marks it unset.
#[derive(Clone, Copy, Debug, PartialEq, Eq, Structural)]
pub struct StateWindowFocus {
    pub display_idx: i32,
}

impl StateWindowFocus {
    pub open spec fn valid(&self) -> bool {
        self.display_idx != INVALID_DISPLAY_IDX
    }

    pub open spec fn changed(&self, idx: i32) -> bool {
        self.valid() && self.display_idx != idx
    }

    /// The initial state: display 0.
    pub fn new() -> (r: StateWindowFocus)
        ensures
            r.display_idx == 0,
    {
        StateWindowFocus { display_idx: 0 }
    }

    /// Back to unset, after the session is lost.
    pub fn reset(&mut self)
        ensures
            final(self).display_idx == INVALID_DISPLAY_IDX,
    {
        self.display_idx = INVALID_DISPLAY_IDX;
    }

    /// Whether a value is set.
    pub fn is_valid(&self) -> (r: bool)
        ensures
            r == self.valid(),
    {
        self.display_idx != INVALID_DISPLAY_IDX
    }

    /// Whether `idx` differs from a set last display.
    pub fn is_changed(&self, idx: i32) -> (r: bool)
        ensures
            r == self.changed(idx),
    {
        self.is_valid() && self.display_idx != idx
    }
}

/// One tick of the focus service: with more than one display and a known
/// focused display, a change from a set last display is published (the index
/// returned), and the focused display becomes the last one.
pub fn run_window_focus(state: &mut StateWindowFocus, display_count: usize, focused: Option<usize>) -> (r:
    Option<i32>)
    ensures
        display_count <= 1 || focused is None ==> r is None && *final(state) == *old(state),
        display_count > 1 && focused is Some ==> {
            let idx = focused->0 as i32;
            &&& final(state).display_idx == idx
            &&& r == if old(state).changed(idx) {
                Some(idx)
            } else {
                None
            }
        },
{
    if display_count <= 1 {
        return None;
    }
    match focused {
        Some(f) => {
            let idx = f as i32;
            let r = if state.is_changed(idx) {
                Some(idx)
            } else {
                None
            };
            state.display_idx = idx;
            r
        },
        None => None,
    }
}

/// The focus service.
pub struct WindowFocusService {
    pub name: String,
    pub state: StateWindowFocus,
}

/// The focus service, named `NAME_WINDOW_FOCUS`.
pub fn new_window_focus() -> (r: WindowFocusService)
    ensures
        r.name@ == NAME_WINDOW_FOCUS@,
        r.state.display_idx == 0,
{
    WindowFocusService { name: NAME_WINDOW_FOCUS.to_owned(), state: StateWindowFocus::new() }
}

/// Records a sampled system cursor position at `now`; the sample time moves
/// only when the position changes.
pub fn update_last_cursor_pos(state: &mut InputState, x: i32, y: i32, now: u64)
    ensures
        final(state).sys_cursor == if old(state).sys_cursor.x != x || old(state).sys_cursor.y != y {
            SysCursorPos { sampled_at: Some(now), x, y }
        } else {
            old(state).sys_cursor
        },
        final(state).ledger == old(state).ledger,
        final(state).platform == old(state).platform,
        final(state).exiting == old(state).exiting,
        final(state).peer_input == old(state).peer_input,
        final(state).last_legacy_mode == old(state).last_legacy_mode,
        final(state).capslock_down == old(state).capslock_down,
        final(state).recording == old(state).recording,
        final(state).lock_resync == old(state).lock_resync,
{
    if state.sys_cursor.x != x || state.sys_cursor.y != y {
        state.sys_cursor = SysCursorPos { sampled_at: Some(now), x, y };
    }
}

/// Marks the cursor sampler as running; false when it already was (the
/// caller starts the sampler only on true).
pub fn try_start_record_cursor_pos(state: &mut InputState) -> (r: bool)
    ensures
        r == !old(state).recording,
        final(state).recording,
        final(state).ledger == old(state).ledger,
        final(state).sys_cursor == old(state).sys_cursor,
        final(state).exiting == old(state).exiting,
        final(state).platform == old(state).platform,
        final(state).peer_input == old(state).peer_input,
        final(state).last_legacy_mode == old(state).last_legacy_mode,
        final(state).capslock_down == old(state).capslock_down,
        final(state).lock_resync == old(state).lock_resync,
{
    if state.recording {
        return false;
    }
    state.recording = true;
    true
}

/// Stops the cursor sampler unless remote-control connections remain.
pub fn try_stop_record_cursor_pos(state: &mut InputState, remote_conns: usize)
    ensures
        final(state).recording == (old(state).recording && remote_conns > 0),
        final(state).ledger == old(state).ledger,
        final(state).sys_cursor == old(state).sys_cursor,
        final(state).exiting == old(state).exiting,
        final(state).platform == old(state).platform,
        final(state).peer_input == old(state).peer_input,
        final(state).last_legacy_mode == old(state).last_legacy_mode,
        final(state).capslock_down == old(state).capslock_down,
        final(state).lock_resync == old(state).lock_resync,
{
    if remote_conns > 0 {
        return;
    }
    state.recording = false;
}

/// Whether a Linux session injects through uinput: Wayland, server process.
pub fn wayland_use_uinput(is_x11: bool, is_server: bool) -> (r: bool)
    ensures
        r == (!is_x11 && is_server),
{
    !is_x11 && is_server
}

/// Whether a Linux session injects through the remote-desktop portal:
/// Wayland, not the server process.
pub fn wayland_use_rdp_input(is_x11: bool, is_server: bool) -> (r: bool)
    ensures
        r == (!is_x11 && !is_server),
{
    !is_x11 && !is_server
}

/// The platform value of a Linux session.
pub fn linux_platform(is_x11: bool, is_server: bool) -> (r: Platform)
    ensures
        is_x11 ==> r == Platform::LinuxX11,
        !is_x11 && is_server ==> r == Platform::LinuxUinput,
        !is_x11 && !is_server ==> r == Platform::LinuxRdp,
{
    if wayland_use_uinput(is_x11, is_server) {
        Platform::LinuxUinput
    } else if wayland_use_rdp_input(is_x11, is_server) {
        Platform::LinuxRdp
    } else {
        Platform::LinuxX11
    }
}

/// After a disconnect the macOS virtual input is recreated, holding no
/// Caps Lock.
pub fn reset_input_ondisconn(state: &mut InputState)
    ensures
        !final(state).capslock_down,
        final(state).ledger == old(state).ledger,
        final(state).platform == old(state).platform,
        final(state).exiting == old(state).exiting,
        final(state).sys_cursor == old(state).sys_cursor,
        final(state).peer_input == old(state).peer_input,
        final(state).last_legacy_mode == old(state).last_legacy_mode,
        final(state).recording == old(state).recording,
        final(state).lock_resync == old(state).lock_resync,
{
    state.capslock_down = false;
}

} // verus!
