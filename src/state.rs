use vstd::prelude::*;

use crate::action::Platform;
use crate::ledger::Ledger;

verus! {

/// Coordinate that marks a cursor position as unknown.
pub const INVALID_CURSOR_POS: i32 = i32::MIN;

/// The last sampled system cursor position.
#[derive(Clone, Copy, Debug, PartialEq, Eq, Structural)]
pub struct SysCursorPos {
    /// When the position last changed, in milliseconds; `None` before the
    /// first sample.
    pub sampled_at: Option<u64>,
    pub x: i32,
    pub y: i32,
}

/// The most recent pointer input attributed to a peer.
#[derive(Clone, Copy, Debug, PartialEq, Eq, Structural)]
pub struct PeerInput {
    pub conn: i32,
    /// Wall-clock milliseconds of the input.
    pub time: u64,
    pub x: i32,
    pub y: i32,
}

/// The state shared by the dispatch entry points, the samplers and the
/// sweeper; constructed once and handed to each of them.
pub struct InputState {
    pub platform: Platform,
    /// Once set, every dispatch entry point is a no-op.
    pub exiting: bool,
    pub ledger: Ledger,
    pub sys_cursor: SysCursorPos,
    pub peer_input: PeerInput,
    /// Whether the last key event was in legacy mode (macOS flag handling).
    pub last_legacy_mode: bool,
    /// Whether the macOS virtual input holds Caps Lock down.
    pub capslock_down: bool,
    /// Whether the cursor-position sampler runs.
    pub recording: bool,
    /// Set when the session is lost: the next key event re-runs lock-key
    /// convergence whatever its key.
    pub lock_resync: bool,
}

impl InputState {
    /// The ledger is well formed.
    pub open spec fn wf(&self) -> bool {
        self.ledger.wf()
    }

    /// The state at service start: nothing held, positions unknown.
    pub fn new(platform: Platform) -> (r: InputState)
        ensures
            r.wf(),
            r.platform == platform,
            !r.exiting,
            r.ledger@ == Map::<crate::ledger::KeysDown, u64>::empty(),
            r.sys_cursor == (SysCursorPos { sampled_at: None, x: INVALID_CURSOR_POS, y: INVALID_CURSOR_POS }),
            r.peer_input == (PeerInput { conn: 0, time: 0, x: 0, y: 0 }),
            r.last_legacy_mode,
            !r.capslock_down,
            !r.recording,
            !r.lock_resync,
    {
        InputState {
            platform,
            exiting: false,
            ledger: Ledger::new(),
            sys_cursor: SysCursorPos { sampled_at: None, x: INVALID_CURSOR_POS, y: INVALID_CURSOR_POS },
            peer_input: PeerInput { conn: 0, time: 0, x: 0, y: 0 },
            last_legacy_mode: true,
            capslock_down: false,
            recording: false,
            lock_resync: false,
        }
    }
}

} // verus!
