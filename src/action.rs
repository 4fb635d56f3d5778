use vstd::prelude::*;

use crate::keys::{ControlKey, Key};
use crate::ledger::RawKey;

verus! {

/// The host platform and, on Linux, its input backend.
#[derive(Clone, Copy, Debug, PartialEq, Eq, Structural)]
pub enum Platform {
    Windows,
    /// Linux under X11.
    LinuxX11,
    /// Linux under Wayland through the uinput device (server process).
    LinuxUinput,
    /// Linux under Wayland through the remote-desktop portal.
    LinuxRdp,
    MacOs,
}

#[derive(Clone, Copy, Debug, PartialEq, Eq, Structural)]
pub enum MouseButton {
    Left,
    Right,
    Middle,
    Back,
    Forward,
}

/// One call into the injection backend. Handlers return plans: sequences of
/// these, performed in order by the caller once its locks are released.
#[derive(Clone, Copy, Debug, PartialEq, Eq, Structural)]
pub enum InputAction {
    KeyDown(Key),
    KeyUp(Key),
    KeyClick(Key),
    /// Press `key`; if the backend cannot represent it, type `chr` instead,
    /// upper-cased when `upper` is set.
    KeyDownOrType { key: Key, chr: char, upper: bool },
    /// Type one character as text.
    TypeChar(char),
    /// Press or release a raw platform key.
    RawKey { raw: RawKey, down: bool },
    /// Release the left or right Shift through the raw-key backend.
    ReleaseShift { right: bool },
    /// Inject one character as a unicode key stroke.
    UnicodeChar(char),
    /// Inject one character through the layout, as a hotkey would type it.
    HotkeyChar(char),
    /// Replay a hotkey code: try the unicode unit on press, else the
    /// virtual key's scan code.
    HotkeyCode { unicode: u16, vk: u16, down: bool },
    /// Poll the lock key's state until it reads `on`, for at most
    /// `LOCK_POLL_ROUNDS` rounds of `LOCK_POLL_INTERVAL_MS`.
    WaitLockState { lock: ControlKey, on: bool },
    /// Sleep for the given milliseconds.
    Pause { ms: u64 },
    /// Clear the backend's persistent modifier flags.
    ResetFlags,
    /// Add a persistent modifier flag.
    AddFlag(Key),
    /// Make the backend ignore (or honour) its persistent modifier flags.
    SetIgnoreFlags(bool),
    MouseMoveTo { x: i32, y: i32 },
    MouseMoveRelative { dx: i32, dy: i32 },
    MouseDown(MouseButton),
    MouseUp(MouseButton),
    ScrollX { amount: i32, trackpad: bool },
    ScrollY { amount: i32, trackpad: bool },
    /// Press Control and, if the backend accepted the press, scroll
    /// vertically by the amount (pinch zoom).
    ControlScroll(i32),
    /// Send the secure attention sequence (Ctrl+Alt+Del).
    SendSas,
    /// The lock-screen function key was pressed: run `lock_screen`.
    LockScreen,
    /// Lock the session through the platform's own call.
    PlatformLock,
    /// Forget the key codes the backend remapped to type characters (X11).
    ClearRemappedKeycodes,
}

/// Rounds of the lock-state poll.
pub const LOCK_POLL_ROUNDS: u64 = 50;

/// Interval of the lock-state poll, in milliseconds.
pub const LOCK_POLL_INTERVAL_MS: u64 = 10;

/// Fixed settle time after a lock-key click where no state can be read.
pub const LOCK_SETTLE_MS: u64 = 50;

} // verus!
