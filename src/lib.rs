//! Input synchronisation for a remote-control host.
//!
//! Remote keyboard and pointer events are turned into plans of backend
//! input actions; local device state (held keys, lock LEDs, cursor shape,
//! position and focused display) is reconciled with what the peer declares
//! and broadcast back to subscribers.
//!
//! Every handler works on an explicit [`InputState`] and a model of the live
//! key state ([`LiveKeys`]); it returns the plan, which the caller performs
//! once its locks are released.

pub mod action;
pub mod broadcast;
pub mod frame;
pub mod keyboard;
pub mod keys;
pub mod laws;
pub mod ledger;
pub mod lock;
pub mod mouse;
pub mod position;
pub mod reconcile;
pub mod state;
pub mod sweep;

pub use action::{InputAction, MouseButton, Platform, LOCK_POLL_INTERVAL_MS, LOCK_POLL_ROUNDS};
pub use broadcast::{
    new_cursor, run_cursor, CursorMessage, CursorUpdate, MouseCursorService, MouseCursorSub, StateCursor,
    BROADCAST_INTERVAL_MS,
};
pub use frame::build_frame;
pub use keyboard::{
    clear_remapped_keycode, enigo_ignore_flags, handle_key, is_enter, is_legacy_mode, lock_screen,
    set_last_legacy_mode, KeyEvent, KeyPayload, KeyboardMode,
};
pub use keys::{key_map, ControlKey, Key, LiveKeys};
pub use ledger::{KeysDown, Ledger, RawKey, STUCK_KEY_TIMEOUT_MS};
pub use mouse::{
    active_mouse, get_last_input_cursor_pos, handle_mouse, handle_pointer, is_left_up, mouse_move_relative,
    update_latest_input_cursor_time, MouseEvent, PointerDeviceEvent,
};
pub use position::{
    linux_platform, new_pos, new_window_focus, reset_input_ondisconn, run_pos, run_window_focus,
    try_start_record_cursor_pos, try_stop_record_cursor_pos, update_last_cursor_pos, wayland_use_rdp_input,
    wayland_use_uinput, PosBroadcast, PosService, StatePos, StateWindowFocus, WindowFocusService,
};
pub use reconcile::{fix_modifiers, press_modifiers, release_device_modifiers, release_keys};
pub use state::{InputState, PeerInput, SysCursorPos, INVALID_CURSOR_POS};
pub use sweep::{fix_key_down_timeout, fix_key_down_timeout_at_exit, release_record_key};
