use vstd::prelude::*;

use crate::action::{InputAction, MouseButton, Platform};
use crate::keys::{contains_key, key_map, spec_key_map, ControlKey, LiveKeys};
use crate::reconcile::{
    fix_modifiers, fix_modifiers_from, key_downs, key_ups, live_after_release, modifiers_to_press,
    press_modifiers, release_keys,
};
use crate::state::{InputState, PeerInput};

verus! {

pub const MOUSE_TYPE_MOVE: i32 = 0;
pub const MOUSE_TYPE_DOWN: i32 = 1;
pub const MOUSE_TYPE_UP: i32 = 2;
pub const MOUSE_TYPE_WHEEL: i32 = 3;
pub const MOUSE_TYPE_TRACKPAD: i32 = 4;

pub const MOUSE_BUTTON_LEFT: i32 = 0x01;
pub const MOUSE_BUTTON_RIGHT: i32 = 0x02;
pub const MOUSE_BUTTON_WHEEL: i32 = 0x04;
pub const MOUSE_BUTTON_BACK: i32 = 0x08;
pub const MOUSE_BUTTON_FORWARD: i32 = 0x10;

/// Largest per-axis distance sent as relative motion.
pub const MAX_RELATIVE_STEP: i32 = 127;

/// Scroll units of one discrete wheel notch on Windows.
pub const WHEEL_DELTA: i32 = 120;

/// A pointer event: `mask` packs the button bits above an action kind in
/// its low three bits.
#[derive(Clone, Debug)]
pub struct MouseEvent {
    pub mask: i32,
    pub x: i32,
    pub y: i32,
    pub modifiers: Vec<ControlKey>,
}

/// A touch event from a pointer device.
#[derive(Clone, Copy, Debug, PartialEq, Eq, Structural)]
pub enum PointerDeviceEvent {
    /// A pinch, by the given scale step; zero ends the gesture.
    Scale(i32),
    /// Any other touch event.
    Other,
}

/// The action kind packed in a mask.
pub open spec fn mask_kind(mask: i32) -> i32 {
    mask & 7
}

/// The button bits packed in a mask.
pub open spec fn mask_buttons(mask: i32) -> i32 {
    mask >> 3
}

/// Whether the event releases the left button.
pub fn is_left_up(evt: &MouseEvent) -> (r: bool)
    ensures
        r == (mask_buttons(evt.mask) == MOUSE_BUTTON_LEFT && mask_kind(evt.mask) == MOUSE_TYPE_UP),
{
    let buttons = evt.mask >> 3;
    let evt_type = evt.mask & 7;
    buttons == MOUSE_BUTTON_LEFT && evt_type == MOUSE_TYPE_UP
}

/// A relative pointer move by (`dx`, `dy`).
pub fn mouse_move_relative(dx: i32, dy: i32) -> (r: InputAction)
    ensures
        r == (InputAction::MouseMoveRelative { dx, dy }),
{
    InputAction::MouseMoveRelative { dx, dy }
}

pub open spec fn abs(v: int) -> int {
    if v < 0 {
        -v
    } else {
        v
    }
}

/// The move issued to bring the pointer from (`sx`, `sy`) to (`x`, `y`): an
/// absolute move when either axis is more than `MAX_RELATIVE_STEP` away, a
/// relative move when both axes moved by less, nothing when one axis is still.
pub open spec fn move_actions(x: i32, y: i32, sx: i32, sy: i32) -> Seq<InputAction> {
    let dx = x as int - sx as int;
    let dy = y as int - sy as int;
    if abs(dx) > MAX_RELATIVE_STEP as int || abs(dy) > MAX_RELATIVE_STEP as int {
        seq![InputAction::MouseMoveTo { x, y }]
    } else if dx != 0 && dy != 0 {
        seq![InputAction::MouseMoveRelative { dx: dx as i32, dy: dy as i32 }]
    } else {
        Seq::empty()
    }
}

/// The button named by a mask's button bits.
pub open spec fn button_of(buttons: i32) -> Option<MouseButton> {
    if buttons == MOUSE_BUTTON_LEFT {
        Some(MouseButton::Left)
    } else if buttons == MOUSE_BUTTON_RIGHT {
        Some(MouseButton::Right)
    } else if buttons == MOUSE_BUTTON_WHEEL {
        Some(MouseButton::Middle)
    } else if buttons == MOUSE_BUTTON_BACK {
        Some(MouseButton::Back)
    } else if buttons == MOUSE_BUTTON_FORWARD {
        Some(MouseButton::Forward)
    } else {
        None
    }
}

fn button_from_bits(buttons: i32) -> (r: Option<MouseButton>)
    ensures
        r == button_of(buttons),
{
    if buttons == MOUSE_BUTTON_LEFT {
        Some(MouseButton::Left)
    } else if buttons == MOUSE_BUTTON_RIGHT {
        Some(MouseButton::Right)
    } else if buttons == MOUSE_BUTTON_WHEEL {
        Some(MouseButton::Middle)
    } else if buttons == MOUSE_BUTTON_BACK {
        Some(MouseButton::Back)
    } else if buttons == MOUSE_BUTTON_FORWARD {
        Some(MouseButton::Forward)
    } else {
        None
    }
}

/// `v` limited to the range of `i32`.
pub open spec fn clamp_i32(v: int) -> i32 {
    if v > i32::MAX as int {
        i32::MAX
    } else if v < i32::MIN as int {
        i32::MIN
    } else {
        v as i32
    }
}

fn clamp_to_i32(v: i64) -> (r: i32)
    ensures
        r == clamp_i32(v as int),
{
    if v > i32::MAX as i64 {
        i32::MAX
    } else if v < i32::MIN as i64 {
        i32::MIN
    } else {
        v as i32
    }
}

/// The scroll calls for a wheel or trackpad event. Horizontal motion is
/// negated everywhere, vertical motion everywhere but Windows; Windows scales
/// discrete wheel notches by `WHEEL_DELTA`; macOS turns a Shift-held discrete
/// vertical scroll into a horizontal one. Values are limited to `i32`.
pub open spec fn wheel_actions(platform: Platform, kind: i32, x: i32, y: i32, shift: bool) -> Seq<
    InputAction,
> {
    let trackpad = kind == MOUSE_TYPE_TRACKPAD;
    let sx = -(x as int);
    let sy = if platform == Platform::Windows {
        y as int
    } else {
        -(y as int)
    };
    if platform == Platform::MacOs {
        let (hx, hy) = if !trackpad && shift {
            (clamp_i32(sy), 0i32)
        } else {
            (clamp_i32(sx), clamp_i32(sy))
        };
        (if hx != 0 {
            seq![InputAction::ScrollX { amount: hx, trackpad }]
        } else {
            Seq::empty()
        }) + (if hy != 0 {
            seq![InputAction::ScrollY { amount: hy, trackpad }]
        } else {
            Seq::empty()
        })
    } else {
        let scale: int = if platform == Platform::Windows && !trackpad {
            WHEEL_DELTA as int
        } else {
            1
        };
        let hx = clamp_i32(sx * scale);
        let hy = clamp_i32(sy * scale);
        (if hy != 0 {
            seq![InputAction::ScrollY { amount: hy, trackpad: false }]
        } else {
            Seq::empty()
        }) + (if hx != 0 {
            seq![InputAction::ScrollX { amount: hx, trackpad: false }]
        } else {
            Seq::empty()
        })
    }
}

/// The macOS flag actions for a set of declared modifiers: reset, then one
/// flag per declared id that maps to a key, from position `i` on.
pub open spec fn flag_actions_from(declared: Seq<ControlKey>, i: int) -> Seq<InputAction>
    decreases declared.len() - i,
{
    if i >= declared.len() || i < 0 {
        Seq::empty()
    } else {
        match spec_key_map(declared[i]) {
            Some(k) => seq![InputAction::AddFlag(k)] + flag_actions_from(declared, i + 1),
            None => flag_actions_from(declared, i + 1),
        }
    }
}

/// All macOS flag actions for `declared`.
pub open spec fn flag_actions(declared: Seq<ControlKey>) -> Seq<InputAction> {
    seq![InputAction::ResetFlags] + flag_actions_from(declared, 0)
}

/// Appends the macOS flag actions for `declared`.
pub fn push_flags(declared: &Vec<ControlKey>, out: &mut Vec<InputAction>)
    ensures
        final(out)@ == old(out)@ + flag_actions(declared@),
{
    let ghost out0 = out@;
    out.push(InputAction::ResetFlags);
    let mut i: usize = 0;
    while i < declared.len()
        invariant
            0 <= i <= declared@.len(),
            out@ + flag_actions_from(declared@, i as int) == out0 + flag_actions(declared@),
        decreases declared@.len() - i,
    {
        match key_map(declared[i]) {
            Some(k) => {
                let ghost o = out@;
                out.push(InputAction::AddFlag(k));
                assert(out@ + flag_actions_from(declared@, i + 1) =~= o + flag_actions_from(
                    declared@,
                    i as int,
                ));
            },
            None => {},
        }
        i = i + 1;
    }
    assert(out@ =~= out@ + flag_actions_from(declared@, i as int));
}

/// The plan for a button press: reconcile modifiers (no key excluded); then
/// on macOS set the flags, elsewhere press the missing declared modifiers;
/// press the button; release what was pressed. Also the live state after.
pub open spec fn down_plan(platform: Platform, buttons: i32, declared: Seq<ControlKey>, live: LiveKeys) -> (
    Seq<InputAction>,
    LiveKeys,
) {
    let fixed = fix_modifiers_from(platform, declared, None, live, 0);
    let button = match button_of(buttons) {
        Some(b) => seq![InputAction::MouseDown(b)],
        None => Seq::empty(),
    };
    if platform == Platform::MacOs {
        (fixed.0 + flag_actions(declared) + button, fixed.1)
    } else {
        let pressed = modifiers_to_press(declared, fixed.1, 0);
        (
            fixed.0 + key_downs(pressed.0) + button + key_ups(pressed.0),
            live_after_release(pressed.1, pressed.0),
        )
    }
}

/// The plan for one pointer event (past the exit and active-mouse gates),
/// with the live state after it.
pub open spec fn mouse_plan(
    platform: Platform,
    evt: MouseEvent,
    sx: i32,
    sy: i32,
    last_legacy_mode: bool,
    live: LiveKeys,
) -> (Seq<InputAction>, LiveKeys) {
    let kind = mask_kind(evt.mask);
    let buttons = mask_buttons(evt.mask);
    let prefix = if platform == Platform::MacOs {
        seq![InputAction::SetIgnoreFlags(!last_legacy_mode)]
    } else {
        Seq::empty()
    };
    if kind == MOUSE_TYPE_MOVE {
        (prefix + move_actions(evt.x, evt.y, sx, sy), live)
    } else if kind == MOUSE_TYPE_DOWN {
        let d = down_plan(platform, buttons, evt.modifiers@, live);
        (prefix + d.0, d.1)
    } else if kind == MOUSE_TYPE_UP {
        (
            prefix + match button_of(buttons) {
                Some(b) => seq![InputAction::MouseUp(b)],
                None => Seq::empty(),
            },
            live,
        )
    } else if kind == MOUSE_TYPE_WHEEL || kind == MOUSE_TYPE_TRACKPAD {
        (prefix + wheel_actions(platform, kind, evt.x, evt.y, evt.modifiers@.contains(ControlKey::Shift)), live)
    } else {
        (prefix, live)
    }
}

/// Records `conn` as the source of the latest pointer input, at `now`.
pub fn update_latest_input_cursor_time(state: &mut InputState, conn: i32, now: u64)
    ensures
        final(state).peer_input == (PeerInput { conn, time: now, ..old(state).peer_input }),
        final(state).ledger == old(state).ledger,
        final(state).platform == old(state).platform,
        final(state).exiting == old(state).exiting,
        final(state).sys_cursor == old(state).sys_cursor,
        final(state).last_legacy_mode == old(state).last_legacy_mode,
        final(state).capslock_down == old(state).capslock_down,
        final(state).recording == old(state).recording,
        final(state).lock_resync == old(state).lock_resync,
{
    state.peer_input.conn = conn;
    state.peer_input.time = now;
}

/// The position of the latest peer pointer input.
pub fn get_last_input_cursor_pos(state: &InputState) -> (r: (i32, i32))
    ensures
        r == (state.peer_input.x, state.peer_input.y),
{
    (state.peer_input.x, state.peer_input.y)
}

/// Extension point for giving local pointer motion precedence over remote
/// input; every event is admitted.
pub fn active_mouse(conn: i32) -> (r: bool)
    ensures
        r,
{
    true
}

fn push_move(out: &mut Vec<InputAction>, x: i32, y: i32, sx: i32, sy: i32)
    ensures
        final(out)@ == old(out)@ + move_actions(x, y, sx, sy),
{
    let dx: i64 = x as i64 - sx as i64;
    let dy: i64 = y as i64 - sy as i64;
    let far = dx > MAX_RELATIVE_STEP as i64 || dx < -(MAX_RELATIVE_STEP as i64) || dy
        > MAX_RELATIVE_STEP as i64 || dy < -(MAX_RELATIVE_STEP as i64);
    if far {
        out.push(InputAction::MouseMoveTo { x, y });
    } else if dx != 0 && dy != 0 {
        out.push(mouse_move_relative(dx as i32, dy as i32));
    } else {
        assert(out@ =~= out@ + Seq::<InputAction>::empty());
    }
}

fn push_wheel(out: &mut Vec<InputAction>, platform: Platform, kind: i32, x: i32, y: i32, shift: bool)
    ensures
        final(out)@ == old(out)@ + wheel_actions(platform, kind, x, y, shift),
{
    let ghost out0 = out@;
    let trackpad = kind == MOUSE_TYPE_TRACKPAD;
    let sx: i64 = -(x as i64);
    let sy: i64 = match platform {
        Platform::Windows => y as i64,
        _ => -(y as i64),
    };
    match platform {
        Platform::MacOs => {
            let (hx, hy) = if !trackpad && shift {
                (clamp_to_i32(sy), 0i32)
            } else {
                (clamp_to_i32(sx), clamp_to_i32(sy))
            };
            if hx != 0 {
                out.push(InputAction::ScrollX { amount: hx, trackpad });
            }
            if hy != 0 {
                out.push(InputAction::ScrollY { amount: hy, trackpad });
            }
        },
        _ => {
            let scale: i64 = if platform == Platform::Windows && !trackpad {
                WHEEL_DELTA as i64
            } else {
                1
            };
            let hx = clamp_to_i32(sx * scale);
            let hy = clamp_to_i32(sy * scale);
            if hy != 0 {
                out.push(InputAction::ScrollY { amount: hy, trackpad: false });
            }
            if hx != 0 {
                out.push(InputAction::ScrollX { amount: hx, trackpad: false });
            }
        },
    }
    assert(out@ =~= out0 + wheel_actions(platform, kind, x, y, shift));
}

/// Translates one pointer event into backend actions. Nothing happens once
/// the state is exiting. A move is measured from the last sampled system
/// cursor position (see `move_actions`) and recorded as the peer's latest
/// input at `now`; presses reconcile modifiers first (see `down_plan`).
pub fn handle_mouse(
    state: &mut InputState,
    evt: &MouseEvent,
    conn: i32,
    live: &mut LiveKeys,
    now: u64,
) -> (r: Vec<InputAction>)
    requires
        old(state).wf(),
    ensures
        final(state).wf(),
        old(state).exiting ==> r@ == Seq::<InputAction>::empty() && *final(live) == *old(live)
            && *final(state) == *old(state),
        !old(state).exiting ==> {
            let plan = mouse_plan(
                old(state).platform,
                *evt,
                old(state).sys_cursor.x,
                old(state).sys_cursor.y,
                old(state).last_legacy_mode,
                *old(live),
            );
            &&& r@ == plan.0
            &&& *final(live) == plan.1
            &&& final(state).peer_input == if mask_kind(evt.mask) == MOUSE_TYPE_MOVE {
                PeerInput { conn, time: now, x: evt.x, y: evt.y }
            } else {
                old(state).peer_input
            }
            &&& final(state).platform == old(state).platform
            &&& final(state).exiting == old(state).exiting
            &&& final(state).ledger@ == old(state).ledger@
            &&& final(state).sys_cursor == old(state).sys_cursor
            &&& final(state).last_legacy_mode == old(state).last_legacy_mode
            &&& final(state).capslock_down == old(state).capslock_down
            &&& final(state).recording == old(state).recording
            &&& final(state).lock_resync == old(state).lock_resync
        },
{
    let mut out: Vec<InputAction> = Vec::new();
    if !active_mouse(conn) || state.exiting {
        return out;
    }
    let platform = state.platform;
    let buttons = evt.mask >> 3;
    let evt_type = evt.mask & 7;
    if platform == Platform::MacOs {
        out.push(InputAction::SetIgnoreFlags(crate::keyboard::enigo_ignore_flags(state)));
    }
    let ghost prefix = out@;
    if evt_type == MOUSE_TYPE_MOVE {
        push_move(&mut out, evt.x, evt.y, state.sys_cursor.x, state.sys_cursor.y);
        state.peer_input = PeerInput { conn, time: now, x: evt.x, y: evt.y };
    } else if evt_type == MOUSE_TYPE_DOWN {
        fix_modifiers(platform, &evt.modifiers, None, live, &mut out);
        let button = button_from_bits(buttons);
        if platform == Platform::MacOs {
            push_flags(&evt.modifiers, &mut out);
            if let Some(b) = button {
                out.push(InputAction::MouseDown(b));
            }
        } else {
            let pressed = press_modifiers(&evt.modifiers, live, &mut out);
            if let Some(b) = button {
                out.push(InputAction::MouseDown(b));
            }
            release_keys(&pressed, live, &mut out);
        }
        assert(out@ =~= prefix + down_plan(platform, buttons, evt.modifiers@, *old(live)).0);
    } else if evt_type == MOUSE_TYPE_UP {
        if let Some(b) = button_from_bits(buttons) {
            out.push(InputAction::MouseUp(b));
        }
        assert(out@ =~= prefix + match button_of(buttons) {
            Some(b) => seq![InputAction::MouseUp(b)],
            None => Seq::<InputAction>::empty(),
        });
    } else if evt_type == MOUSE_TYPE_WHEEL || evt_type == MOUSE_TYPE_TRACKPAD {
        let shift = contains_key(&evt.modifiers, ControlKey::Shift);
        push_wheel(&mut out, platform, evt_type, evt.x, evt.y, shift);
    }
    out
}

/// Handles a touch event: on Windows a pinch step presses Control and
/// scrolls, and a zero step releases Control. Nothing happens elsewhere or
/// once the state is exiting.
pub fn handle_pointer(state: &InputState, evt: &PointerDeviceEvent, conn: i32) -> (r: Vec<InputAction>)
    ensures
        r@ == if state.exiting || state.platform != Platform::Windows {
            Seq::<InputAction>::empty()
        } else {
            match *evt {
                PointerDeviceEvent::Scale(s) => if s == 0 {
                    seq![InputAction::KeyUp(crate::keys::Key::Symbol(ControlKey::Control))]
                } else {
                    seq![InputAction::ControlScroll(s)]
                },
                PointerDeviceEvent::Other => Seq::<InputAction>::empty(),
            }
        },
{
    let mut out: Vec<InputAction> = Vec::new();
    if !active_mouse(conn) || state.exiting {
        return out;
    }
    if let Platform::Windows = state.platform {
        if let PointerDeviceEvent::Scale(s) = *evt {
            if s == 0 {
                out.push(InputAction::KeyUp(crate::keys::Key::Symbol(ControlKey::Control)));
            } else {
                out.push(InputAction::ControlScroll(s));
            }
        }
    }
    out
}

} // verus!
