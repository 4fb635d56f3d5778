use vstd::prelude::*;
use vstd::string::StrSliceExecFns;

use crate::action::{InputAction, Platform};
use crate::keys::{
    char_from_code, char_of, char_value_to_key, is_scalar_value, key_map, spec_key_map, ControlKey, Key,
    LiveKeys,
};
use crate::ledger::{KeysDown, RawKey};
use crate::lock::{
    close_guard, close_lock_guard, is_numpad_navigation_key, mac_caps_guard, numpad_navigation_key,
    open_guard, open_lock_guard, open_mac_caps_guard, LockGuard,
};
use crate::mouse::{flag_actions, push_flags};
use crate::reconcile::{
    fix_modifiers, fix_modifiers_from, key_downs, key_ups, live_after_release, modifiers_to_press,
    press_modifiers, release_keys,
};
use crate::state::InputState;

verus! {

/// How a peer describes a keystroke.
#[derive(Clone, Copy, Debug, PartialEq, Eq, Structural)]
pub enum KeyboardMode {
    /// Symbolic keys and characters.
    Legacy,
    /// Raw platform codes, for peers sharing the host's physical layout.
    Mapped,
    /// Text to produce, whatever the layouts.
    Translate,
}

#[derive(Clone, Debug)]
pub enum KeyPayload {
    ControlKey(ControlKey),
    /// A character code (legacy mode) or a raw key code (other modes).
    Chr(u32),
    /// A unicode code point to type.
    Unicode(u32),
    /// A text to type.
    Text(String),
    /// A hotkey code: virtual key in the high half, unicode unit in the low.
    Hotkey(u32),
}

#[derive(Clone, Debug)]
pub struct KeyEvent {
    pub mode: KeyboardMode,
    pub down: bool,
    pub payload: Option<KeyPayload>,
    pub modifiers: Vec<ControlKey>,
}

/// Whether the event uses legacy mode.
pub fn is_legacy_mode(evt: &KeyEvent) -> (r: bool)
    ensures
        r == (evt.mode == KeyboardMode::Legacy),
{
    evt.mode == KeyboardMode::Legacy
}

/// Whether the event names Return or the numpad Enter key.
pub fn is_enter(evt: &KeyEvent) -> (r: bool)
    ensures
        r == (evt.payload matches Some(KeyPayload::ControlKey(ck)) && (ck == ControlKey::Return || ck
            == ControlKey::NumpadEnter)),
{
    match &evt.payload {
        Some(KeyPayload::ControlKey(ck)) => *ck == ControlKey::Return || *ck == ControlKey::NumpadEnter,
        _ => false,
    }
}

/// Remembers whether the last key event was in legacy mode (macOS): the
/// backend's persistent flags are honoured for legacy events only. Returns
/// the backend call that says so.
pub fn set_last_legacy_mode(state: &mut InputState, legacy: bool) -> (r: InputAction)
    ensures
        r == InputAction::SetIgnoreFlags(!legacy),
        final(state).last_legacy_mode == legacy,
        final(state).ledger == old(state).ledger,
        final(state).platform == old(state).platform,
        final(state).exiting == old(state).exiting,
        final(state).sys_cursor == old(state).sys_cursor,
        final(state).peer_input == old(state).peer_input,
        final(state).capslock_down == old(state).capslock_down,
        final(state).recording == old(state).recording,
        final(state).lock_resync == old(state).lock_resync,
{
    state.last_legacy_mode = legacy;
    InputAction::SetIgnoreFlags(!legacy)
}

/// Whether the backend ignores its persistent flags (macOS): after a
/// non-legacy key event.
pub fn enigo_ignore_flags(state: &InputState) -> (r: bool)
    ensures
        r == !state.last_legacy_mode,
{
    !state.last_legacy_mode
}

/// The event's key code: its `Chr` payload, else 0.
pub open spec fn payload_chr(evt: KeyEvent) -> u32 {
    match evt.payload {
        Some(KeyPayload::Chr(c)) => c,
        _ => 0,
    }
}

/// Keys whose press opens no lock-key guard, on every platform, so that a
/// lone tap of a modifier is not disturbed by lock-key clicks: Shift,
/// Control and Alt (either side), Meta, Tab and Return.
pub open spec fn skip_led_sync_control_key(ck: ControlKey) -> bool {
    ck == ControlKey::Control || ck == ControlKey::RControl || ck == ControlKey::Meta || ck
        == ControlKey::Shift || ck == ControlKey::RShift || ck == ControlKey::Alt || ck == ControlKey::RAlt
        || ck == ControlKey::Tab || ck == ControlKey::Return
}

fn skip_led_sync_key(ck: ControlKey) -> (r: bool)
    ensures
        r == skip_led_sync_control_key(ck),
{
    match ck {
        ControlKey::Control | ControlKey::RControl | ControlKey::Meta | ControlKey::Shift
        | ControlKey::RShift | ControlKey::Alt | ControlKey::RAlt | ControlKey::Tab | ControlKey::Return => true,
        _ => false,
    }
}

/// The numeric keypad's digit keys and its Enter key.
pub open spec fn is_numpad_control_key(ck: ControlKey) -> bool {
    ck == ControlKey::Numpad0 || ck == ControlKey::Numpad1 || ck == ControlKey::Numpad2 || ck
        == ControlKey::Numpad3 || ck == ControlKey::Numpad4 || ck == ControlKey::Numpad5 || ck
        == ControlKey::Numpad6 || ck == ControlKey::Numpad7 || ck == ControlKey::Numpad8 || ck
        == ControlKey::Numpad9 || ck == ControlKey::NumpadEnter
}

fn numpad_control_key(ck: ControlKey) -> (r: bool)
    ensures
        r == is_numpad_control_key(ck),
{
    match ck {
        ControlKey::Numpad0 | ControlKey::Numpad1 | ControlKey::Numpad2 | ControlKey::Numpad3
        | ControlKey::Numpad4 | ControlKey::Numpad5 | ControlKey::Numpad6 | ControlKey::Numpad7
        | ControlKey::Numpad8 | ControlKey::Numpad9 | ControlKey::NumpadEnter => true,
        _ => false,
    }
}

/// Raw codes of the keys that open no lock-key guard: left and right
/// Control, Meta and Shift, Alt, AltGr, Tab and Return (Windows scan codes,
/// macOS virtual key codes, X11 key codes).
pub open spec fn skip_led_sync_raw(platform: Platform, code: u32) -> bool {
    if platform == Platform::Windows {
        let c = code & 0xFFFF;
        c == 0x1D || c == 0xE01D || c == 0xE05B || c == 0xE05C || c == 0x2A || c == 0x36 || c == 0x38
            || c == 0xE038 || c == 0x0F || c == 0x1C
    } else if platform == Platform::MacOs {
        code == 0x3B || code == 0x3E || code == 0x37 || code == 0x36 || code == 0x38 || code == 0x3C
            || code == 0x3A || code == 0x3D || code == 0x30 || code == 0x24
    } else {
        code == 37 || code == 105 || code == 133 || code == 134 || code == 50 || code == 62 || code
            == 64 || code == 108 || code == 23 || code == 36
    }
}

fn skip_led_sync_raw_key(platform: Platform, code: u32) -> (r: bool)
    ensures
        r == skip_led_sync_raw(platform, code),
{
    match platform {
        Platform::Windows => {
            let c = code & 0xFFFF;
            c == 0x1D || c == 0xE01D || c == 0xE05B || c == 0xE05C || c == 0x2A || c == 0x36 || c == 0x38
                || c == 0xE038 || c == 0x0F || c == 0x1C
        },
        Platform::MacOs => code == 0x3B || code == 0x3E || code == 0x37 || code == 0x36 || code == 0x38
            || code == 0x3C || code == 0x3A || code == 0x3D || code == 0x30 || code == 0x24,
        _ => code == 37 || code == 105 || code == 133 || code == 134 || code == 50 || code == 62
            || code == 64 || code == 108 || code == 23 || code == 36,
    }
}

/// Raw codes of the numeric keypad: digits, decimal point and the four
/// operators (Windows scan codes, X11 key codes; none on macOS).
pub open spec fn is_numpad_raw(platform: Platform, code: u32) -> bool {
    if platform == Platform::Windows {
        let c = code & 0xFFFF;
        (0x47 <= c && c <= 0x53) || c == 0x37 || c == 0xE035
    } else if platform == Platform::MacOs {
        false
    } else {
        (79 <= code && code <= 91) || code == 63 || code == 106
    }
}

fn numpad_raw_key(platform: Platform, code: u32) -> (r: bool)
    ensures
        r == is_numpad_raw(platform, code),
{
    match platform {
        Platform::Windows => {
            let c = code & 0xFFFF;
            (0x47 <= c && c <= 0x53) || c == 0x37 || c == 0xE035
        },
        Platform::MacOs => false,
        _ => (79 <= code && code <= 91) || code == 63 || code == 106,
    }
}

/// Whether the event's key is numpad-relevant, which lets a guard converge
/// Num Lock (symbolic numpad keys off macOS, raw keypad codes outside
/// legacy mode).
pub open spec fn guard_numpad(platform: Platform, evt: KeyEvent) -> bool {
    match evt.payload {
        Some(KeyPayload::ControlKey(ck)) => platform != Platform::MacOs && is_numpad_control_key(ck),
        Some(KeyPayload::Chr(code)) => evt.mode != KeyboardMode::Legacy && is_numpad_raw(platform, code),
        _ => false,
    }
}

/// Whether the event opens a lock-key guard of its own accord: text and
/// characters do, symbolic and raw keys do unless they are benign (see
/// `skip_led_sync_control_key`, `skip_led_sync_raw`), hotkeys do not.
pub open spec fn opens_guard(platform: Platform, evt: KeyEvent) -> bool {
    match evt.payload {
        Some(KeyPayload::Unicode(_)) | Some(KeyPayload::Text(_)) => true,
        Some(KeyPayload::ControlKey(ck)) => !skip_led_sync_control_key(ck),
        Some(KeyPayload::Chr(code)) => evt.mode == KeyboardMode::Legacy || !skip_led_sync_raw(platform, code),
        _ => false,
    }
}

/// Whether a guard is opened for the event, and if so whether the key is
/// numpad-relevant. After a session reset (`resync`) every event opens one.
pub open spec fn guard_for(platform: Platform, evt: KeyEvent, resync: bool) -> Option<bool> {
    if resync || opens_guard(platform, evt) {
        Some(guard_numpad(platform, evt))
    } else {
        None
    }
}

fn guard_kind(platform: Platform, evt: &KeyEvent, resync: bool) -> (r: Option<bool>)
    ensures
        r == guard_for(platform, *evt, resync),
{
    let opens = match &evt.payload {
        Some(KeyPayload::Unicode(_)) | Some(KeyPayload::Text(_)) => true,
        Some(KeyPayload::ControlKey(ck)) => !skip_led_sync_key(*ck),
        Some(KeyPayload::Chr(code)) => evt.mode == KeyboardMode::Legacy || !skip_led_sync_raw_key(platform, *code),
        _ => false,
    };
    if !(resync || opens) {
        return None;
    }
    let numpad = match &evt.payload {
        Some(KeyPayload::ControlKey(ck)) => platform != Platform::MacOs && numpad_control_key(*ck),
        Some(KeyPayload::Chr(code)) => evt.mode != KeyboardMode::Legacy && numpad_raw_key(platform, *code),
        _ => false,
    };
    Some(numpad)
}

/// A legacy navigation key, which yields numpad values while Num Lock is on.
pub open spec fn should_disable_numlock(evt: KeyEvent) -> bool {
    evt.mode == KeyboardMode::Legacy && match evt.payload {
        Some(KeyPayload::ControlKey(ck)) => is_numpad_navigation_key(ck),
        _ => false,
    }
}

fn disable_numlock(evt: &KeyEvent) -> (r: bool)
    ensures
        r == should_disable_numlock(*evt),
{
    if evt.mode != KeyboardMode::Legacy {
        return false;
    }
    match &evt.payload {
        Some(KeyPayload::ControlKey(ck)) => numpad_navigation_key(*ck),
        _ => false,
    }
}

/// The raw key of a position code in the platform's code space.
pub open spec fn raw_position_key(platform: Platform, code: u32) -> RawKey {
    if platform == Platform::Windows {
        RawKey::ScanCode(code)
    } else if platform == Platform::MacOs {
        RawKey::MacVirtualKeycode(code)
    } else {
        RawKey::LinuxXorgKeycode(code)
    }
}

fn position_key(platform: Platform, code: u32) -> (r: RawKey)
    ensures
        r == raw_position_key(platform, code),
{
    match platform {
        Platform::Windows => RawKey::ScanCode(code),
        Platform::MacOs => RawKey::MacVirtualKeycode(code),
        _ => RawKey::LinuxXorgKeycode(code),
    }
}

/// The text payload's characters, each typed as text.
pub open spec fn type_char(c: char) -> InputAction {
    InputAction::TypeChar(c)
}

/// Each character of `s` typed as text, in order.
pub open spec fn type_chars(s: Seq<char>) -> Seq<InputAction> {
    Seq::new(s.len(), |i: int| type_char(s[i]))
}

fn push_type_chars(s: &String, out: &mut Vec<InputAction>)
    ensures
        final(out)@ == old(out)@ + type_chars(s@),
{
    let t = s.as_str();
    let n = t.unicode_len();
    let ghost out0 = out@;
    assert(out@ =~= out0 + type_chars(s@.subrange(0, 0)));
    let mut i: usize = 0;
    while i < n
        invariant
            n == s@.len(),
            t@ == s@,
            0 <= i <= n,
            out@ == out0 + type_chars(s@.subrange(0, i as int)),
        decreases n - i,
    {
        let c = t.get_char(i);
        out.push(InputAction::TypeChar(c));
        assert(type_chars(s@.subrange(0, i + 1)) =~= type_chars(s@.subrange(0, i as int)) + seq![
            InputAction::TypeChar(c),
        ]);
        i = i + 1;
    }
    assert(s@.subrange(0, n as int) =~= s@);
}

/// The primary action of a legacy event, after modifier synchronisation.
pub open spec fn legacy_key_actions(platform: Platform, evt: KeyEvent, live: LiveKeys) -> (
    Seq<InputAction>,
    LiveKeys,
) {
    match evt.payload {
        Some(KeyPayload::ControlKey(ck)) => if ck == ControlKey::CtrlAltDel {
            (
                if platform == Platform::Windows {
                    seq![InputAction::SendSas]
                } else {
                    Seq::empty()
                },
                live,
            )
        } else if ck == ControlKey::LockScreen {
            (seq![InputAction::LockScreen], live)
        } else {
            match spec_key_map(ck) {
                Some(k) => (
                    seq![if evt.down { InputAction::KeyDown(k) } else { InputAction::KeyUp(k) }],
                    live.after_key(k, evt.down),
                ),
                None => (Seq::empty(), live),
            }
        },
        Some(KeyPayload::Chr(c)) => if !evt.down {
            (seq![InputAction::KeyUp(Key::Layout(char_of(c)))], live)
        } else if is_scalar_value(c) {
            (
                seq![
                    InputAction::KeyDownOrType {
                        key: Key::Layout(char_of(c)),
                        chr: char_of(c),
                        upper: live.modifier_down(ControlKey::Shift) || live.is_down(ControlKey::CapsLock),
                    },
                ],
                live,
            )
        } else {
            (seq![InputAction::KeyDown(Key::Layout('\0'))], live)
        },
        Some(KeyPayload::Unicode(c)) => (
            if is_scalar_value(c) {
                seq![InputAction::TypeChar(char_of(c))]
            } else {
                Seq::empty()
            },
            live,
        ),
        Some(KeyPayload::Text(s)) => (type_chars(s@), live),
        _ => (Seq::empty(), live),
    }
}

/// The key being processed, which the reconciler leaves alone.
pub open spec fn excluded_key(evt: KeyEvent) -> Option<ControlKey> {
    match evt.payload {
        Some(KeyPayload::ControlKey(ck)) => Some(ck),
        _ => None,
    }
}

/// Legacy mode: on macOS the declared modifiers become flags; elsewhere, on
/// a press, stale modifiers are released, missing declared ones pressed for
/// the event's duration, the key acted on, the pressed ones released.
pub open spec fn legacy_plan(platform: Platform, evt: KeyEvent, live: LiveKeys) -> (Seq<InputAction>, LiveKeys) {
    let declared = evt.modifiers@;
    if platform == Platform::MacOs {
        let fixed = if evt.down {
            fix_modifiers_from(platform, declared, excluded_key(evt), live, 0)
        } else {
            (Seq::empty(), live)
        };
        let body = legacy_key_actions(platform, evt, fixed.1);
        (flag_actions(declared) + fixed.0 + body.0, body.1)
    } else if evt.down {
        let fixed = fix_modifiers_from(platform, declared, excluded_key(evt), live, 0);
        let pressed = modifiers_to_press(declared, fixed.1, 0);
        let body = legacy_key_actions(platform, evt, pressed.1);
        (fixed.0 + key_downs(pressed.0) + body.0 + key_ups(pressed.0), live_after_release(body.1, pressed.0))
    } else {
        legacy_key_actions(platform, evt, live)
    }
}

/// The ledger after a legacy event: symbolic keys (but the two function
/// ids) and characters are recorded as pressed or released.
pub open spec fn legacy_ledger(evt: KeyEvent, m: Map<KeysDown, u64>, now: u64) -> Map<KeysDown, u64> {
    match evt.payload {
        Some(KeyPayload::ControlKey(ck)) => if ck == ControlKey::CtrlAltDel || ck == ControlKey::LockScreen {
            m
        } else if evt.down {
            m.insert(KeysDown::Control(ck), now)
        } else {
            m.remove(KeysDown::Control(ck))
        },
        Some(KeyPayload::Chr(c)) => if evt.down {
            m.insert(KeysDown::Chr(c), now)
        } else {
            m.remove(KeysDown::Chr(c))
        },
        _ => m,
    }
}

fn push_legacy_key(platform: Platform, evt: &KeyEvent, live: &mut LiveKeys, out: &mut Vec<InputAction>)
    ensures
        final(out)@ == old(out)@ + legacy_key_actions(platform, *evt, *old(live)).0,
        *final(live) == legacy_key_actions(platform, *evt, *old(live)).1,
{
    let ghost out0 = out@;
    match &evt.payload {
        Some(KeyPayload::ControlKey(ck)) => {
            let ck = *ck;
            if ck == ControlKey::CtrlAltDel {
                if platform == Platform::Windows {
                    out.push(InputAction::SendSas);
                }
            } else if ck == ControlKey::LockScreen {
                out.push(InputAction::LockScreen);
            } else if let Some(k) = key_map(ck) {
                if evt.down {
                    out.push(InputAction::KeyDown(k));
                } else {
                    out.push(InputAction::KeyUp(k));
                }
                live.note_key(k, evt.down);
            }
        },
        Some(KeyPayload::Chr(c)) => {
            let c = *c;
            if !evt.down {
                out.push(InputAction::KeyUp(char_value_to_key(c)));
            } else {
                match char_from_code(c) {
                    Some(ch) => {
                        let upper = live.modifier_state(ControlKey::Shift) || live.key_down(ControlKey::CapsLock);
                        out.push(InputAction::KeyDownOrType { key: Key::Layout(ch), chr: ch, upper });
                    },
                    None => out.push(InputAction::KeyDown(Key::Layout('\0'))),
                }
            }
        },
        Some(KeyPayload::Unicode(c)) => {
            if let Some(ch) = char_from_code(*c) {
                out.push(InputAction::TypeChar(ch));
            }
        },
        Some(KeyPayload::Text(s)) => push_type_chars(s, out),
        _ => {},
    }
    assert(out@ =~= out0 + legacy_key_actions(platform, *evt, *old(live)).0);
}

fn legacy_keyboard_mode(
    state: &mut InputState,
    evt: &KeyEvent,
    live: &mut LiveKeys,
    now: u64,
    out: &mut Vec<InputAction>,
)
    requires
        old(state).wf(),
    ensures
        final(out)@ == old(out)@ + legacy_plan(old(state).platform, *evt, *old(live)).0,
        *final(live) == legacy_plan(old(state).platform, *evt, *old(live)).1,
        final(state).wf(),
        final(state).ledger@ == legacy_ledger(*evt, old(state).ledger@, now),
        final(state).platform == old(state).platform,
        final(state).exiting == old(state).exiting,
        final(state).sys_cursor == old(state).sys_cursor,
        final(state).peer_input == old(state).peer_input,
        final(state).last_legacy_mode == old(state).last_legacy_mode,
        final(state).capslock_down == old(state).capslock_down,
        final(state).recording == old(state).recording,
        final(state).lock_resync == old(state).lock_resync,
{
    let platform = state.platform;
    let ghost out0 = out@;
    let excluded = match &evt.payload {
        Some(KeyPayload::ControlKey(ck)) => Some(*ck),
        _ => None,
    };
    if platform == Platform::MacOs {
        push_flags(&evt.modifiers, out);
        if evt.down {
            fix_modifiers(platform, &evt.modifiers, excluded, live, out);
        }
        push_legacy_key(platform, evt, live, out);
        assert(out@ =~= out0 + legacy_plan(platform, *evt, *old(live)).0);
    } else if evt.down {
        fix_modifiers(platform, &evt.modifiers, excluded, live, out);
        let pressed = press_modifiers(&evt.modifiers, live, out);
        push_legacy_key(platform, evt, live, out);
        release_keys(&pressed, live, out);
        assert(out@ =~= out0 + legacy_plan(platform, *evt, *old(live)).0);
    } else {
        push_legacy_key(platform, evt, live, out);
    }
    match &evt.payload {
        Some(KeyPayload::ControlKey(ck)) => {
            if *ck != ControlKey::CtrlAltDel && *ck != ControlKey::LockScreen {
                state.ledger.record_pressed_key(KeysDown::Control(*ck), evt.down, now);
            }
        },
        Some(KeyPayload::Chr(c)) => {
            state.ledger.record_pressed_key(KeysDown::Chr(*c), evt.down, now);
        },
        _ => {},
    }
}

/// Map mode: under Wayland the code goes to the backend as a raw key id (not
/// recorded); elsewhere it is simulated as a position code of the platform
/// and recorded.
pub open spec fn map_plan(platform: Platform, evt: KeyEvent) -> Seq<InputAction> {
    let code = payload_chr(evt);
    if platform == Platform::LinuxUinput || platform == Platform::LinuxRdp {
        seq![
            if evt.down {
                InputAction::KeyDown(Key::Raw(code as u16))
            } else {
                InputAction::KeyUp(Key::Raw(code as u16))
            },
        ]
    } else {
        seq![InputAction::RawKey { raw: raw_position_key(platform, code), down: evt.down }]
    }
}

/// The ledger after a map-mode event: raw codes are recorded, except under Wayland.
pub open spec fn map_ledger(platform: Platform, evt: KeyEvent, m: Map<KeysDown, u64>, now: u64) -> Map<
    KeysDown,
    u64,
> {
    if platform == Platform::LinuxUinput || platform == Platform::LinuxRdp {
        m
    } else {
        let k = KeysDown::Raw(raw_position_key(platform, payload_chr(evt)));
        if evt.down {
            m.insert(k, now)
        } else {
            m.remove(k)
        }
    }
}

fn map_keyboard_mode(state: &mut InputState, evt: &KeyEvent, now: u64, out: &mut Vec<InputAction>)
    requires
        old(state).wf(),
    ensures
        final(out)@ == old(out)@ + map_plan(old(state).platform, *evt),
        final(state).wf(),
        final(state).ledger@ == map_ledger(old(state).platform, *evt, old(state).ledger@, now),
        final(state).platform == old(state).platform,
        final(state).exiting == old(state).exiting,
        final(state).sys_cursor == old(state).sys_cursor,
        final(state).peer_input == old(state).peer_input,
        final(state).last_legacy_mode == old(state).last_legacy_mode,
        final(state).capslock_down == old(state).capslock_down,
        final(state).recording == old(state).recording,
        final(state).lock_resync == old(state).lock_resync,
{
    let code = payload_code(evt);
    let platform = state.platform;
    match platform {
        Platform::LinuxUinput | Platform::LinuxRdp => {
            if evt.down {
                out.push(InputAction::KeyDown(Key::Raw(code as u16)));
            } else {
                out.push(InputAction::KeyUp(Key::Raw(code as u16)));
            }
        },
        _ => {
            let raw = position_key(platform, code);
            state.ledger.record_pressed_key(KeysDown::Raw(raw), evt.down, now);
            out.push(InputAction::RawKey { raw, down: evt.down });
        },
    }
    assert(out@ =~= old(out)@ + map_plan(platform, *evt));
}

fn payload_code(evt: &KeyEvent) -> (r: u32)
    ensures
        r == payload_chr(*evt),
{
    match &evt.payload {
        Some(KeyPayload::Chr(c)) => *c,
        _ => 0,
    }
}

/// The raw key a translate-mode code names: on Windows a code with a high
/// half is a virtual key, else a scan code.
pub open spec fn translate_raw_key(platform: Platform, code: u32) -> RawKey {
    if platform == Platform::Windows && (code >> 16) != 0 {
        RawKey::WinVirtualKeycode(code >> 16)
    } else {
        raw_position_key(platform, code)
    }
}

/// Whether a hotkey modifier is held (Windows): releasing Shift would break it.
pub open spec fn hotkey_modifiers_down(platform: Platform, live: LiveKeys) -> bool {
    platform == Platform::Windows && (live.is_down(ControlKey::Control) || live.is_down(ControlKey::RControl)
        || live.is_down(ControlKey::Alt) || live.is_down(ControlKey::RAlt) || live.is_down(ControlKey::Meta)
        || live.is_down(ControlKey::RWin))
}

/// How translate mode injects one character of a text.
pub open spec fn translate_char(platform: Platform, hotkey: bool, c: char) -> InputAction {
    if platform == Platform::Windows {
        if hotkey {
            InputAction::HotkeyChar(c)
        } else {
            InputAction::UnicodeChar(c)
        }
    } else {
        InputAction::KeyClick(Key::Layout(c))
    }
}

/// The Shift releases before a translated text (unless a hotkey is held).
pub open spec fn shift_release(platform: Platform, live: LiveKeys) -> (Seq<InputAction>, LiveKeys) {
    if hotkey_modifiers_down(platform, live) {
        (Seq::empty(), live)
    } else {
        let a1 = if live.modifier_down(ControlKey::Shift) {
            seq![InputAction::ReleaseShift { right: false }]
        } else {
            Seq::empty()
        };
        let l1 = if live.modifier_down(ControlKey::Shift) {
            live.with_key(ControlKey::Shift, false)
        } else {
            live
        };
        let a2 = if l1.modifier_down(ControlKey::RShift) {
            seq![InputAction::ReleaseShift { right: true }]
        } else {
            Seq::empty()
        };
        let l2 = if l1.modifier_down(ControlKey::RShift) {
            l1.with_key(ControlKey::RShift, false)
        } else {
            l1
        };
        (a1 + a2, l2)
    }
}

/// Translate mode: text is typed (on Windows and Linux after releasing
/// Shift, see `shift_release`); a code is simulated as a raw key and
/// recorded; a hotkey code is replayed on Windows.
pub open spec fn translate_plan(platform: Platform, evt: KeyEvent, live: LiveKeys) -> (
    Seq<InputAction>,
    LiveKeys,
) {
    match evt.payload {
        Some(KeyPayload::Text(s)) => if platform == Platform::MacOs {
            (type_chars(s@), live)
        } else {
            let hotkey = hotkey_modifiers_down(platform, live);
            let rel = shift_release(platform, live);
            (rel.0 + s@.map_values(|c: char| translate_char(platform, hotkey, c)), rel.1)
        },
        Some(KeyPayload::Chr(code)) => (
            seq![InputAction::RawKey { raw: translate_raw_key(platform, code), down: evt.down }],
            live,
        ),
        Some(KeyPayload::Hotkey(code)) => (
            if platform == Platform::Windows {
                seq![
                    InputAction::HotkeyCode {
                        unicode: (code & 0xFFFF) as u16,
                        vk: ((code >> 16) & 0xFFFF) as u16,
                        down: evt.down,
                    },
                ]
            } else {
                Seq::empty()
            },
            live,
        ),
        _ => (Seq::empty(), live),
    }
}

/// The ledger after a translate-mode event: raw codes are recorded.
pub open spec fn translate_ledger(platform: Platform, evt: KeyEvent, m: Map<KeysDown, u64>, now: u64) -> Map<
    KeysDown,
    u64,
> {
    match evt.payload {
        Some(KeyPayload::Chr(code)) => {
            let k = KeysDown::Raw(translate_raw_key(platform, code));
            if evt.down {
                m.insert(k, now)
            } else {
                m.remove(k)
            }
        },
        _ => m,
    }
}

fn push_translated_text(platform: Platform, hotkey: bool, s: &String, out: &mut Vec<InputAction>)
    ensures
        final(out)@ == old(out)@ + s@.map_values(|c: char| translate_char(platform, hotkey, c)),
{
    let t = s.as_str();
    let n = t.unicode_len();
    let ghost out0 = out@;
    let mut i: usize = 0;
    while i < n
        invariant
            n == s@.len(),
            t@ == s@,
            0 <= i <= n,
            out@ == out0 + s@.subrange(0, i as int).map_values(|c: char| translate_char(platform, hotkey, c)),
        decreases n - i,
    {
        let c = t.get_char(i);
        let a = match platform {
            Platform::Windows => if hotkey {
                InputAction::HotkeyChar(c)
            } else {
                InputAction::UnicodeChar(c)
            },
            _ => InputAction::KeyClick(Key::Layout(c)),
        };
        out.push(a);
        assert(s@.subrange(0, i + 1).map_values(|c: char| translate_char(platform, hotkey, c)) =~= s@.subrange(
            0,
            i as int,
        ).map_values(|c: char| translate_char(platform, hotkey, c)) + seq![a]);
        i = i + 1;
    }
    assert(s@.subrange(0, n as int) =~= s@);
}

fn translate_keyboard_mode(
    state: &mut InputState,
    evt: &KeyEvent,
    live: &mut LiveKeys,
    now: u64,
    out: &mut Vec<InputAction>,
)
    requires
        old(state).wf(),
    ensures
        final(out)@ == old(out)@ + translate_plan(old(state).platform, *evt, *old(live)).0,
        *final(live) == translate_plan(old(state).platform, *evt, *old(live)).1,
        final(state).wf(),
        final(state).ledger@ == translate_ledger(old(state).platform, *evt, old(state).ledger@, now),
        final(state).platform == old(state).platform,
        final(state).exiting == old(state).exiting,
        final(state).sys_cursor == old(state).sys_cursor,
        final(state).peer_input == old(state).peer_input,
        final(state).last_legacy_mode == old(state).last_legacy_mode,
        final(state).capslock_down == old(state).capslock_down,
        final(state).recording == old(state).recording,
        final(state).lock_resync == old(state).lock_resync,
{
    let platform = state.platform;
    let ghost out0 = out@;
    match &evt.payload {
        Some(KeyPayload::Text(s)) => {
            if platform == Platform::MacOs {
                push_type_chars(s, out);
            } else {
                let hotkey = platform == Platform::Windows && (live.key_down(ControlKey::Control)
                    || live.key_down(ControlKey::RControl) || live.key_down(ControlKey::Alt) || live.key_down(
                    ControlKey::RAlt,
                ) || live.key_down(ControlKey::Meta) || live.key_down(ControlKey::RWin));
                if !hotkey {
                    if live.modifier_state(ControlKey::Shift) {
                        out.push(InputAction::ReleaseShift { right: false });
                        live.set_key(ControlKey::Shift, false);
                    }
                    if live.modifier_state(ControlKey::RShift) {
                        out.push(InputAction::ReleaseShift { right: true });
                        live.set_key(ControlKey::RShift, false);
                    }
                }
                let ghost mid = out@;
                assert(mid =~= out0 + shift_release(platform, *old(live)).0);
                push_translated_text(platform, hotkey, s, out);
                assert(out@ =~= out0 + translate_plan(platform, *evt, *old(live)).0);
            }
        },
        Some(KeyPayload::Chr(code)) => {
            let code = *code;
            let raw = if platform == Platform::Windows && (code >> 16) != 0 {
                RawKey::WinVirtualKeycode(code >> 16)
            } else {
                position_key(platform, code)
            };
            state.ledger.record_pressed_key(KeysDown::Raw(raw), evt.down, now);
            out.push(InputAction::RawKey { raw, down: evt.down });
            assert(out@ =~= out0 + translate_plan(platform, *evt, *old(live)).0);
        },
        Some(KeyPayload::Hotkey(code)) => {
            if platform == Platform::Windows {
                let code = *code;
                out.push(
                    InputAction::HotkeyCode {
                        unicode: (code & 0xFFFF) as u16,
                        vk: ((code >> 16) & 0xFFFF) as u16,
                        down: evt.down,
                    },
                );
            }
            assert(out@ =~= out0 + translate_plan(platform, *evt, *old(live)).0);
        },
        _ => {
            assert(out@ =~= out0 + translate_plan(platform, *evt, *old(live)).0);
        },
    }
}

/// The mode's own part of a key event's plan: on macOS the flag switch,
/// then the mode's actions. Returns the plan and the live state after.
pub open spec fn mode_plan(platform: Platform, evt: KeyEvent, live: LiveKeys) -> (Seq<InputAction>, LiveKeys) {
    let prefix = if platform == Platform::MacOs {
        seq![InputAction::SetIgnoreFlags(evt.mode != KeyboardMode::Legacy)]
    } else {
        Seq::empty()
    };
    let body: (Seq<InputAction>, LiveKeys) = if evt.mode == KeyboardMode::Mapped {
        (map_plan(platform, evt), live)
    } else if evt.mode == KeyboardMode::Translate {
        translate_plan(platform, evt, live)
    } else {
        legacy_plan(platform, evt, live)
    };
    (prefix + body.0, body.1)
}

/// The whole plan of one key event on the given state (past the exit
/// gate): where a guard is opened (see `guard_for`), its opening, the mode's
/// plan, its closing; else the mode's plan alone. Returns the plan, the live
/// state and the macOS Caps Lock hold after it.
pub open spec fn key_plan(platform: Platform, evt: KeyEvent, live: LiveKeys, capslock_down: bool, resync: bool) -> (
    Seq<InputAction>,
    LiveKeys,
    bool,
) {
    match guard_for(platform, evt, resync) {
        None => {
            let m = mode_plan(platform, evt, live);
            (m.0, m.1, capslock_down)
        },
        Some(numpad) => if platform == Platform::MacOs {
            let g = mac_caps_guard(evt.modifiers@, capslock_down);
            let m = mode_plan(platform, evt, live);
            (g.0 + m.0, m.1, g.1)
        } else {
            let o = open_guard(platform, evt.modifiers@, numpad, should_disable_numlock(evt), live);
            let m = mode_plan(platform, evt, o.1);
            let c = close_guard(platform, o.2, m.1);
            (o.0 + m.0 + c.0, c.1, capslock_down)
        },
    }
}

/// The ledger after one key event (see `legacy_ledger`, `map_ledger`,
/// `translate_ledger`).
pub open spec fn key_ledger(platform: Platform, evt: KeyEvent, m: Map<KeysDown, u64>, now: u64) -> Map<
    KeysDown,
    u64,
> {
    if evt.mode == KeyboardMode::Mapped {
        map_ledger(platform, evt, m, now)
    } else if evt.mode == KeyboardMode::Translate {
        translate_ledger(platform, evt, m, now)
    } else {
        legacy_ledger(evt, m, now)
    }
}

/// Runs the mode's part of a key event (see `mode_plan`) and records held
/// keys (see `key_ledger`).
fn dispatch_mode(state: &mut InputState, evt: &KeyEvent, live: &mut LiveKeys, now: u64, out: &mut Vec<InputAction>)
    requires
        old(state).wf(),
    ensures
        final(out)@ == old(out)@ + mode_plan(old(state).platform, *evt, *old(live)).0,
        *final(live) == mode_plan(old(state).platform, *evt, *old(live)).1,
        final(state).wf(),
        final(state).ledger@ == key_ledger(old(state).platform, *evt, old(state).ledger@, now),
        final(state).last_legacy_mode == if old(state).platform == Platform::MacOs {
            evt.mode == KeyboardMode::Legacy
        } else {
            old(state).last_legacy_mode
        },
        final(state).platform == old(state).platform,
        final(state).exiting == old(state).exiting,
        final(state).sys_cursor == old(state).sys_cursor,
        final(state).peer_input == old(state).peer_input,
        final(state).capslock_down == old(state).capslock_down,
        final(state).recording == old(state).recording,
        final(state).lock_resync == old(state).lock_resync,
{
    let ghost out0 = out@;
    if state.platform == Platform::MacOs {
        out.push(set_last_legacy_mode(state, is_legacy_mode(evt)));
    }
    match evt.mode {
        KeyboardMode::Mapped => map_keyboard_mode(state, evt, now, out),
        KeyboardMode::Translate => translate_keyboard_mode(state, evt, live, now, out),
        KeyboardMode::Legacy => legacy_keyboard_mode(state, evt, live, now, out),
    }
    assert(out@ =~= out0 + mode_plan(old(state).platform, *evt, *old(live)).0);
}

/// Dispatches one key event at `now` on its mode, inside a lock-key guard
/// (see `key_plan`), and records held keys (see `key_ledger`). A pending
/// re-convergence (`lock_resync`) makes this event open a guard and is then
/// cleared. Benign keys open no guard otherwise, so they add no lock action.
/// Nothing happens once the state is exiting.
pub fn handle_key(state: &mut InputState, evt: &KeyEvent, live: &mut LiveKeys, now: u64) -> (r: Vec<
    InputAction,
>)
    requires
        old(state).wf(),
    ensures
        final(state).wf(),
        old(state).exiting ==> r@ == Seq::<InputAction>::empty() && *final(live) == *old(live)
            && *final(state) == *old(state),
        !old(state).exiting ==> {
            let plan = key_plan(
                old(state).platform,
                *evt,
                *old(live),
                old(state).capslock_down,
                old(state).lock_resync,
            );
            &&& r@ == plan.0
            &&& *final(live) == plan.1
            &&& final(state).capslock_down == plan.2
            &&& final(state).ledger@ == key_ledger(old(state).platform, *evt, old(state).ledger@, now)
            &&& final(state).last_legacy_mode == if old(state).platform == Platform::MacOs {
                evt.mode == KeyboardMode::Legacy
            } else {
                old(state).last_legacy_mode
            }
            &&& final(state).platform == old(state).platform
            &&& final(state).exiting == old(state).exiting
            &&& final(state).sys_cursor == old(state).sys_cursor
            &&& final(state).peer_input == old(state).peer_input
            &&& final(state).recording == old(state).recording
            &&& !final(state).lock_resync
        },
        !old(state).exiting && !old(state).lock_resync && (evt.payload matches Some(KeyPayload::ControlKey(ck))
            && skip_led_sync_control_key(ck)) ==> {
            &&& r@ == mode_plan(old(state).platform, *evt, *old(live)).0
            &&& *final(live) == mode_plan(old(state).platform, *evt, *old(live)).1
            &&& final(state).capslock_down == old(state).capslock_down
        },
{
    let mut out: Vec<InputAction> = Vec::new();
    if state.exiting {
        return out;
    }
    let platform = state.platform;
    let mac = platform == Platform::MacOs;
    let g = guard_kind(platform, evt, state.lock_resync);
    state.lock_resync = false;
    let mut guard = LockGuard { caps_lock_changed: false, num_lock_changed: false };
    if let Some(numpad) = g {
        if mac {
            open_mac_caps_guard(&evt.modifiers, &mut state.capslock_down, &mut out);
        } else {
            let disable = disable_numlock(evt);
            guard = open_lock_guard(platform, &evt.modifiers, numpad, disable, live, &mut out);
        }
    }
    let ghost opened = out@;
    let ghost live1 = *live;
    dispatch_mode(state, evt, live, now, &mut out);
    assert(out@ == opened + mode_plan(platform, *evt, live1).0);
    if g.is_some() && !mac {
        close_lock_guard(platform, guard, live, &mut out);
    }
    assert(out@ =~= key_plan(platform, *evt, *old(live), old(state).capslock_down, old(state).lock_resync).0);
    out
}

} // verus!

verus! {

/// The backend call that forgets remapped key codes.
pub fn clear_remapped_keycode() -> (r: InputAction)
    ensures
        r == InputAction::ClearRemappedKeycodes,
{
    InputAction::ClearRemappedKeycodes
}

/// The character and modifiers of the lock-screen shortcut: Meta+L on
/// Linux, Meta+Control+Q on macOS.
pub open spec fn lock_shortcut(platform: Platform) -> (u32, Seq<ControlKey>) {
    if platform == Platform::MacOs {
        ('q' as u32, seq![ControlKey::Meta, ControlKey::Control])
    } else {
        ('l' as u32, seq![ControlKey::Meta])
    }
}

/// The plans of two key events in a row.
pub open spec fn two_key_plan(
    platform: Platform,
    first: KeyEvent,
    second: KeyEvent,
    live: LiveKeys,
    capslock_down: bool,
    resync: bool,
) -> (Seq<InputAction>, LiveKeys, bool) {
    let a = key_plan(platform, first, live, capslock_down, resync);
    let b = key_plan(platform, second, a.1, a.2, false);
    (a.0 + b.0, b.1, b.2)
}

fn lock_shortcut_event(platform: Platform, down: bool) -> (r: KeyEvent)
    ensures
        r.mode == KeyboardMode::Legacy,
        r.down == down,
        r.payload == Some(KeyPayload::Chr(lock_shortcut(platform).0)),
        r.modifiers@ == lock_shortcut(platform).1,
{
    let mut modifiers: Vec<ControlKey> = Vec::new();
    modifiers.push(ControlKey::Meta);
    let code: u32 = if platform == Platform::MacOs {
        modifiers.push(ControlKey::Control);
        'q' as u32
    } else {
        'l' as u32
    };
    assert(modifiers@ =~= lock_shortcut(platform).1);
    KeyEvent { mode: KeyboardMode::Legacy, down, payload: Some(KeyPayload::Chr(code)), modifiers }
}

/// Locks the screen. On Windows through the platform's call; elsewhere by
/// typing the lock shortcut (see `lock_shortcut`) as a legacy key press and
/// release through `handle_key`.
pub fn lock_screen(state: &mut InputState, live: &mut LiveKeys, now: u64) -> (r: Vec<InputAction>)
    requires
        old(state).wf(),
    ensures
        final(state).wf(),
        old(state).platform == Platform::Windows ==> r@ == seq![InputAction::PlatformLock] && *final(live)
            == *old(live) && *final(state) == *old(state),
        old(state).platform != Platform::Windows && old(state).exiting ==> r@ == Seq::<InputAction>::empty()
            && *final(live) == *old(live) && *final(state) == *old(state),
        old(state).platform != Platform::Windows && !old(state).exiting ==> exists|press: KeyEvent, release: KeyEvent|
            {
                &&& press.mode == KeyboardMode::Legacy && release.mode == KeyboardMode::Legacy
                &&& press.down && !release.down
                &&& press.payload == Some(KeyPayload::Chr(lock_shortcut(old(state).platform).0))
                &&& release.payload == press.payload
                &&& press.modifiers@ == lock_shortcut(old(state).platform).1
                &&& release.modifiers@ == lock_shortcut(old(state).platform).1
                &&& r@ == (#[trigger] two_key_plan(
                    old(state).platform,
                    press,
                    release,
                    *old(live),
                    old(state).capslock_down,
                    old(state).lock_resync,
                )).0
                &&& *final(live) == two_key_plan(
                    old(state).platform,
                    press,
                    release,
                    *old(live),
                    old(state).capslock_down,
                    old(state).lock_resync,
                ).1
                &&& final(state).capslock_down == two_key_plan(
                    old(state).platform,
                    press,
                    release,
                    *old(live),
                    old(state).capslock_down,
                    old(state).lock_resync,
                ).2
            },
{
    let platform = state.platform;
    if platform == Platform::Windows {
        let mut out: Vec<InputAction> = Vec::new();
        out.push(InputAction::PlatformLock);
        return out;
    }
    let ghost live0 = *live;
    let ghost caps0 = state.capslock_down;
    let ghost exiting0 = state.exiting;
    let ghost resync0 = state.lock_resync;
    let press = lock_shortcut_event(platform, true);
    let mut out = handle_key(state, &press, live, now);
    let release = lock_shortcut_event(platform, false);
    let mut tail = handle_key(state, &release, live, now);
    out.append(&mut tail);
    assert(!exiting0 ==> out@ == two_key_plan(platform, press, release, live0, caps0, resync0).0);
    out
}

} // verus!
