use input_service::{
    build_frame, fix_key_down_timeout, fix_key_down_timeout_at_exit, handle_key, handle_mouse, handle_pointer,
    is_enter, is_left_up, lock_screen, new_cursor, run_cursor, run_pos, run_window_focus, release_device_modifiers,
    fix_modifiers, ControlKey, CursorMessage, InputAction, InputState, Key, KeyEvent, KeyPayload, KeyboardMode,
    KeysDown, LiveKeys, MouseButton, MouseCursorSub, MouseEvent, PeerInput, Platform, PointerDeviceEvent, RawKey,
    StateCursor, StatePos, StateWindowFocus, SysCursorPos,
};

fn no_keys() -> LiveKeys {
    LiveKeys::released()
}

fn key_event(mode: KeyboardMode, down: bool, payload: KeyPayload, modifiers: Vec<ControlKey>) -> KeyEvent {
    KeyEvent { mode, down, payload: Some(payload), modifiers }
}

fn mouse(mask: i32, x: i32, y: i32, modifiers: Vec<ControlKey>) -> MouseEvent {
    MouseEvent { mask, x, y, modifiers }
}

fn state_with_cursor(platform: Platform, x: i32, y: i32) -> InputState {
    let mut st = InputState::new(platform);
    st.sys_cursor = SysCursorPos { sampled_at: Some(0), x, y };
    st
}

#[test]
fn move_translation_small_step_is_relative() {
    let mut st = state_with_cursor(Platform::LinuxX11, 100, 100);
    let mut live = no_keys();
    let plan = handle_mouse(&mut st, &mouse(0, 150, 120, vec![]), 3, &mut live, 500);
    assert_eq!(plan, vec![InputAction::MouseMoveRelative { dx: 50, dy: 20 }]);
    assert_eq!(st.peer_input, PeerInput { conn: 3, time: 500, x: 150, y: 120 });
}

#[test]
fn move_translation_large_step_is_absolute() {
    let mut st = state_with_cursor(Platform::LinuxX11, 100, 100);
    let mut live = no_keys();
    let plan = handle_mouse(&mut st, &mouse(0, 300, 100, vec![]), 3, &mut live, 500);
    assert_eq!(plan, vec![InputAction::MouseMoveTo { x: 300, y: 100 }]);
}

#[test]
fn move_translation_boundaries() {
    let mut live = no_keys();
    let mut st = state_with_cursor(Platform::Windows, 0, 0);
    assert_eq!(handle_mouse(&mut st, &mouse(0, 127, -127, vec![]), 1, &mut live, 0), vec![
        InputAction::MouseMoveRelative { dx: 127, dy: -127 }
    ]);
    assert_eq!(handle_mouse(&mut st, &mouse(0, -128, 5, vec![]), 1, &mut live, 0), vec![
        InputAction::MouseMoveTo { x: -128, y: 5 }
    ]);
    assert_eq!(handle_mouse(&mut st, &mouse(0, 40, 0, vec![]), 1, &mut live, 0), vec![]);
}

#[test]
fn move_from_unknown_position_is_absolute() {
    let mut st = InputState::new(Platform::LinuxX11);
    let mut live = no_keys();
    let plan = handle_mouse(&mut st, &mouse(0, 10, 10, vec![]), 1, &mut live, 0);
    assert_eq!(plan, vec![InputAction::MouseMoveTo { x: 10, y: 10 }]);
}

#[test]
fn shift_click_presses_and_releases_shift() {
    let mut st = InputState::new(Platform::LinuxX11);
    let mut live = no_keys();
    let plan = handle_mouse(&mut st, &mouse((1 << 3) | 1, 0, 0, vec![ControlKey::Shift]), 1, &mut live, 0);
    assert_eq!(plan, vec![
        InputAction::KeyDown(Key::Symbol(ControlKey::Shift)),
        InputAction::MouseDown(MouseButton::Left),
        InputAction::KeyUp(Key::Symbol(ControlKey::Shift)),
    ]);
    assert!(!live.shift);
}

#[test]
fn button_up_has_no_reconciliation() {
    let mut st = InputState::new(Platform::LinuxX11);
    let mut live = no_keys();
    live.control = true;
    let plan = handle_mouse(&mut st, &mouse((2 << 3) | 2, 0, 0, vec![]), 1, &mut live, 0);
    assert_eq!(plan, vec![InputAction::MouseUp(MouseButton::Right)]);
    assert!(live.control);
}

#[test]
fn wheel_scaling_per_platform() {
    let mut live = no_keys();
    let mut win = InputState::new(Platform::Windows);
    assert_eq!(handle_mouse(&mut win, &mouse(3, 0, 1, vec![]), 1, &mut live, 0), vec![
        InputAction::ScrollY { amount: 120, trackpad: false }
    ]);
    assert_eq!(handle_mouse(&mut win, &mouse(4, 0, 1, vec![]), 1, &mut live, 0), vec![
        InputAction::ScrollY { amount: 1, trackpad: false }
    ]);
    let mut linux = InputState::new(Platform::LinuxX11);
    assert_eq!(handle_mouse(&mut linux, &mouse(3, 2, 1, vec![]), 1, &mut live, 0), vec![
        InputAction::ScrollY { amount: -1, trackpad: false },
        InputAction::ScrollX { amount: -2, trackpad: false },
    ]);
    let mut mac = InputState::new(Platform::MacOs);
    assert_eq!(handle_mouse(&mut mac, &mouse(3, 0, 1, vec![ControlKey::Shift]), 1, &mut live, 0), vec![
        InputAction::SetIgnoreFlags(false),
        InputAction::ScrollX { amount: -1, trackpad: false },
    ]);
}

#[test]
fn left_up_mask() {
    assert!(is_left_up(&mouse((1 << 3) | 2, 0, 0, vec![])));
    assert!(!is_left_up(&mouse((1 << 3) | 1, 0, 0, vec![])));
    assert!(!is_left_up(&mouse((2 << 3) | 2, 0, 0, vec![])));
}

#[test]
fn pinch_on_windows_only() {
    let win = InputState::new(Platform::Windows);
    assert_eq!(handle_pointer(&win, &PointerDeviceEvent::Scale(3), 1), vec![InputAction::ControlScroll(3)]);
    assert_eq!(handle_pointer(&win, &PointerDeviceEvent::Scale(0), 1), vec![InputAction::KeyUp(Key::Symbol(
        ControlKey::Control
    ))]);
    let linux = InputState::new(Platform::LinuxX11);
    assert_eq!(handle_pointer(&linux, &PointerDeviceEvent::Scale(3), 1), vec![]);
}

#[test]
fn stale_control_released_once() {
    let mut live = no_keys();
    live.control = true;
    let mut out = Vec::new();
    fix_modifiers(Platform::LinuxX11, &vec![ControlKey::Shift], Some(ControlKey::Tab), &mut live, &mut out);
    assert_eq!(out, vec![InputAction::KeyUp(Key::Symbol(ControlKey::Control))]);
    assert!(!live.control);
}

#[test]
fn altgr_control_kept_on_windows() {
    let mut live = no_keys();
    live.control = true;
    live.right_alt = true;
    let mut out = Vec::new();
    fix_modifiers(Platform::Windows, &vec![ControlKey::Alt], None, &mut live, &mut out);
    assert_eq!(out, vec![]);
    let mut out2 = Vec::new();
    fix_modifiers(Platform::LinuxX11, &vec![ControlKey::Alt], None, &mut live, &mut out2);
    assert_eq!(out2, vec![InputAction::KeyUp(Key::Symbol(ControlKey::Control))]);
}

#[test]
fn legacy_character_types_upper_case_with_shift() {
    let mut st = InputState::new(Platform::LinuxX11);
    let mut live = no_keys();
    let down = key_event(KeyboardMode::Legacy, true, KeyPayload::Chr('a' as u32), vec![ControlKey::Shift]);
    let plan = handle_key(&mut st, &down, &mut live, 10);
    assert_eq!(plan, vec![
        InputAction::KeyDown(Key::Symbol(ControlKey::Shift)),
        InputAction::KeyDownOrType { key: Key::Layout('a'), chr: 'a', upper: true },
        InputAction::KeyUp(Key::Symbol(ControlKey::Shift)),
    ]);
    assert!(st.ledger.contains(KeysDown::Chr('a' as u32)));
    let up = key_event(KeyboardMode::Legacy, false, KeyPayload::Chr('a' as u32), vec![]);
    let plan = handle_key(&mut st, &up, &mut live, 20);
    assert_eq!(plan, vec![InputAction::KeyUp(Key::Layout('a'))]);
    assert!(!st.ledger.contains(KeysDown::Chr('a' as u32)));
}

#[test]
fn legacy_character_lower_case_without_shift() {
    let mut st = InputState::new(Platform::LinuxX11);
    let mut live = no_keys();
    let down = key_event(KeyboardMode::Legacy, true, KeyPayload::Chr('b' as u32), vec![]);
    assert_eq!(handle_key(&mut st, &down, &mut live, 10), vec![InputAction::KeyDownOrType {
        key: Key::Layout('b'),
        chr: 'b',
        upper: false
    }]);
}

#[test]
fn legacy_caps_lock_mismatch_is_corrected_and_restored() {
    let mut st = InputState::new(Platform::Windows);
    let mut live = no_keys();
    let down = key_event(KeyboardMode::Legacy, true, KeyPayload::Chr('c' as u32), vec![ControlKey::CapsLock]);
    let plan = handle_key(&mut st, &down, &mut live, 10);
    assert_eq!(plan, vec![
        InputAction::KeyClick(Key::Symbol(ControlKey::CapsLock)),
        InputAction::KeyDownOrType { key: Key::Layout('c'), chr: 'c', upper: true },
        InputAction::KeyClick(Key::Symbol(ControlKey::CapsLock)),
    ]);
    assert!(!live.caps_lock);
}

#[test]
fn uinput_lock_correction_polls_and_stays() {
    let mut st = InputState::new(Platform::LinuxUinput);
    let mut live = no_keys();
    let down = key_event(KeyboardMode::Legacy, true, KeyPayload::Unicode('x' as u32), vec![ControlKey::CapsLock]);
    let plan = handle_key(&mut st, &down, &mut live, 10);
    assert_eq!(plan, vec![
        InputAction::KeyClick(Key::Symbol(ControlKey::CapsLock)),
        InputAction::WaitLockState { lock: ControlKey::CapsLock, on: true },
        InputAction::TypeChar('x'),
    ]);
    assert!(live.caps_lock);
}

#[test]
fn numpad_key_converges_num_lock() {
    let mut st = InputState::new(Platform::LinuxX11);
    let mut live = no_keys();
    let down = key_event(KeyboardMode::Legacy, true, KeyPayload::ControlKey(ControlKey::Numpad5), vec![
        ControlKey::NumLock,
    ]);
    let plan = handle_key(&mut st, &down, &mut live, 10);
    assert_eq!(plan, vec![
        InputAction::KeyClick(Key::Symbol(ControlKey::NumLock)),
        InputAction::KeyDown(Key::Symbol(ControlKey::Numpad5)),
        InputAction::KeyClick(Key::Symbol(ControlKey::NumLock)),
    ]);
    assert!(st.ledger.contains(KeysDown::Control(ControlKey::Numpad5)));
}

#[test]
fn windows_navigation_key_switches_num_lock_off() {
    let mut st = InputState::new(Platform::Windows);
    let mut live = no_keys();
    live.num_lock = true;
    let down = key_event(KeyboardMode::Legacy, true, KeyPayload::ControlKey(ControlKey::Home), vec![]);
    let plan = handle_key(&mut st, &down, &mut live, 10);
    assert_eq!(plan, vec![
        InputAction::KeyClick(Key::Symbol(ControlKey::NumLock)),
        InputAction::KeyDown(Key::Symbol(ControlKey::Home)),
        InputAction::KeyClick(Key::Symbol(ControlKey::NumLock)),
    ]);
    assert!(live.num_lock);
}

#[test]
fn plain_modifier_opens_no_guard() {
    let mut st = InputState::new(Platform::LinuxX11);
    let mut live = no_keys();
    let down = key_event(KeyboardMode::Legacy, true, KeyPayload::ControlKey(ControlKey::Shift), vec![
        ControlKey::CapsLock,
    ]);
    let plan = handle_key(&mut st, &down, &mut live, 10);
    assert_eq!(plan, vec![InputAction::KeyDown(Key::Symbol(ControlKey::Shift))]);
}

#[test]
fn invalid_unicode_types_nothing() {
    let mut st = InputState::new(Platform::LinuxX11);
    let mut live = no_keys();
    let down = key_event(KeyboardMode::Legacy, true, KeyPayload::Unicode(0xD800), vec![]);
    assert_eq!(handle_key(&mut st, &down, &mut live, 10), vec![]);
    let ch = key_event(KeyboardMode::Legacy, true, KeyPayload::Chr(0x110000), vec![]);
    assert_eq!(handle_key(&mut st, &ch, &mut live, 10), vec![InputAction::KeyDown(Key::Layout('\0'))]);
}

#[test]
fn legacy_text_is_typed() {
    let mut st = InputState::new(Platform::LinuxX11);
    let mut live = no_keys();
    let evt = key_event(KeyboardMode::Legacy, true, KeyPayload::Text("hé".to_string()), vec![]);
    assert_eq!(handle_key(&mut st, &evt, &mut live, 10), vec![InputAction::TypeChar('h'), InputAction::TypeChar('é')]);
}

#[test]
fn translate_text_releases_shift_first() {
    let mut st = InputState::new(Platform::LinuxX11);
    let mut live = no_keys();
    live.shift = true;
    let evt = key_event(KeyboardMode::Translate, true, KeyPayload::Text("1".to_string()), vec![]);
    let plan = handle_key(&mut st, &evt, &mut live, 10);
    assert_eq!(plan, vec![InputAction::ReleaseShift { right: false }, InputAction::KeyClick(Key::Layout('1'))]);
}

#[test]
fn translate_text_keeps_shift_under_hotkey_on_windows() {
    let mut st = InputState::new(Platform::Windows);
    let mut live = no_keys();
    live.shift = true;
    live.control = true;
    let evt = key_event(KeyboardMode::Translate, true, KeyPayload::Text("a".to_string()), vec![]);
    assert_eq!(handle_key(&mut st, &evt, &mut live, 10), vec![InputAction::HotkeyChar('a')]);
    live.control = false;
    assert_eq!(handle_key(&mut st, &evt, &mut live, 10), vec![
        InputAction::ReleaseShift { right: false },
        InputAction::UnicodeChar('a'),
    ]);
}

#[test]
fn translate_code_on_windows_virtual_key() {
    let mut st = InputState::new(Platform::Windows);
    let mut live = no_keys();
    let evt = key_event(KeyboardMode::Translate, true, KeyPayload::Chr(0x41 << 16), vec![]);
    let plan = handle_key(&mut st, &evt, &mut live, 10);
    assert_eq!(plan, vec![InputAction::RawKey { raw: RawKey::WinVirtualKeycode(0x41), down: true }]);
    assert!(st.ledger.contains(KeysDown::Raw(RawKey::WinVirtualKeycode(0x41))));
    let hot = key_event(KeyboardMode::Translate, false, KeyPayload::Hotkey(0x0041_0061), vec![]);
    assert_eq!(handle_key(&mut st, &hot, &mut live, 10), vec![InputAction::HotkeyCode {
        unicode: 0x61,
        vk: 0x41,
        down: false
    }]);
}

#[test]
fn map_mode_raw_codes() {
    let mut x11 = InputState::new(Platform::LinuxX11);
    let mut live = no_keys();
    let evt = key_event(KeyboardMode::Mapped, true, KeyPayload::Chr(38), vec![]);
    assert_eq!(handle_key(&mut x11, &evt, &mut live, 10), vec![InputAction::RawKey {
        raw: RawKey::LinuxXorgKeycode(38),
        down: true
    }]);
    assert!(x11.ledger.contains(KeysDown::Raw(RawKey::LinuxXorgKeycode(38))));
    let mut wayland = InputState::new(Platform::LinuxRdp);
    let up = key_event(KeyboardMode::Mapped, false, KeyPayload::Chr(38), vec![]);
    assert_eq!(handle_key(&mut wayland, &up, &mut live, 10), vec![InputAction::KeyUp(Key::Raw(38))]);
    let shift_code = key_event(KeyboardMode::Mapped, true, KeyPayload::Chr(50), vec![ControlKey::CapsLock]);
    assert_eq!(handle_key(&mut x11, &shift_code, &mut live, 10), vec![InputAction::RawKey {
        raw: RawKey::LinuxXorgKeycode(50),
        down: true
    }]);
}

#[test]
fn mac_legacy_and_map_flags() {
    let mut st = InputState::new(Platform::MacOs);
    let mut live = no_keys();
    let evt = key_event(KeyboardMode::Mapped, true, KeyPayload::Chr(0), vec![ControlKey::CapsLock]);
    let plan = handle_key(&mut st, &evt, &mut live, 10);
    assert_eq!(plan, vec![
        InputAction::RawKey { raw: RawKey::MacVirtualKeycode(0x39), down: true },
        InputAction::SetIgnoreFlags(true),
        InputAction::RawKey { raw: RawKey::MacVirtualKeycode(0), down: true },
    ]);
    assert!(st.capslock_down);
    assert!(!st.last_legacy_mode);
}

#[test]
fn function_keys() {
    let mut win = InputState::new(Platform::Windows);
    let mut live = no_keys();
    let sas = key_event(KeyboardMode::Legacy, true, KeyPayload::ControlKey(ControlKey::CtrlAltDel), vec![]);
    assert_eq!(handle_key(&mut win, &sas, &mut live, 1), vec![InputAction::SendSas]);
    assert!(!win.ledger.contains(KeysDown::Control(ControlKey::CtrlAltDel)));
    let lock = key_event(KeyboardMode::Legacy, true, KeyPayload::ControlKey(ControlKey::LockScreen), vec![]);
    assert_eq!(handle_key(&mut win, &lock, &mut live, 1), vec![InputAction::LockScreen]);
}

#[test]
fn lock_screen_shortcut() {
    let mut win = InputState::new(Platform::Windows);
    let mut live = no_keys();
    assert_eq!(lock_screen(&mut win, &mut live, 0), vec![InputAction::PlatformLock]);
    let mut linux = InputState::new(Platform::LinuxX11);
    let plan = lock_screen(&mut linux, &mut live, 0);
    assert_eq!(plan, vec![
        InputAction::KeyDown(Key::Symbol(ControlKey::Meta)),
        InputAction::KeyDownOrType { key: Key::Layout('l'), chr: 'l', upper: false },
        InputAction::KeyUp(Key::Symbol(ControlKey::Meta)),
        InputAction::KeyUp(Key::Layout('l')),
    ]);
}

#[test]
fn enter_keys() {
    let ret = key_event(KeyboardMode::Legacy, true, KeyPayload::ControlKey(ControlKey::Return), vec![]);
    let kp = key_event(KeyboardMode::Legacy, true, KeyPayload::ControlKey(ControlKey::NumpadEnter), vec![]);
    let other = key_event(KeyboardMode::Legacy, true, KeyPayload::Chr(13), vec![]);
    assert!(is_enter(&ret));
    assert!(is_enter(&kp));
    assert!(!is_enter(&other));
}

#[test]
fn forced_sweep_empties_ledger_and_is_idempotent() {
    let mut st = InputState::new(Platform::LinuxX11);
    let mut live = no_keys();
    for (payload, down) in [
        (KeyPayload::ControlKey(ControlKey::Delete), true),
        (KeyPayload::Chr('q' as u32), true),
        (KeyPayload::Chr('w' as u32), true),
        (KeyPayload::Chr('w' as u32), false),
    ] {
        let evt = key_event(KeyboardMode::Legacy, down, payload, vec![]);
        handle_key(&mut st, &evt, &mut live, 5);
    }
    let raw = key_event(KeyboardMode::Mapped, true, KeyPayload::Chr(24), vec![]);
    handle_key(&mut st, &raw, &mut live, 5);
    let plan = fix_key_down_timeout_at_exit(&mut st, 6);
    assert_eq!(plan.len(), 3);
    assert!(plan.contains(&InputAction::KeyUp(Key::Symbol(ControlKey::Delete))));
    assert!(plan.contains(&InputAction::KeyUp(Key::Layout('q'))));
    assert!(plan.contains(&InputAction::RawKey { raw: RawKey::LinuxXorgKeycode(24), down: false }));
    assert!(st.ledger.is_empty());
    assert!(st.exiting);
    assert_eq!(fix_key_down_timeout_at_exit(&mut st, 7), vec![]);
    assert_eq!(fix_key_down_timeout(&mut st, true, 8), vec![]);
    let late = key_event(KeyboardMode::Legacy, true, KeyPayload::Chr('z' as u32), vec![]);
    assert_eq!(handle_key(&mut st, &late, &mut live, 9), vec![]);
    assert!(st.ledger.is_empty());
}

#[test]
fn stuck_key_released_after_timeout() {
    let mut st = InputState::new(Platform::LinuxX11);
    let mut live = no_keys();
    let evt = key_event(KeyboardMode::Legacy, true, KeyPayload::ControlKey(ControlKey::End), vec![]);
    handle_key(&mut st, &evt, &mut live, 1_000);
    assert_eq!(fix_key_down_timeout(&mut st, false, 360_999), vec![]);
    assert!(st.ledger.contains(KeysDown::Control(ControlKey::End)));
    assert_eq!(fix_key_down_timeout(&mut st, false, 361_000), vec![InputAction::KeyUp(Key::Symbol(ControlKey::End))]);
    assert!(!st.ledger.contains(KeysDown::Control(ControlKey::End)));
    assert_eq!(fix_key_down_timeout(&mut st, false, 800_000), vec![]);
}

#[test]
fn cursor_shape_broadcast_uses_markers() {
    let mut svc = new_cursor();
    svc.join(7);
    let a = 0xA;
    let b = 0xB;
    let first = run_cursor(&mut svc.state, Some(a));
    assert!(first.build);
    assert_eq!(svc.send_shared(first.publish.unwrap()), vec![(7, CursorMessage::Data(a))]);
    let again = run_cursor(&mut svc.state, Some(a));
    assert_eq!(again.publish, None);
    let second = run_cursor(&mut svc.state, Some(b));
    assert_eq!(svc.send_shared(second.publish.unwrap()), vec![(7, CursorMessage::Data(b))]);
    let back = run_cursor(&mut svc.state, Some(a));
    assert!(!back.build);
    assert_eq!(svc.send_shared(back.publish.unwrap()), vec![(7, CursorMessage::Id(a))]);
}

#[test]
fn cursor_snapshot_for_new_subscriber() {
    let mut svc = new_cursor();
    assert_eq!(svc.join(1), None);
    let up = run_cursor(&mut svc.state, Some(5));
    svc.send_shared(up.publish.unwrap());
    assert_eq!(svc.join(2), Some(CursorMessage::Data(5)));
    assert_eq!(svc.send_shared(CursorMessage::Data(5)), vec![(1, CursorMessage::Id(5)), (2, CursorMessage::Id(5))]);
    assert!(svc.leave(1));
    assert!(!svc.leave(1));
}

#[test]
fn subscriber_cache() {
    let mut sub = MouseCursorSub::from(4);
    assert_eq!(sub.id(), 4);
    assert_eq!(sub.send(CursorMessage::Data(9)), CursorMessage::Data(9));
    assert_eq!(sub.send(CursorMessage::Data(9)), CursorMessage::Id(9));
    assert_eq!(sub.send(CursorMessage::Id(3)), CursorMessage::Id(3));
}

#[test]
fn echo_suppression_window() {
    let mut pos = StatePos::new();
    let peer = PeerInput { conn: 7, time: 950, x: 0, y: 0 };
    assert_eq!(run_pos(&mut pos, SysCursorPos { sampled_at: Some(900), x: 1, y: 1 }, peer, 900), None);
    let first = run_pos(&mut pos, SysCursorPos { sampled_at: Some(1000), x: 10, y: 20 }, peer, 1000).unwrap();
    assert_eq!((first.x, first.y, first.exclude), (10, 20, Some(7)));
    let second = run_pos(&mut pos, SysCursorPos { sampled_at: Some(1400), x: 11, y: 20 }, peer, 1400).unwrap();
    assert_eq!(second.exclude, None);
    assert_eq!(run_pos(&mut pos, SysCursorPos { sampled_at: Some(1500), x: 11, y: 20 }, peer, 1500), None);
}

#[test]
fn unknown_position_is_skipped() {
    let mut pos = StatePos::new();
    let peer = PeerInput { conn: 0, time: 0, x: 0, y: 0 };
    let sample = SysCursorPos { sampled_at: None, x: i32::MIN, y: 5 };
    assert_eq!(run_pos(&mut pos, sample, peer, 10), None);
    assert!(!pos.is_valid());
}

#[test]
fn focus_changes_published() {
    let mut focus = StateWindowFocus::new();
    assert_eq!(run_window_focus(&mut focus, 1, Some(1)), None);
    assert_eq!(run_window_focus(&mut focus, 2, Some(1)), Some(1));
    assert_eq!(run_window_focus(&mut focus, 2, Some(1)), None);
    assert_eq!(run_window_focus(&mut focus, 2, None), None);
    focus.reset();
    assert_eq!(run_window_focus(&mut focus, 2, Some(0)), None);
    assert_eq!(focus.display_idx, 0);
}

#[test]
fn device_modifiers_released() {
    let mut live = no_keys();
    live.right_shift = true;
    live.meta = true;
    let plan = release_device_modifiers(&mut live);
    assert_eq!(plan, vec![
        InputAction::KeyUp(Key::Symbol(ControlKey::Shift)),
        InputAction::KeyUp(Key::Symbol(ControlKey::Meta)),
        InputAction::KeyUp(Key::Symbol(ControlKey::RShift)),
    ]);
    assert_eq!(live, no_keys());
}

#[test]
fn frame_checksum() {
    assert_eq!(build_frame([1, 2, 3, 4]), [0x5A, 1, 2, 3, 4, 0x64]);
    assert_eq!(build_frame([0xFF, 0xFF, 0xFF, 0xFF]), [0x5A, 0xFF, 0xFF, 0xFF, 0xFF, 0x56]);
}

#[test]
fn repeated_press_refreshes_timestamp() {
    let mut st = InputState::new(Platform::LinuxX11);
    let mut live = no_keys();
    let evt = key_event(KeyboardMode::Legacy, true, KeyPayload::ControlKey(ControlKey::PageUp), vec![]);
    handle_key(&mut st, &evt, &mut live, 1_000);
    handle_key(&mut st, &evt, &mut live, 5_000);
    assert_eq!(fix_key_down_timeout(&mut st, false, 361_000), vec![]);
    assert_eq!(fix_key_down_timeout(&mut st, false, 365_000), vec![InputAction::KeyUp(Key::Symbol(
        ControlKey::PageUp
    ))]);
    assert!(st.ledger.is_empty());
}

#[test]
fn sweeping_empty_ledger_does_nothing() {
    let mut st = InputState::new(Platform::Windows);
    assert_eq!(fix_key_down_timeout(&mut st, true, 0), vec![]);
    assert_eq!(fix_key_down_timeout(&mut st, false, u64::MAX), vec![]);
    assert!(!st.exiting);
}

#[test]
fn extreme_wheel_values_saturate() {
    let mut live = no_keys();
    let mut linux = InputState::new(Platform::LinuxX11);
    assert_eq!(handle_mouse(&mut linux, &mouse(3, i32::MIN, i32::MIN, vec![]), 1, &mut live, 0), vec![
        InputAction::ScrollY { amount: i32::MAX, trackpad: false },
        InputAction::ScrollX { amount: i32::MAX, trackpad: false },
    ]);
    let mut win = InputState::new(Platform::Windows);
    assert_eq!(handle_mouse(&mut win, &mouse(3, 0, i32::MAX, vec![]), 1, &mut live, 0), vec![
        InputAction::ScrollY { amount: i32::MAX, trackpad: false }
    ]);
}

#[test]
fn moves_update_peer_record_only() {
    let mut st = state_with_cursor(Platform::LinuxX11, 0, 0);
    let mut live = no_keys();
    handle_mouse(&mut st, &mouse((1 << 3) | 1, 9, 9, vec![]), 4, &mut live, 77);
    assert_eq!(st.peer_input, PeerInput { conn: 0, time: 0, x: 0, y: 0 });
    handle_mouse(&mut st, &mouse(0, 9, 9, vec![]), 4, &mut live, 77);
    assert_eq!(st.peer_input, PeerInput { conn: 4, time: 77, x: 9, y: 9 });
}

#[test]
fn lock_screen_shortcut_on_mac() {
    let mut mac = InputState::new(Platform::MacOs);
    let mut live = no_keys();
    let plan = lock_screen(&mut mac, &mut live, 0);
    let flags = [
        InputAction::ResetFlags,
        InputAction::AddFlag(Key::Symbol(ControlKey::Meta)),
        InputAction::AddFlag(Key::Symbol(ControlKey::Control)),
    ];
    let mut expected = vec![InputAction::SetIgnoreFlags(false)];
    expected.extend_from_slice(&flags);
    expected.push(InputAction::KeyDownOrType { key: Key::Layout('q'), chr: 'q', upper: false });
    expected.push(InputAction::SetIgnoreFlags(false));
    expected.extend_from_slice(&flags);
    expected.push(InputAction::KeyUp(Key::Layout('q')));
    assert_eq!(plan, expected);
    assert!(mac.last_legacy_mode);
}

#[test]
fn benign_keys_open_no_guard_on_mac() {
    let mut mac = InputState::new(Platform::MacOs);
    let mut live = no_keys();
    let shift = key_event(KeyboardMode::Legacy, true, KeyPayload::ControlKey(ControlKey::Shift), vec![
        ControlKey::CapsLock,
    ]);
    let plan = handle_key(&mut mac, &shift, &mut live, 1);
    assert!(!plan.iter().any(|a| matches!(a, InputAction::RawKey { .. } | InputAction::KeyClick(_))));
    assert!(!mac.capslock_down);
    let raw_tab = key_event(KeyboardMode::Mapped, true, KeyPayload::Chr(0x30), vec![ControlKey::CapsLock]);
    assert_eq!(handle_key(&mut mac, &raw_tab, &mut live, 2), vec![
        InputAction::SetIgnoreFlags(true),
        InputAction::RawKey { raw: RawKey::MacVirtualKeycode(0x30), down: true },
    ]);
    assert!(!mac.capslock_down);
}

#[test]
fn session_reset_forces_lock_convergence_once() {
    let mut st = InputState::new(Platform::LinuxX11);
    let mut live = no_keys();
    let held = key_event(KeyboardMode::Legacy, true, KeyPayload::Chr('k' as u32), vec![]);
    handle_key(&mut st, &held, &mut live, 1);
    let mut cursor = StateCursor::new();
    let released = cursor.reset(&mut st, 2);
    assert_eq!(released, vec![InputAction::KeyUp(Key::Layout('k'))]);
    assert!(st.lock_resync);
    let shift = key_event(KeyboardMode::Legacy, false, KeyPayload::ControlKey(ControlKey::Shift), vec![
        ControlKey::CapsLock,
    ]);
    assert_eq!(handle_key(&mut st, &shift, &mut live, 3), vec![
        InputAction::KeyClick(Key::Symbol(ControlKey::CapsLock)),
        InputAction::KeyUp(Key::Symbol(ControlKey::Shift)),
        InputAction::KeyClick(Key::Symbol(ControlKey::CapsLock)),
    ]);
    assert!(!st.lock_resync);
    assert_eq!(handle_key(&mut st, &shift, &mut live, 4), vec![InputAction::KeyUp(Key::Symbol(ControlKey::Shift))]);
}
