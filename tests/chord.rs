use hotkey_chord::hotkey::{HookAction, HotkeyError, MyHotkey, PressInfo, HC_ACTION, VK_C, WM_KEYDOWN};
use hotkey_chord::script::{escape_single_quotes, is_blank, is_white_space_char, submit_script, SCRIPT_HEAD, SCRIPT_TAIL};

fn registered() -> PressInfo {
    let mut p = PressInfo::new();
    assert_eq!(p.hot_key.reg_hotkey(42), Ok(()));
    p
}

fn ctrl_c(p: &mut PressInfo, now: u64) -> HookAction {
    p.keyboard_hook_callback(HC_ACTION, WM_KEYDOWN, VK_C, true, now)
}

#[test]
fn first_press_arms_detector() {
    let mut p = registered();
    assert_eq!(ctrl_c(&mut p, 0), HookAction::Swallow);
    assert!(p.ctrl_c_pressed);
    assert_eq!(p.last_press_time, 0);
}

#[test]
fn second_press_within_window_fires() {
    let mut p = registered();
    assert_eq!(ctrl_c(&mut p, 0), HookAction::Swallow);
    assert_eq!(ctrl_c(&mut p, 500), HookAction::Fire);
    assert!(p.ctrl_c_pressed);
    assert_eq!(p.last_press_time, 0);
}

#[test]
fn close_presses_fire_once() {
    let mut p = registered();
    let a = ctrl_c(&mut p, 10_000);
    let b = ctrl_c(&mut p, 10_999);
    assert_eq!(a, HookAction::Swallow);
    assert_eq!(b, HookAction::Fire);
}

#[test]
fn second_press_after_window_resets_timestamp() {
    let mut p = registered();
    assert_eq!(ctrl_c(&mut p, 0), HookAction::Swallow);
    assert_eq!(ctrl_c(&mut p, 2000), HookAction::Swallow);
    assert!(p.ctrl_c_pressed);
    assert_eq!(p.last_press_time, 2000);
}

#[test]
fn press_exactly_one_window_later_does_not_fire() {
    let mut p = registered();
    assert_eq!(ctrl_c(&mut p, 0), HookAction::Swallow);
    assert_eq!(ctrl_c(&mut p, 1000), HookAction::Swallow);
    assert_eq!(p.last_press_time, 1000);
    assert_eq!(ctrl_c(&mut p, 1999), HookAction::Fire);
}

#[test]
fn firing_keeps_reference_press() {
    let mut p = registered();
    ctrl_c(&mut p, 0);
    assert_eq!(ctrl_c(&mut p, 300), HookAction::Fire);
    assert_eq!(ctrl_c(&mut p, 900), HookAction::Fire);
    assert_eq!(ctrl_c(&mut p, 1200), HookAction::Swallow);
    assert_eq!(p.last_press_time, 1200);
}

#[test]
fn clock_running_backwards_counts_as_no_time() {
    let mut p = PressInfo::new();
    assert!(!p.handle_copy(5000));
    assert!(p.handle_copy(4000));
}

#[test]
fn handle_copy_from_idle() {
    let mut p = PressInfo::new();
    assert!(!p.ctrl_c_pressed);
    assert!(!p.handle_copy(7));
    assert!(p.ctrl_c_pressed);
    assert_eq!(p.last_press_time, 7);
}

#[test]
fn other_keys_pass_through() {
    let mut p = registered();
    assert_eq!(p.keyboard_hook_callback(HC_ACTION, WM_KEYDOWN, VK_C, false, 0), HookAction::PassThrough);
    assert_eq!(p.keyboard_hook_callback(HC_ACTION, WM_KEYDOWN, 0x44, true, 0), HookAction::PassThrough);
    assert_eq!(p.keyboard_hook_callback(HC_ACTION, 0x0101, VK_C, true, 0), HookAction::PassThrough);
    assert_eq!(p.keyboard_hook_callback(3, WM_KEYDOWN, VK_C, true, 0), HookAction::PassThrough);
    assert!(!p.ctrl_c_pressed);
}

#[test]
fn unregistered_hook_sees_no_events() {
    let mut p = registered();
    assert!(p.hot_key.is_registered());
    assert_eq!(p.hot_key.unreg_hotkey(), Some(42));
    assert!(!p.hot_key.is_registered());
    assert_eq!(ctrl_c(&mut p, 0), HookAction::PassThrough);
    assert_eq!(ctrl_c(&mut p, 100), HookAction::PassThrough);
    assert!(!p.ctrl_c_pressed);
}

#[test]
fn unregister_without_hook_returns_none() {
    let mut h = MyHotkey::new();
    assert_eq!(h.unreg_hotkey(), None);
}

#[test]
fn null_hook_fails_registration() {
    let mut h = MyHotkey::new();
    assert_eq!(h.reg_hotkey(0), Err(HotkeyError::HookRegistrationFailed));
    assert!(!h.is_registered());
}

#[test]
fn second_registration_is_refused() {
    let mut h = MyHotkey::new();
    assert_eq!(h.reg_hotkey(5), Ok(()));
    assert_eq!(h.reg_hotkey(6), Err(HotkeyError::AlreadyRegistered));
    assert_eq!(h.h_hook, Some(5));
}

#[test]
fn single_quote_is_escaped() {
    assert_eq!(escape_single_quotes("it's"), "it\\'s");
    assert_eq!(escape_single_quotes("''"), "\\'\\'");
    assert_eq!(escape_single_quotes("plain"), "plain");
    assert_eq!(escape_single_quotes(""), "");
}

#[test]
fn blank_text_is_detected() {
    assert!(is_blank(""));
    assert!(is_blank("   "));
    assert!(is_blank(" \t\r\n\u{3000}\u{a0}"));
    assert!(!is_blank(" a "));
    assert!(is_white_space_char('\u{2028}'));
    assert!(!is_white_space_char('x'));
}

#[test]
fn blank_clipboard_submits_nothing() {
    assert_eq!(submit_script(""), None);
    assert_eq!(submit_script("  \n\t "), None);
}

#[test]
fn hello_is_injected() {
    let script = submit_script("hello").unwrap();
    assert_eq!(script, format!("{}hello{}", SCRIPT_HEAD, SCRIPT_TAIL));
    assert!(script.contains("t.value='hello';"));
}

#[test]
fn quoted_text_is_injected_escaped() {
    let script = submit_script("it's").unwrap();
    assert!(script.contains("t.value='it\\'s';"));
}
