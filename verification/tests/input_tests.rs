use rsbongo::input::{
    classify_key_event, ignored_key, keyboard_hook_event, mouse_hook_event, BTN_TOOL_DOUBLETAP,
    BTN_TOOL_FINGER, BTN_TOOL_QUADTAP, BTN_TOOL_QUINTTAP, BTN_TOOL_TRIPLETAP, BTN_TOUCH, EV_KEY,
    HC_ACTION, WM_KEYDOWN, WM_KEYUP, WM_LBUTTONDOWN, WM_LBUTTONUP, WM_MBUTTONDOWN, WM_MBUTTONUP,
    WM_RBUTTONDOWN, WM_RBUTTONUP, WM_SYSKEYDOWN, WM_SYSKEYUP,
};
use rsbongo::AppEvent;
use windows_sys::Win32::UI::WindowsAndMessaging as wm;

#[test]
fn evdev_codes_match() {
    assert_eq!(BTN_TOUCH, evdev::Key::BTN_TOUCH.code());
    assert_eq!(BTN_TOOL_FINGER, evdev::Key::BTN_TOOL_FINGER.code());
    assert_eq!(BTN_TOOL_DOUBLETAP, evdev::Key::BTN_TOOL_DOUBLETAP.code());
    assert_eq!(BTN_TOOL_TRIPLETAP, evdev::Key::BTN_TOOL_TRIPLETAP.code());
    assert_eq!(BTN_TOOL_QUADTAP, evdev::Key::BTN_TOOL_QUADTAP.code());
    assert_eq!(BTN_TOOL_QUINTTAP, evdev::Key::BTN_TOOL_QUINTTAP.code());
    assert_eq!(EV_KEY, evdev::EventType::KEY.0);
}

#[test]
fn win32_codes_match() {
    assert_eq!(HC_ACTION, wm::HC_ACTION as i32);
    assert_eq!(WM_KEYDOWN, wm::WM_KEYDOWN);
    assert_eq!(WM_KEYUP, wm::WM_KEYUP);
    assert_eq!(WM_SYSKEYDOWN, wm::WM_SYSKEYDOWN);
    assert_eq!(WM_SYSKEYUP, wm::WM_SYSKEYUP);
    assert_eq!(WM_LBUTTONDOWN, wm::WM_LBUTTONDOWN);
    assert_eq!(WM_LBUTTONUP, wm::WM_LBUTTONUP);
    assert_eq!(WM_RBUTTONDOWN, wm::WM_RBUTTONDOWN);
    assert_eq!(WM_RBUTTONUP, wm::WM_RBUTTONUP);
    assert_eq!(WM_MBUTTONDOWN, wm::WM_MBUTTONDOWN);
    assert_eq!(WM_MBUTTONUP, wm::WM_MBUTTONUP);
}

#[test]
fn key_press_and_release() {
    let key_a = evdev::Key::KEY_A.code();
    assert_eq!(classify_key_event(EV_KEY, key_a, 1), Some(AppEvent::KeyPressed));
    assert_eq!(classify_key_event(EV_KEY, key_a, 0), Some(AppEvent::KeyReleased));
    let left = evdev::Key::BTN_LEFT.code();
    assert_eq!(classify_key_event(EV_KEY, left, 1), Some(AppEvent::KeyPressed));
}

#[test]
fn key_autorepeat_and_other_values_dropped() {
    let key_a = evdev::Key::KEY_A.code();
    assert_eq!(classify_key_event(EV_KEY, key_a, 2), None);
    assert_eq!(classify_key_event(EV_KEY, key_a, -1), None);
    assert_eq!(classify_key_event(EV_KEY, key_a, 7), None);
}

#[test]
fn touchpad_contacts_dropped() {
    for code in [BTN_TOUCH, BTN_TOOL_FINGER, BTN_TOOL_DOUBLETAP, BTN_TOOL_TRIPLETAP, BTN_TOOL_QUADTAP, BTN_TOOL_QUINTTAP] {
        assert!(ignored_key(code));
        assert_eq!(classify_key_event(EV_KEY, code, 1), None);
        assert_eq!(classify_key_event(EV_KEY, code, 0), None);
    }
    assert!(!ignored_key(evdev::Key::BTN_LEFT.code()));
}

#[test]
fn non_key_events_dropped() {
    let rel = evdev::EventType::RELATIVE.0;
    assert_eq!(classify_key_event(rel, 0, 1), None);
    assert_eq!(classify_key_event(0, 0, 0), None);
}

#[test]
fn keyboard_hook_messages() {
    assert_eq!(keyboard_hook_event(0, WM_KEYDOWN as usize), Some(AppEvent::KeyPressed));
    assert_eq!(keyboard_hook_event(0, WM_SYSKEYDOWN as usize), Some(AppEvent::KeyPressed));
    assert_eq!(keyboard_hook_event(0, WM_KEYUP as usize), Some(AppEvent::KeyReleased));
    assert_eq!(keyboard_hook_event(0, WM_SYSKEYUP as usize), Some(AppEvent::KeyReleased));
    assert_eq!(keyboard_hook_event(0, WM_LBUTTONDOWN as usize), None);
    assert_eq!(keyboard_hook_event(3, WM_KEYDOWN as usize), None);
    assert_eq!(keyboard_hook_event(-1, WM_KEYUP as usize), None);
}

#[test]
fn mouse_hook_messages() {
    for m in [WM_LBUTTONDOWN, WM_RBUTTONDOWN, WM_MBUTTONDOWN] {
        assert_eq!(mouse_hook_event(0, m as usize), Some(AppEvent::KeyPressed));
    }
    for m in [WM_LBUTTONUP, WM_RBUTTONUP, WM_MBUTTONUP] {
        assert_eq!(mouse_hook_event(0, m as usize), Some(AppEvent::KeyReleased));
    }
    assert_eq!(mouse_hook_event(0, 0x0200), None); // WM_MOUSEMOVE
    assert_eq!(mouse_hook_event(0, WM_KEYDOWN as usize), None);
    assert_eq!(mouse_hook_event(1, WM_LBUTTONDOWN as usize), None);
}

#[test]
fn hook_message_uses_low_32_bits() {
    let wide = (1u64 << 32) as usize | WM_KEYDOWN as usize;
    assert_eq!(keyboard_hook_event(0, wide), Some(AppEvent::KeyPressed));
    let wide_mouse = (5u64 << 40) as usize | WM_RBUTTONUP as usize;
    assert_eq!(mouse_hook_event(0, wide_mouse), Some(AppEvent::KeyReleased));
}
