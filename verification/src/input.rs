//! Classification of raw input events into `AppEvent`s: evdev key events on
//! Linux, and the messages seen by the low-level keyboard and mouse hooks on
//! Windows.

use vstd::prelude::*;
use crate::event::AppEvent;

verus! {

/// evdev event type of key and button events (`EV_KEY`).
pub const EV_KEY: u16 = 0x01;

/// Touchpad contact: a finger touches the pad (`BTN_TOUCH`).
pub const BTN_TOUCH: u16 = 0x14a;

/// Touchpad contact: one finger on the pad (`BTN_TOOL_FINGER`).
pub const BTN_TOOL_FINGER: u16 = 0x145;

/// Touchpad contact: two fingers on the pad (`BTN_TOOL_DOUBLETAP`).
pub const BTN_TOOL_DOUBLETAP: u16 = 0x14d;

/// Touchpad contact: three fingers on the pad (`BTN_TOOL_TRIPLETAP`).
pub const BTN_TOOL_TRIPLETAP: u16 = 0x14e;

/// Touchpad contact: four fingers on the pad (`BTN_TOOL_QUADTAP`).
pub const BTN_TOOL_QUADTAP: u16 = 0x14f;

/// Touchpad contact: five fingers on the pad (`BTN_TOOL_QUINTTAP`).
pub const BTN_TOOL_QUINTTAP: u16 = 0x148;

/// Value of a key event when the key goes down.
pub const KEY_DOWN: i32 = 1;

/// Value of a key event when the key goes up.
pub const KEY_UP: i32 = 0;

/// Touchpad "contact" codes: they fire constantly from fingers resting on or
/// moving over the pad and are not clicks. Real touchpad clicks still arrive
/// as `BTN_LEFT` / `BTN_RIGHT`, which are kept.
pub open spec fn is_ignored_key(code: u16) -> bool {
    ||| code == BTN_TOUCH
    ||| code == BTN_TOOL_FINGER
    ||| code == BTN_TOOL_DOUBLETAP
    ||| code == BTN_TOOL_TRIPLETAP
    ||| code == BTN_TOOL_QUADTAP
    ||| code == BTN_TOOL_QUINTTAP
}

/// Whether `code` is one of the touchpad contact codes that are not tracked.
pub fn ignored_key(code: u16) -> (b: bool)
    ensures
        b == is_ignored_key(code),
{
    code == BTN_TOUCH || code == BTN_TOOL_FINGER || code == BTN_TOOL_DOUBLETAP || code
        == BTN_TOOL_TRIPLETAP || code == BTN_TOOL_QUADTAP || code == BTN_TOOL_QUINTTAP
}

/// What `classify_key_event` returns for an event of this type, code and value.
pub open spec fn key_event_result(event_type: u16, code: u16, value: i32) -> Option<AppEvent> {
    if event_type == EV_KEY && !is_ignored_key(code) && value == KEY_DOWN {
        Some(AppEvent::KeyPressed)
    } else if event_type == EV_KEY && !is_ignored_key(code) && value == KEY_UP {
        Some(AppEvent::KeyReleased)
    } else {
        None
    }
}

/// Turns one evdev input event, given by its type, code and value, into the
/// event to forward: a tracked key going down (value 1) is a press, going up
/// (value 0) is a release. Other event types, the touchpad contact codes,
/// autorepeat (value 2) and any other value are dropped.
pub fn classify_key_event(event_type: u16, code: u16, value: i32) -> (e: Option<AppEvent>)
    ensures
        e == Some(AppEvent::KeyPressed) <==> (event_type == EV_KEY && !is_ignored_key(code)
            && value == KEY_DOWN),
        e == Some(AppEvent::KeyReleased) <==> (event_type == EV_KEY && !is_ignored_key(code)
            && value == KEY_UP),
        e == key_event_result(event_type, code, value),
{
    if event_type != EV_KEY || ignored_key(code) {
        return None;
    }
    if value == KEY_DOWN {
        Some(AppEvent::KeyPressed)
    } else if value == KEY_UP {
        Some(AppEvent::KeyReleased)
    } else {
        None
    }
}

/// Law: exactly six codes are ignored, the touchpad contact codes
/// 0x14a, 0x145, 0x14d, 0x14e, 0x14f and 0x148. For any other code a key event
/// going down is a press and one going up a release; for those six, nothing
/// is forwarded.
pub proof fn lemma_only_touchpad_contacts_ignored(code: u16)
    ensures
        is_ignored_key(code) <==> (code == 0x14a || code == 0x145 || code == 0x14d || code == 0x14e
            || code == 0x14f || code == 0x148),
        !(code == 0x14a || code == 0x145 || code == 0x14d || code == 0x14e || code == 0x14f || code
            == 0x148) ==> (key_event_result(0x01, code, 1) == Some(AppEvent::KeyPressed)
            && key_event_result(0x01, code, 0) == Some(AppEvent::KeyReleased)),
        (code == 0x14a || code == 0x145 || code == 0x14d || code == 0x14e || code == 0x14f || code
            == 0x148) ==> (key_event_result(0x01, code, 1) == None::<AppEvent>
            && key_event_result(0x01, code, 0) == None::<AppEvent>),
{
}

/// Hook code under which a low-level hook must process the message (`HC_ACTION`).
pub const HC_ACTION: i32 = 0;

/// A key went down (`WM_KEYDOWN`).
pub const WM_KEYDOWN: u32 = 0x0100;

/// A key went up (`WM_KEYUP`).
pub const WM_KEYUP: u32 = 0x0101;

/// A key went down while ALT was held, or F10 (`WM_SYSKEYDOWN`).
pub const WM_SYSKEYDOWN: u32 = 0x0104;

/// A key went up while ALT was held, or F10 (`WM_SYSKEYUP`).
pub const WM_SYSKEYUP: u32 = 0x0105;

/// Left mouse button down (`WM_LBUTTONDOWN`).
pub const WM_LBUTTONDOWN: u32 = 0x0201;

/// Left mouse button up (`WM_LBUTTONUP`).
pub const WM_LBUTTONUP: u32 = 0x0202;

/// Right mouse button down (`WM_RBUTTONDOWN`).
pub const WM_RBUTTONDOWN: u32 = 0x0204;

/// Right mouse button up (`WM_RBUTTONUP`).
pub const WM_RBUTTONUP: u32 = 0x0205;

/// Middle mouse button down (`WM_MBUTTONDOWN`).
pub const WM_MBUTTONDOWN: u32 = 0x0207;

/// Middle mouse button up (`WM_MBUTTONUP`).
pub const WM_MBUTTONUP: u32 = 0x0208;

/// What the low-level keyboard hook forwards for hook code `code` and message
/// `wparam` (of which the low 32 bits name the message): key down, with or
/// without ALT, is a press; key up is a release; nothing is forwarded for
/// another message or when `code` is not `HC_ACTION`.
pub fn keyboard_hook_event(code: i32, wparam: usize) -> (e: Option<AppEvent>)
    ensures
        e == Some(AppEvent::KeyPressed) <==> (code == HC_ACTION && ((wparam as u32) == WM_KEYDOWN
            || (wparam as u32) == WM_SYSKEYDOWN)),
        e == Some(AppEvent::KeyReleased) <==> (code == HC_ACTION && ((wparam as u32) == WM_KEYUP
            || (wparam as u32) == WM_SYSKEYUP)),
{
    if code != HC_ACTION {
        return None;
    }
    let message = wparam as u32;
    if message == WM_KEYDOWN || message == WM_SYSKEYDOWN {
        Some(AppEvent::KeyPressed)
    } else if message == WM_KEYUP || message == WM_SYSKEYUP {
        Some(AppEvent::KeyReleased)
    } else {
        None
    }
}

/// What the low-level mouse hook forwards for hook code `code` and message
/// `wparam` (of which the low 32 bits name the message): a left, right or
/// middle button going down is a press, going up a release; nothing is
/// forwarded for another message (moves, wheel) or when `code` is not
/// `HC_ACTION`.
pub fn mouse_hook_event(code: i32, wparam: usize) -> (e: Option<AppEvent>)
    ensures
        e == Some(AppEvent::KeyPressed) <==> (code == HC_ACTION && ((wparam as u32) == WM_LBUTTONDOWN
            || (wparam as u32) == WM_RBUTTONDOWN || (wparam as u32) == WM_MBUTTONDOWN)),
        e == Some(AppEvent::KeyReleased) <==> (code == HC_ACTION && ((wparam as u32) == WM_LBUTTONUP
            || (wparam as u32) == WM_RBUTTONUP || (wparam as u32) == WM_MBUTTONUP)),
{
    if code != HC_ACTION {
        return None;
    }
    let message = wparam as u32;
    if message == WM_LBUTTONDOWN || message == WM_RBUTTONDOWN || message == WM_MBUTTONDOWN {
        Some(AppEvent::KeyPressed)
    } else if message == WM_LBUTTONUP || message == WM_RBUTTONUP || message == WM_MBUTTONUP {
        Some(AppEvent::KeyReleased)
    } else {
        None
    }
}

/// Law: the hook messages, by number. With hook code 0 the keyboard hook
/// reports messages 0x100 and 0x104 (key down, plain or with ALT) as presses
/// and 0x101 and 0x105 as releases; the mouse hook reports 0x201, 0x204 and
/// 0x207 (left, right, middle button down) as presses and 0x202, 0x205 and
/// 0x208 as releases; with any other hook code neither forwards anything.
pub proof fn lemma_hook_messages(code: i32, message: u32)
    ensures
        code == HC_ACTION <==> code == 0,
        (message == WM_KEYDOWN || message == WM_SYSKEYDOWN) <==> (message == 0x100 || message
            == 0x104),
        (message == WM_KEYUP || message == WM_SYSKEYUP) <==> (message == 0x101 || message == 0x105),
        (message == WM_LBUTTONDOWN || message == WM_RBUTTONDOWN || message == WM_MBUTTONDOWN) <==> (
        message == 0x201 || message == 0x204 || message == 0x207),
        (message == WM_LBUTTONUP || message == WM_RBUTTONUP || message == WM_MBUTTONUP) <==> (message
            == 0x202 || message == 0x205 || message == 0x208),
{
}

} // verus!
