//! Key codes and mouse buttons as a SPICE display understands them.
use vstd::prelude::*;

verus! {

/// A key as the SPICE input channel names it.
#[derive(Debug, Clone, Copy, PartialEq, Eq)]
pub enum KeyCode {
    Char(char),
    Backspace,
    Tab,
    Enter,
    Escape,
    Space,
    ArrowLeft,
    ArrowUp,
    ArrowRight,
    ArrowDown,
    Function(u8),
}

/// The SPICE key of a browser key code: letters (65 to 90) and digits
/// (48 to 57) as their upper-case character, F1 to F12 (112 to 123),
/// and the editing, space and arrow keys; no other code has one.
pub open spec fn spice_key(code: u32) -> Option<KeyCode> {
    if 65 <= code <= 90 || 48 <= code <= 57 {
        Some(KeyCode::Char(code as char))
    } else if 112 <= code <= 123 {
        Some(KeyCode::Function((code - 111) as u8))
    } else if code == 8 {
        Some(KeyCode::Backspace)
    } else if code == 9 {
        Some(KeyCode::Tab)
    } else if code == 13 {
        Some(KeyCode::Enter)
    } else if code == 27 {
        Some(KeyCode::Escape)
    } else if code == 32 {
        Some(KeyCode::Space)
    } else if code == 37 {
        Some(KeyCode::ArrowLeft)
    } else if code == 38 {
        Some(KeyCode::ArrowUp)
    } else if code == 39 {
        Some(KeyCode::ArrowRight)
    } else if code == 40 {
        Some(KeyCode::ArrowDown)
    } else {
        None
    }
}

/// Map browser keycodes to SPICE keycodes
pub fn map_keycode_to_spice(keycode: u32) -> (r: Option<KeyCode>)
    ensures
        r == spice_key(keycode),
{
    if (65 <= keycode && keycode <= 90) || (48 <= keycode && keycode <= 57) {
        let b = keycode as u8;
        Some(KeyCode::Char(b as char))
    } else if 112 <= keycode && keycode <= 123 {
        Some(KeyCode::Function((keycode - 111) as u8))
    } else {
        match keycode {
            8 => Some(KeyCode::Backspace),
            9 => Some(KeyCode::Tab),
            13 => Some(KeyCode::Enter),
            27 => Some(KeyCode::Escape),
            32 => Some(KeyCode::Space),
            37 => Some(KeyCode::ArrowLeft),
            38 => Some(KeyCode::ArrowUp),
            39 => Some(KeyCode::ArrowRight),
            40 => Some(KeyCode::ArrowDown),
            _ => None,
        }
    }
}

/// A mouse button as the SPICE input channel names it.
#[derive(Debug, Clone, Copy, PartialEq, Eq)]
pub enum MouseButton {
    Left,
    Middle,
    Right,
}

/// The SPICE button of a toolkit button number: 1 is the left, 2 the
/// middle and 3 the right button; other buttons are not passed on.
pub fn map_mouse_button(button: u32) -> (r: Option<MouseButton>)
    ensures
        r == (if button == 1 {
            Some(MouseButton::Left)
        } else if button == 2 {
            Some(MouseButton::Middle)
        } else if button == 3 {
            Some(MouseButton::Right)
        } else {
            None
        }),
{
    match button {
        1 => Some(MouseButton::Left),
        2 => Some(MouseButton::Middle),
        3 => Some(MouseButton::Right),
        _ => None,
    }
}

} // verus!
