use vstd::prelude::*;

verus! {

/// A pointer button.
#[allow(non_camel_case_types)]
#[derive(Clone, Copy, Debug, PartialEq, Eq, Structural)]
pub enum MouseButton {
    LEFT,
    RIGHT,
    MIDDLE,
    MOUSE4,
    MOUSE5,
}

/// One scroll tick along an axis, with its signed magnitude.
#[derive(Clone, Copy, Debug, PartialEq, Eq, Structural)]
pub enum MouseScroll {
    Vertical(i32),
    Horizontal(i32),
}

/// A raw device code that names no known input.
#[derive(Clone, Copy, Debug, PartialEq, Eq, Structural)]
pub enum InputError {
    UnmappedButton(u32),
}

/// The button that the Linux evdev code `code` names (`BTN_LEFT` ..
/// `BTN_FORWARD`), if any.
pub open spec fn button_for_code(code: u32) -> Option<MouseButton> {
    if code == 272 {
        Some(MouseButton::LEFT)
    } else if code == 273 {
        Some(MouseButton::RIGHT)
    } else if code == 274 {
        Some(MouseButton::MIDDLE)
    } else if code == 275 {
        Some(MouseButton::MOUSE4)
    } else if code == 276 {
        Some(MouseButton::MOUSE5)
    } else {
        None
    }
}

impl MouseButton {
    /// The button that the Linux evdev code `value` names.
    pub fn from_linux_code(value: u32) -> (r: Result<MouseButton, InputError>)
        ensures
            match button_for_code(value) {
                Some(b) => r == Ok::<MouseButton, InputError>(b),
                None => r == Err::<MouseButton, InputError>(InputError::UnmappedButton(value)),
            },
    {
        match value {
            272 => Ok(MouseButton::LEFT),
            273 => Ok(MouseButton::RIGHT),
            274 => Ok(MouseButton::MIDDLE),
            275 => Ok(MouseButton::MOUSE4),
            276 => Ok(MouseButton::MOUSE5),
            _ => Err(InputError::UnmappedButton(value)),
        }
    }
}

} // verus!
