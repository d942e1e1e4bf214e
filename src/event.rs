use vstd::prelude::*;

use crate::mouse::{button_for_code, InputError, MouseButton};

verus! {

/// The canonical form of one captured input occurrence.
#[derive(Clone, Copy, Debug, PartialEq, Eq, Structural)]
pub enum AppEvent {
    /// Nothing to send.
    Nothing,
    MouseMove { x: i32, y: i32 },
    MouseEnter { x: i32, y: i32 },
    MouseLeave,
    MouseButtonPressed(MouseButton),
    MouseButtonReleased(MouseButton),
    ScrollHorizontal(i32),
    ScrollVertical(i32),
    KeyPressed(u32),
    KeyReleased(u32),
}

/// A scroll axis as the capture side reports it.
#[derive(Clone, Copy, Debug, PartialEq, Eq, Structural)]
pub enum Axis {
    VerticalScroll,
    HorizontalScroll,
}

/// One raw callback of the capture side, with its coordinates already
/// mapped to the target display.
#[derive(Clone, Copy, Debug, PartialEq, Eq, Structural)]
pub enum RawEvent {
    PointerEnter { x: i32, y: i32 },
    PointerLeave,
    PointerMotion { x: i32, y: i32 },
    PointerButton { code: u32, pressed: bool },
    PointerAxis { axis: Axis, value: i32 },
    KeyEvent { code: u32, pressed: bool },
}

/// Turns raw capture callbacks into canonical events.
#[derive(Clone, Copy, Debug, PartialEq, Eq, Structural)]
pub struct Normalizer {
    /// The pointer is over the capture surface.
    pub focus: bool,
    /// The event recorded last; a motion right after an enter clears it.
    pub last_event: AppEvent,
}

/// The event that `raw` records, or `AppEvent::Nothing` where it is dropped,
/// given the event recorded before it. `None` where a button code is unknown.
pub open spec fn normalized(last: AppEvent, raw: RawEvent) -> Option<AppEvent> {
    match raw {
        RawEvent::PointerEnter { x, y } => Some(AppEvent::MouseEnter { x, y }),
        RawEvent::PointerLeave => Some(AppEvent::MouseLeave),
        RawEvent::PointerMotion { x, y } => if last is MouseEnter {
            Some(AppEvent::Nothing)
        } else {
            Some(AppEvent::MouseMove { x, y })
        },
        RawEvent::PointerButton { code, pressed } => match button_for_code(code) {
            Some(b) => if pressed {
                Some(AppEvent::MouseButtonPressed(b))
            } else {
                Some(AppEvent::MouseButtonReleased(b))
            },
            None => None,
        },
        RawEvent::PointerAxis { axis, value } => if value == 0 {
            Some(AppEvent::Nothing)
        } else {
            match axis {
                Axis::VerticalScroll => Some(AppEvent::ScrollVertical(value)),
                Axis::HorizontalScroll => Some(AppEvent::ScrollHorizontal(value)),
            }
        },
        RawEvent::KeyEvent { code, pressed } => if pressed {
            Some(AppEvent::KeyPressed(code))
        } else {
            Some(AppEvent::KeyReleased(code))
        },
    }
}

/// The focus after `raw`.
pub open spec fn focus_after(focus: bool, raw: RawEvent) -> bool {
    match raw {
        RawEvent::PointerEnter { .. } => true,
        RawEvent::PointerLeave => false,
        _ => focus,
    }
}

/// The event recorded after `raw` produced `e`: a zero scroll leaves the
/// record as it was; anything else, a dropped motion too, replaces it.
pub open spec fn last_after(last: AppEvent, raw: RawEvent, e: AppEvent) -> AppEvent {
    match raw {
        RawEvent::PointerAxis { value, .. } => if value == 0 {
            last
        } else {
            e
        },
        _ => e,
    }
}

impl Normalizer {
    pub fn new() -> (r: Normalizer)
        ensures
            !r.focus,
            r.last_event == AppEvent::Nothing,
    {
        Normalizer { focus: false, last_event: AppEvent::Nothing }
    }

    /// Records one raw callback and returns the canonical event for it
    /// (`AppEvent::Nothing` where it is dropped). An unknown button code is an
    /// error and leaves the normalizer as it was.
    pub fn on_event(&mut self, raw: RawEvent) -> (r: Result<AppEvent, InputError>)
        ensures
            match normalized(old(self).last_event, raw) {
                Some(e) => {
                    &&& r == Ok::<AppEvent, InputError>(e)
                    &&& final(self).focus == focus_after(old(self).focus, raw)
                    &&& final(self).last_event == last_after(old(self).last_event, raw, e)
                },
                None => {
                    &&& raw matches RawEvent::PointerButton { code, .. }
                    &&& r == Err::<AppEvent, InputError>(InputError::UnmappedButton(code))
                    &&& *final(self) == *old(self)
                },
            },
    {
        match raw {
            RawEvent::PointerEnter { x, y } => {
                self.focus = true;
                self.last_event = AppEvent::MouseEnter { x, y };
                Ok(self.last_event)
            },
            RawEvent::PointerLeave => {
                self.focus = false;
                self.last_event = AppEvent::MouseLeave;
                Ok(self.last_event)
            },
            RawEvent::PointerMotion { x, y } => {
                if let AppEvent::MouseEnter { .. } = self.last_event {
                    self.last_event = AppEvent::Nothing;
                } else {
                    self.last_event = AppEvent::MouseMove { x, y };
                }
                Ok(self.last_event)
            },
            RawEvent::PointerButton { code, pressed } => {
                let button = match MouseButton::from_linux_code(code) {
                    Ok(b) => b,
                    Err(e) => {
                        return Err(e);
                    },
                };
                self.last_event = if pressed {
                    AppEvent::MouseButtonPressed(button)
                } else {
                    AppEvent::MouseButtonReleased(button)
                };
                Ok(self.last_event)
            },
            RawEvent::PointerAxis { axis, value } => {
                if value == 0 {
                    return Ok(AppEvent::Nothing);
                }
                self.last_event = match axis {
                    Axis::VerticalScroll => AppEvent::ScrollVertical(value),
                    Axis::HorizontalScroll => AppEvent::ScrollHorizontal(value),
                };
                Ok(self.last_event)
            },
            RawEvent::KeyEvent { code, pressed } => {
                self.last_event = if pressed {
                    AppEvent::KeyPressed(code)
                } else {
                    AppEvent::KeyReleased(code)
                };
                Ok(self.last_event)
            },
        }
    }
}

} // verus!
