use vstd::prelude::*;
use vstd::wrapping::i32_specs::wrapping_sub;

use crate::event::{focus_after, last_after, normalized, AppEvent, Normalizer, RawEvent};
use crate::mouse::InputError;
use crate::mouse::MouseScroll;
use crate::replay::position_after;
use crate::wire::{Command, CommandView};

verus! {

/// The command that event `e` becomes, given the focus and the last cursor
/// position that was sent.
pub open spec fn command_for(e: AppEvent, focus: bool, pos: (i32, i32)) -> Option<CommandView> {
    match e {
        AppEvent::Nothing => None,
        AppEvent::MouseMove { x, y } => if focus {
            Some(CommandView::MoveMouse { dx: wrapping_sub(x, pos.0), dy: wrapping_sub(y, pos.1) })
        } else {
            None
        },
        AppEvent::MouseEnter { x, y } => Some(CommandView::SetMouse { x, y }),
        AppEvent::MouseLeave => None,
        AppEvent::MouseButtonPressed(b) => Some(CommandView::MouseButtonPressed(b)),
        AppEvent::MouseButtonReleased(b) => Some(CommandView::MouseButtonReleased(b)),
        AppEvent::ScrollHorizontal(v) => Some(CommandView::MouseScroll(MouseScroll::Horizontal(v))),
        AppEvent::ScrollVertical(v) => Some(CommandView::MouseScroll(MouseScroll::Vertical(v))),
        AppEvent::KeyPressed(k) => Some(CommandView::KeyPressed(k)),
        AppEvent::KeyReleased(k) => Some(CommandView::KeyReleased(k)),
    }
}

/// The last cursor position sent once `e` is mapped.
pub open spec fn position_for(e: AppEvent, focus: bool, pos: (i32, i32)) -> (i32, i32) {
    match e {
        AppEvent::MouseMove { x, y } => if focus {
            (x, y)
        } else {
            pos
        },
        AppEvent::MouseEnter { x, y } => (x, y),
        _ => pos,
    }
}

pub open spec fn option_view(c: Option<Command>) -> Option<CommandView> {
    match c {
        Some(c) => Some(c@),
        None => None,
    }
}

/// Maps one canonical event to at most one command. A move is sent as the
/// delta from the last position sent; an enter re-sends the absolute
/// position. Returns the command and the new last position.
pub fn map_event(event: AppEvent, focus: bool, position: (i32, i32)) -> (r: (Option<Command>, (i32, i32)))
    ensures
        option_view(r.0) == command_for(event, focus, position),
        r.1 == position_for(event, focus, position),
{
    match event {
        AppEvent::Nothing => (None, position),
        AppEvent::MouseMove { x, y } => {
            if !focus {
                return (None, position);
            }
            let dx = x.wrapping_sub(position.0);
            let dy = y.wrapping_sub(position.1);
            (Some(Command::MoveMouse { dx, dy }), (x, y))
        },
        AppEvent::MouseEnter { x, y } => (Some(Command::SetMouse { x, y }), (x, y)),
        AppEvent::MouseLeave => (None, position),
        AppEvent::MouseButtonPressed(b) => (Some(Command::MouseButtonPressed(b)), position),
        AppEvent::MouseButtonReleased(b) => (Some(Command::MouseButtonReleased(b)), position),
        AppEvent::ScrollHorizontal(v) => (Some(Command::MouseScroll(MouseScroll::Horizontal(v))), position),
        AppEvent::ScrollVertical(v) => (Some(Command::MouseScroll(MouseScroll::Vertical(v))), position),
        AppEvent::KeyPressed(k) => (Some(Command::KeyPressed(k)), position),
        AppEvent::KeyReleased(k) => (Some(Command::KeyReleased(k)), position),
    }
}

/// The capture side of a connection: the normalizer and the last cursor
/// position sent.
#[derive(Clone, Copy, Debug, PartialEq, Eq)]
pub struct ClientSession {
    pub normalizer: Normalizer,
    pub position: (i32, i32),
}

/// What one raw callback asks the capture side to send.
#[derive(Clone, Debug, PartialEq, Eq)]
pub struct Tick {
    /// The command to send, if any.
    pub command: Option<Command>,
    /// The local clipboard is to be read and sent as `SetClipboard`.
    pub push_clipboard: bool,
}

impl ClientSession {
    pub fn new() -> (r: ClientSession)
        ensures
            !r.normalizer.focus,
            r.normalizer.last_event == AppEvent::Nothing,
            r.position == (0i32, 0i32),
    {
        ClientSession { normalizer: Normalizer::new(), position: (0, 0) }
    }

    /// Normalizes one raw callback and maps the event to a command. The
    /// mapping sees the focus as the callback left it. An unknown button
    /// code is an error and changes nothing.
    pub fn on_raw_event(&mut self, raw: RawEvent) -> (r: Result<Tick, InputError>)
        ensures
            match normalized(old(self).normalizer.last_event, raw) {
                Some(e) => {
                    let focus = focus_after(old(self).normalizer.focus, raw);
                    &&& r matches Ok(t) && option_view(t.command) == command_for(e, focus, old(self).position)
                        && t.push_clipboard == (e is MouseEnter)
                    &&& final(self).normalizer.focus == focus
                    &&& final(self).normalizer.last_event == last_after(old(self).normalizer.last_event, raw, e)
                    &&& final(self).position == position_for(e, focus, old(self).position)
                },
                None => {
                    &&& raw matches RawEvent::PointerButton { code, .. }
                    &&& r == Err::<Tick, InputError>(InputError::UnmappedButton(code))
                    &&& *final(self) == *old(self)
                },
            },
    {
        let event = match self.normalizer.on_event(raw) {
            Ok(e) => e,
            Err(e) => {
                return Err(e);
            },
        };
        let push_clipboard = match event {
            AppEvent::MouseEnter { .. } => true,
            _ => false,
        };
        let (command, position) = map_event(event, self.normalizer.focus, self.position);
        self.position = position;
        Ok(Tick { command, push_clipboard })
    }
}

/// The capture side and the replay side agree on where the cursor is: where
/// both start from the same position, replaying the command that an event
/// maps to leaves the replay side at the position the capture side records,
/// and an event that maps to no command leaves that position unchanged.
pub proof fn lemma_positions_agree(e: AppEvent, focus: bool, pos: (i32, i32))
    ensures
        match command_for(e, focus, pos) {
            Some(c) => position_after(pos, c) == position_for(e, focus, pos),
            None => position_for(e, focus, pos) == pos,
        },
{
}

/// A motion right after an enter sends no command: whatever the capture side
/// recorded before, the enter maps to an absolute re-sync and the motion
/// that follows it is dropped.
pub proof fn lemma_motion_after_enter_sends_nothing(
    last: AppEvent,
    focus: bool,
    pos: (i32, i32),
    ex: i32,
    ey: i32,
    x: i32,
    y: i32,
)
    ensures
        ({
            let enter = RawEvent::PointerEnter { x: ex, y: ey };
            let motion = RawEvent::PointerMotion { x, y };
            let e1 = normalized(last, enter)->Some_0;
            let f1 = focus_after(focus, enter);
            let p1 = position_for(e1, f1, pos);
            let e2 = normalized(last_after(last, enter, e1), motion)->Some_0;
            &&& command_for(e1, f1, pos) == Some(CommandView::SetMouse { x: ex, y: ey })
            &&& normalized(last_after(last, enter, e1), motion) is Some
            &&& command_for(e2, focus_after(f1, motion), p1) is None
        }),
{
}

} // verus!
