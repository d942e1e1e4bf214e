use vstd::prelude::*;

use crate::mouse::{MouseButton, MouseScroll};

verus! {

/// A message from the capturing side to the replaying side.
#[derive(Clone, Debug, PartialEq, Eq)]
pub enum Command {
    /// Put the cursor at an absolute position.
    SetMouse { x: i32, y: i32 },
    /// Move the cursor by a delta from where it is.
    MoveMouse { dx: i32, dy: i32 },
    MouseButtonPressed(MouseButton),
    MouseButtonReleased(MouseButton),
    MouseScroll(MouseScroll),
    KeyPressed(u32),
    KeyReleased(u32),
    InputText(String),
    SetClipboard(String),
}

/// A message from the replaying side back to the capturing side.
#[derive(Clone, Debug, PartialEq, Eq)]
pub enum Answer {
    ClipboardContents(String),
}

/// A `Command` with its text as characters.
pub enum CommandView {
    SetMouse { x: i32, y: i32 },
    MoveMouse { dx: i32, dy: i32 },
    MouseButtonPressed(MouseButton),
    MouseButtonReleased(MouseButton),
    MouseScroll(MouseScroll),
    KeyPressed(u32),
    KeyReleased(u32),
    InputText(Seq<char>),
    SetClipboard(Seq<char>),
}

/// An `Answer` with its text as characters.
pub enum AnswerView {
    ClipboardContents(Seq<char>),
}

impl View for Command {
    type V = CommandView;

    open spec fn view(&self) -> CommandView {
        match self {
            Command::SetMouse { x, y } => CommandView::SetMouse { x: *x, y: *y },
            Command::MoveMouse { dx, dy } => CommandView::MoveMouse { dx: *dx, dy: *dy },
            Command::MouseButtonPressed(b) => CommandView::MouseButtonPressed(*b),
            Command::MouseButtonReleased(b) => CommandView::MouseButtonReleased(*b),
            Command::MouseScroll(s) => CommandView::MouseScroll(*s),
            Command::KeyPressed(k) => CommandView::KeyPressed(*k),
            Command::KeyReleased(k) => CommandView::KeyReleased(*k),
            Command::InputText(s) => CommandView::InputText(s@),
            Command::SetClipboard(s) => CommandView::SetClipboard(s@),
        }
    }
}

impl View for Answer {
    type V = AnswerView;

    open spec fn view(&self) -> AnswerView {
        match self {
            Answer::ClipboardContents(s) => AnswerView::ClipboardContents(s@),
        }
    }
}

} // verus!
