use vstd::prelude::*;

use crate::modifier::{spec_is_control, spec_remove, spec_set, Modifier, ModifierKey};
use crate::mouse::{MouseButton, MouseScroll};
use crate::smoother::{motion_path, smooth_move, spec_step_size, MoveType};
use crate::wire::{Command, CommandView};

verus! {

/// Raw key codes (Linux evdev) that the replay side treats specially.
pub const KEY_LEFT_CONTROL: u32 = 0x1D;
/// The key whose press, while a control key is held, asks for the clipboard.
pub const KEY_COPY: u32 = 0x2E;
pub const KEY_UP: u32 = 0x67;
pub const KEY_LEFT: u32 = 0x69;
pub const KEY_RIGHT: u32 = 0x6A;
pub const KEY_DOWN: u32 = 0x6C;

/// A key that the injector presses by name rather than by raw code.
#[derive(Clone, Copy, Debug, PartialEq, Eq, Structural)]
pub enum NamedKey {
    LeftArrow,
    RightArrow,
    DownArrow,
    UpArrow,
    LControl,
}

#[derive(Clone, Copy, Debug, PartialEq, Eq, Structural)]
pub enum ScrollAxis {
    Vertical,
    Horizontal,
}

/// One synthetic input action for the platform injector or the clipboard.
#[derive(Clone, Debug, PartialEq, Eq)]
pub enum Action {
    /// Put the cursor at an absolute position.
    MoveCursor { x: i32, y: i32 },
    Key { key: NamedKey, press: bool },
    RawKey { code: u16, press: bool },
    Button { button: MouseButton, press: bool },
    /// Scroll one notch in the direction of `amount`'s sign.
    Scroll { axis: ScrollAxis, amount: i32 },
    TypeText(String),
    SetClipboard(String),
}

/// The state that one connection's replay keeps between commands.
#[derive(Clone, Copy, Debug, PartialEq, Eq)]
pub struct ReplayState {
    /// The modifier keys held now.
    pub modifiers: Modifier,
    /// Where the cursor is, as far as the commands replayed so far tell.
    pub position: (i32, i32),
}

/// What replaying one command asks of the caller.
#[derive(Clone, Debug, PartialEq, Eq)]
pub struct Replay {
    /// The actions to perform, in order.
    pub actions: Vec<Action>,
    /// The local clipboard is to be read and sent back as an answer.
    pub send_clipboard: bool,
}

pub open spec fn named_key(code: u32) -> Option<NamedKey> {
    if code == KEY_LEFT {
        Some(NamedKey::LeftArrow)
    } else if code == KEY_RIGHT {
        Some(NamedKey::RightArrow)
    } else if code == KEY_DOWN {
        Some(NamedKey::DownArrow)
    } else if code == KEY_UP {
        Some(NamedKey::UpArrow)
    } else if code == KEY_LEFT_CONTROL {
        Some(NamedKey::LControl)
    } else {
        None
    }
}

/// The action that presses or releases the key with raw code `code`.
pub open spec fn key_action(code: u32, press: bool) -> Action {
    match named_key(code) {
        Some(key) => Action::Key { key, press },
        None => Action::RawKey { code: code as u16, press },
    }
}

/// The modifier key that the raw code `code` stands for, if any.
pub open spec fn modifier_of(code: u32) -> Option<ModifierKey> {
    if code == KEY_LEFT_CONTROL {
        Some(ModifierKey::LControl)
    } else {
        None
    }
}

pub open spec fn signum(v: i32) -> i32 {
    if v > 0 {
        1
    } else if v < 0 {
        -1i32
    } else {
        0
    }
}

/// `actions` moves the cursor through `path`, one position per action.
pub open spec fn is_moves(actions: Seq<Action>, path: Seq<(int, int)>) -> bool {
    &&& actions.len() == path.len()
    &&& forall|i: int|
        0 <= i < path.len() ==> #[trigger] actions[i] == (Action::MoveCursor {
            x: path[i].0 as i32,
            y: path[i].1 as i32,
        })
}

/// Where a relative move by `(dx, dy)` from `pos` ends, wrapping as `i32` does.
pub open spec fn moved(pos: (i32, i32), dx: i32, dy: i32) -> (i32, i32) {
    (vstd::wrapping::i32_specs::wrapping_add(pos.0, dx), vstd::wrapping::i32_specs::wrapping_add(pos.1, dy))
}

/// The cursor position after replaying `c` at `pos`.
pub open spec fn position_after(pos: (i32, i32), c: CommandView) -> (i32, i32) {
    match c {
        CommandView::SetMouse { x, y } => (x, y),
        CommandView::MoveMouse { dx, dy } => moved(pos, dx, dy),
        _ => pos,
    }
}

/// The modifier mask after replaying `c` with mask `m`.
pub open spec fn modifiers_after(m: Modifier, c: CommandView) -> Modifier {
    match c {
        CommandView::KeyPressed(code) => match modifier_of(code) {
            Some(k) => spec_set(m, Modifier { bits: crate::modifier::key_bit(k) }),
            None => m,
        },
        CommandView::KeyReleased(code) => match modifier_of(code) {
            Some(k) => spec_remove(m, Modifier { bits: crate::modifier::key_bit(k) }),
            None => m,
        },
        _ => m,
    }
}

/// What replaying `c` in state `s` does: the actions it yields and whether
/// it asks for the clipboard.
pub open spec fn replay_spec(s: ReplayState, c: CommandView, actions: Seq<Action>, send_clipboard: bool) -> bool {
    match c {
        CommandView::SetMouse { x, y } => {
            &&& is_moves(actions, motion_path(s.position, (x, y), spec_step_size(MoveType::Immediate)))
            &&& !send_clipboard
        },
        CommandView::MoveMouse { dx, dy } => {
            &&& is_moves(
                actions,
                motion_path(s.position, moved(s.position, dx, dy), spec_step_size(MoveType::Faster)),
            )
            &&& !send_clipboard
        },
        CommandView::MouseButtonPressed(b) => {
            &&& actions == seq![Action::Button { button: b, press: true }]
            &&& !send_clipboard
        },
        CommandView::MouseButtonReleased(b) => {
            &&& actions == seq![Action::Button { button: b, press: false }]
            &&& !send_clipboard
        },
        CommandView::MouseScroll(MouseScroll::Vertical(v)) => {
            &&& actions == seq![Action::Scroll { axis: ScrollAxis::Vertical, amount: signum(v) }]
            &&& !send_clipboard
        },
        CommandView::MouseScroll(MouseScroll::Horizontal(v)) => {
            &&& actions == seq![Action::Scroll { axis: ScrollAxis::Horizontal, amount: signum(v) }]
            &&& !send_clipboard
        },
        CommandView::KeyPressed(code) => {
            &&& actions == seq![key_action(code, true)]
            &&& send_clipboard == (code == KEY_COPY && spec_is_control(s.modifiers))
        },
        CommandView::KeyReleased(code) => {
            &&& actions == seq![key_action(code, false)]
            &&& !send_clipboard
        },
        CommandView::InputText(t) => {
            &&& actions.len() == 1
            &&& actions[0] matches Action::TypeText(a) && a@ == t
            &&& !send_clipboard
        },
        CommandView::SetClipboard(t) => {
            &&& actions.len() == 1
            &&& actions[0] matches Action::SetClipboard(a) && a@ == t
            &&& !send_clipboard
        },
    }
}

fn key_to_action(code: u32, press: bool) -> (r: Action)
    ensures
        r == key_action(code, press),
{
    if code == KEY_LEFT {
        Action::Key { key: NamedKey::LeftArrow, press }
    } else if code == KEY_RIGHT {
        Action::Key { key: NamedKey::RightArrow, press }
    } else if code == KEY_DOWN {
        Action::Key { key: NamedKey::DownArrow, press }
    } else if code == KEY_UP {
        Action::Key { key: NamedKey::UpArrow, press }
    } else if code == KEY_LEFT_CONTROL {
        Action::Key { key: NamedKey::LControl, press }
    } else {
        #[verifier::truncate]
        let raw = code as u16;
        Action::RawKey { code: raw, press }
    }
}

fn moves(current: (i32, i32), target: (i32, i32), move_type: MoveType) -> (r: Vec<Action>)
    ensures
        is_moves(r@, motion_path(current, target, spec_step_size(move_type))),
{
    let path = smooth_move(current, target, move_type.step_size());
    let mut out: Vec<Action> = Vec::new();
    let mut i: usize = 0;
    while i < path.len()
        invariant
            i <= path@.len(),
            crate::smoother::points(path@) == motion_path(current, target, spec_step_size(move_type)),
            is_moves(out@, crate::smoother::points(path@).subrange(0, i as int)),
        decreases path@.len() - i,
    {
        let (x, y) = path[i];
        out.push(Action::MoveCursor { x, y });
        i = i + 1;
    }
    assert(crate::smoother::points(path@).subrange(0, i as int) =~= crate::smoother::points(path@));
    out
}

fn single(a: Action) -> (r: Vec<Action>)
    ensures
        r@ == seq![a],
{
    let mut out: Vec<Action> = Vec::new();
    out.push(a);
    assert(out@ =~= seq![a]);
    out
}

fn sign_of(v: i32) -> (r: i32)
    ensures
        r == signum(v),
{
    if v > 0 {
        1
    } else if v < 0 {
        -1
    } else {
        0
    }
}

impl ReplayState {
    /// The state of a new connection, with no modifier held and the cursor
    /// at `position`.
    pub fn new(position: (i32, i32)) -> (r: ReplayState)
        ensures
            r.modifiers.bits == 0,
            r.position == position,
    {
        ReplayState { modifiers: Modifier::empty(), position }
    }

    /// Replays one command: the actions that reproduce it, whether it asks
    /// for the clipboard, and the state for the next command.
    pub fn process_command(&mut self, command: Command) -> (r: Replay)
        ensures
            replay_spec(*old(self), command@, r.actions@, r.send_clipboard),
            final(self).position == position_after(old(self).position, command@),
            final(self).modifiers == modifiers_after(old(self).modifiers, command@),
    {
        match command {
            Command::SetMouse { x, y } => {
                let actions = moves(self.position, (x, y), MoveType::Immediate);
                self.position = (x, y);
                Replay { actions, send_clipboard: false }
            },
            Command::MoveMouse { dx, dy } => {
                let target = (self.position.0.wrapping_add(dx), self.position.1.wrapping_add(dy));
                let actions = moves(self.position, target, MoveType::Faster);
                self.position = target;
                Replay { actions, send_clipboard: false }
            },
            Command::MouseButtonPressed(button) => {
                Replay { actions: single(Action::Button { button, press: true }), send_clipboard: false }
            },
            Command::MouseButtonReleased(button) => {
                Replay { actions: single(Action::Button { button, press: false }), send_clipboard: false }
            },
            Command::MouseScroll(MouseScroll::Vertical(v)) => {
                let a = Action::Scroll { axis: ScrollAxis::Vertical, amount: sign_of(v) };
                Replay { actions: single(a), send_clipboard: false }
            },
            Command::MouseScroll(MouseScroll::Horizontal(v)) => {
                let a = Action::Scroll { axis: ScrollAxis::Horizontal, amount: sign_of(v) };
                Replay { actions: single(a), send_clipboard: false }
            },
            Command::KeyPressed(code) => {
                let send_clipboard = code == KEY_COPY && self.modifiers.is_control();
                if code == KEY_LEFT_CONTROL {
                    self.modifiers.set(Modifier::of(ModifierKey::LControl));
                }
                Replay { actions: single(key_to_action(code, true)), send_clipboard }
            },
            Command::KeyReleased(code) => {
                if code == KEY_LEFT_CONTROL {
                    self.modifiers.remove(Modifier::of(ModifierKey::LControl));
                }
                Replay { actions: single(key_to_action(code, false)), send_clipboard: false }
            },
            Command::InputText(text) => {
                Replay { actions: single(Action::TypeText(text)), send_clipboard: false }
            },
            Command::SetClipboard(text) => {
                Replay { actions: single(Action::SetClipboard(text)), send_clipboard: false }
            },
        }
    }
}

} // verus!
