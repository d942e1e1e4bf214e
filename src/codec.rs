use vstd::prelude::*;
use vstd::bytes::*;
use vstd::slice::*;
use vstd::utf8::*;

use crate::mouse::{MouseButton, MouseScroll};
use crate::wire::{Answer, AnswerView, Command, CommandView};

verus! {

// Wire format. A message is one tag byte followed by its payload. Integers
// are little-endian: `i32` and `u32` in four bytes. A button is one byte, a
// scroll axis one byte (vertical 0, horizontal 1) before its value. A text is
// its UTF-8 byte count in eight bytes, then those bytes.

pub const TAG_SET_MOUSE: u8 = 0;
pub const TAG_MOVE_MOUSE: u8 = 1;
pub const TAG_BUTTON_PRESSED: u8 = 2;
pub const TAG_BUTTON_RELEASED: u8 = 3;
pub const TAG_SCROLL: u8 = 4;
pub const TAG_KEY_PRESSED: u8 = 5;
pub const TAG_KEY_RELEASED: u8 = 6;
pub const TAG_INPUT_TEXT: u8 = 7;
pub const TAG_SET_CLIPBOARD: u8 = 8;
pub const TAG_CLIPBOARD_CONTENTS: u8 = 0;

/// Why a byte sequence is not a message.
#[derive(Clone, Copy, Debug, PartialEq, Eq, Structural)]
pub enum CodecError {
    /// There are no bytes at all.
    Empty,
    /// The first byte names no message kind.
    UnknownTag(u8),
    /// The payload is too short, too long, or holds a value that the kind
    /// does not admit.
    BadPayload,
}

pub open spec fn i32_bytes(v: i32) -> Seq<u8> {
    spec_u32_to_le_bytes(v as u32)
}

pub open spec fn button_byte(b: MouseButton) -> u8 {
    match b {
        MouseButton::LEFT => 0,
        MouseButton::RIGHT => 1,
        MouseButton::MIDDLE => 2,
        MouseButton::MOUSE4 => 3,
        MouseButton::MOUSE5 => 4,
    }
}

pub open spec fn text_bytes(s: Seq<char>) -> Seq<u8> {
    spec_u64_to_le_bytes(encode_utf8(s).len() as u64) + encode_utf8(s)
}

/// The bytes of a command.
pub open spec fn command_bytes(c: CommandView) -> Seq<u8> {
    match c {
        CommandView::SetMouse { x, y } => seq![TAG_SET_MOUSE] + i32_bytes(x) + i32_bytes(y),
        CommandView::MoveMouse { dx, dy } => seq![TAG_MOVE_MOUSE] + i32_bytes(dx) + i32_bytes(dy),
        CommandView::MouseButtonPressed(b) => seq![TAG_BUTTON_PRESSED, button_byte(b)],
        CommandView::MouseButtonReleased(b) => seq![TAG_BUTTON_RELEASED, button_byte(b)],
        CommandView::MouseScroll(MouseScroll::Vertical(v)) => seq![TAG_SCROLL, 0u8] + i32_bytes(v),
        CommandView::MouseScroll(MouseScroll::Horizontal(v)) => seq![TAG_SCROLL, 1u8] + i32_bytes(
            v,
        ),
        CommandView::KeyPressed(k) => seq![TAG_KEY_PRESSED] + spec_u32_to_le_bytes(k),
        CommandView::KeyReleased(k) => seq![TAG_KEY_RELEASED] + spec_u32_to_le_bytes(k),
        CommandView::InputText(s) => seq![TAG_INPUT_TEXT] + text_bytes(s),
        CommandView::SetClipboard(s) => seq![TAG_SET_CLIPBOARD] + text_bytes(s),
    }
}

/// The bytes of an answer.
pub open spec fn answer_bytes(a: AnswerView) -> Seq<u8> {
    match a {
        AnswerView::ClipboardContents(s) => seq![TAG_CLIPBOARD_CONTENTS] + text_bytes(s),
    }
}

/// Appends the bytes of `b` to `out`.
fn push_bytes(out: &mut Vec<u8>, b: &[u8])
    ensures
        final(out)@ == old(out)@ + b@,
{
    let mut i: usize = 0;
    while i < b.len()
        invariant
            i <= b@.len(),
            out@ == old(out)@ + b@.subrange(0, i as int),
        decreases b@.len() - i,
    {
        out.push(b[i]);
        i = i + 1;
        assert(b@.subrange(0, i as int) == b@.subrange(0, i - 1) + seq![b@[i - 1]]);
    }
    assert(b@.subrange(0, b@.len() as int) == b@);
}

fn push_i32(out: &mut Vec<u8>, v: i32)
    ensures
        final(out)@ == old(out)@ + i32_bytes(v),
{
    let b = u32_to_le_bytes(v as u32);
    push_bytes(out, b.as_slice());
}

fn push_u32(out: &mut Vec<u8>, v: u32)
    ensures
        final(out)@ == old(out)@ + spec_u32_to_le_bytes(v),
{
    let b = u32_to_le_bytes(v);
    push_bytes(out, b.as_slice());
}

fn button_to_byte(b: MouseButton) -> (r: u8)
    ensures
        r == button_byte(b),
{
    match b {
        MouseButton::LEFT => 0,
        MouseButton::RIGHT => 1,
        MouseButton::MIDDLE => 2,
        MouseButton::MOUSE4 => 3,
        MouseButton::MOUSE5 => 4,
    }
}

fn push_text(out: &mut Vec<u8>, s: &String)
    ensures
        final(out)@ == old(out)@ + text_bytes(s@),
{
    let bytes = s.as_str().as_bytes();
    let n = bytes.len();
    let len = u64_to_le_bytes(n as u64);
    push_bytes(out, len.as_slice());
    push_bytes(out, bytes);
    assert(out@ == old(out)@ + text_bytes(s@));
}

/// Encodes a command.
pub fn encode_command(c: &Command) -> (r: Vec<u8>)
    ensures
        r@ == command_bytes(c@),
{
    let mut out: Vec<u8> = Vec::new();
    match c {
        Command::SetMouse { x, y } => {
            out.push(TAG_SET_MOUSE);
            push_i32(&mut out, *x);
            push_i32(&mut out, *y);
        },
        Command::MoveMouse { dx, dy } => {
            out.push(TAG_MOVE_MOUSE);
            push_i32(&mut out, *dx);
            push_i32(&mut out, *dy);
        },
        Command::MouseButtonPressed(b) => {
            out.push(TAG_BUTTON_PRESSED);
            out.push(button_to_byte(*b));
        },
        Command::MouseButtonReleased(b) => {
            out.push(TAG_BUTTON_RELEASED);
            out.push(button_to_byte(*b));
        },
        Command::MouseScroll(MouseScroll::Vertical(v)) => {
            out.push(TAG_SCROLL);
            out.push(0);
            push_i32(&mut out, *v);
        },
        Command::MouseScroll(MouseScroll::Horizontal(v)) => {
            out.push(TAG_SCROLL);
            out.push(1);
            push_i32(&mut out, *v);
        },
        Command::KeyPressed(k) => {
            out.push(TAG_KEY_PRESSED);
            push_u32(&mut out, *k);
        },
        Command::KeyReleased(k) => {
            out.push(TAG_KEY_RELEASED);
            push_u32(&mut out, *k);
        },
        Command::InputText(s) => {
            out.push(TAG_INPUT_TEXT);
            push_text(&mut out, s);
        },
        Command::SetClipboard(s) => {
            out.push(TAG_SET_CLIPBOARD);
            push_text(&mut out, s);
        },
    }
    out
}

/// Encodes an answer.
pub fn encode_answer(a: &Answer) -> (r: Vec<u8>)
    ensures
        r@ == answer_bytes(a@),
{
    let mut out: Vec<u8> = Vec::new();
    match a {
        Answer::ClipboardContents(s) => {
            out.push(TAG_CLIPBOARD_CONTENTS);
            push_text(&mut out, s);
        },
    }
    out
}

pub open spec fn i32_of(p: Seq<u8>) -> i32 {
    spec_u32_from_le_bytes(p) as i32
}

pub open spec fn button_of(b: u8) -> Option<MouseButton> {
    if b == 0 {
        Some(MouseButton::LEFT)
    } else if b == 1 {
        Some(MouseButton::RIGHT)
    } else if b == 2 {
        Some(MouseButton::MIDDLE)
    } else if b == 3 {
        Some(MouseButton::MOUSE4)
    } else if b == 4 {
        Some(MouseButton::MOUSE5)
    } else {
        None
    }
}

/// The text that a payload holds: a byte count that matches the rest of the
/// payload exactly, and valid UTF-8 after it.
pub open spec fn text_of(p: Seq<u8>) -> Option<Seq<char>> {
    if p.len() >= 8 && spec_u64_from_le_bytes(p.subrange(0, 8)) as int == p.len() - 8
        && valid_utf8(p.subrange(8, p.len() as int)) {
        Some(decode_utf8(p.subrange(8, p.len() as int)))
    } else {
        None
    }
}

pub open spec fn is_command_tag(t: u8) -> bool {
    t <= TAG_SET_CLIPBOARD
}

/// The command that `b` holds, if it holds one.
pub open spec fn command_of(b: Seq<u8>) -> Option<CommandView> {
    if b.len() == 0 {
        None
    } else {
        let t = b[0];
        let p = b.subrange(1, b.len() as int);
        if t == TAG_SET_MOUSE || t == TAG_MOVE_MOUSE {
            if p.len() == 8 {
                let x = i32_of(p.subrange(0, 4));
                let y = i32_of(p.subrange(4, 8));
                if t == TAG_SET_MOUSE {
                    Some(CommandView::SetMouse { x, y })
                } else {
                    Some(CommandView::MoveMouse { dx: x, dy: y })
                }
            } else {
                None
            }
        } else if t == TAG_BUTTON_PRESSED || t == TAG_BUTTON_RELEASED {
            if p.len() == 1 && button_of(p[0]) is Some {
                let btn = button_of(p[0])->Some_0;
                if t == TAG_BUTTON_PRESSED {
                    Some(CommandView::MouseButtonPressed(btn))
                } else {
                    Some(CommandView::MouseButtonReleased(btn))
                }
            } else {
                None
            }
        } else if t == TAG_SCROLL {
            if p.len() == 5 && p[0] == 0 {
                Some(CommandView::MouseScroll(MouseScroll::Vertical(i32_of(p.subrange(1, 5)))))
            } else if p.len() == 5 && p[0] == 1 {
                Some(CommandView::MouseScroll(MouseScroll::Horizontal(i32_of(p.subrange(1, 5)))))
            } else {
                None
            }
        } else if t == TAG_KEY_PRESSED || t == TAG_KEY_RELEASED {
            if p.len() == 4 {
                let k = spec_u32_from_le_bytes(p);
                if t == TAG_KEY_PRESSED {
                    Some(CommandView::KeyPressed(k))
                } else {
                    Some(CommandView::KeyReleased(k))
                }
            } else {
                None
            }
        } else if t == TAG_INPUT_TEXT || t == TAG_SET_CLIPBOARD {
            match text_of(p) {
                Some(s) => if t == TAG_INPUT_TEXT {
                    Some(CommandView::InputText(s))
                } else {
                    Some(CommandView::SetClipboard(s))
                },
                None => None,
            }
        } else {
            None
        }
    }
}

/// The answer that `b` holds, if it holds one.
pub open spec fn answer_of(b: Seq<u8>) -> Option<AnswerView> {
    if b.len() > 0 && b[0] == TAG_CLIPBOARD_CONTENTS {
        match text_of(b.subrange(1, b.len() as int)) {
            Some(s) => Some(AnswerView::ClipboardContents(s)),
            None => None,
        }
    } else {
        None
    }
}

/// The error that decoding `b` as a command gives, where it holds none.
pub open spec fn command_error(b: Seq<u8>) -> CodecError {
    if b.len() == 0 {
        CodecError::Empty
    } else if !is_command_tag(b[0]) {
        CodecError::UnknownTag(b[0])
    } else {
        CodecError::BadPayload
    }
}

/// The error that decoding `b` as an answer gives, where it holds none.
pub open spec fn answer_error(b: Seq<u8>) -> CodecError {
    if b.len() == 0 {
        CodecError::Empty
    } else if b[0] != TAG_CLIPBOARD_CONTENTS {
        CodecError::UnknownTag(b[0])
    } else {
        CodecError::BadPayload
    }
}

/// Relies on `String::from_utf8`: it accepts exactly the byte sequences that
/// are valid UTF-8, and the string holds the characters that they encode.
#[verifier::external_body]
fn string_from_utf8(bytes: Vec<u8>) -> (r: Option<String>)
    ensures
        match r {
            Some(s) => valid_utf8(bytes@) && s@ == decode_utf8(bytes@),
            None => !valid_utf8(bytes@),
        },
{
    String::from_utf8(bytes).ok()
}

fn read_i32(p: &[u8], at: usize) -> (r: i32)
    requires
        at + 4 <= p@.len(),
    ensures
        r == i32_of(p@.subrange(at as int, at + 4)),
{
    let len = p.len();
    assert(at + 4 <= len);
    let end = at + 4;
    let u = u32_from_le_bytes(slice_subrange(p, at, end));
    #[verifier::truncate]
    (u as i32)
}

fn read_text(p: &[u8]) -> (r: Option<String>)
    ensures
        match text_of(p@) {
            Some(s) => r matches Some(t) && t@ == s,
            None => r is None,
        },
{
    if p.len() < 8 {
        return None;
    }
    let n = u64_from_le_bytes(slice_subrange(p, 0, 8));
    if n != (p.len() - 8) as u64 {
        return None;
    }
    let bytes = slice_to_vec(slice_subrange(p, 8, p.len()));
    string_from_utf8(bytes)
}

fn byte_to_button(b: u8) -> (r: Option<MouseButton>)
    ensures
        r == button_of(b),
{
    match b {
        0 => Some(MouseButton::LEFT),
        1 => Some(MouseButton::RIGHT),
        2 => Some(MouseButton::MIDDLE),
        3 => Some(MouseButton::MOUSE4),
        4 => Some(MouseButton::MOUSE5),
        _ => None,
    }
}

/// Decodes a command from the whole of `b`.
pub fn decode_command(b: &[u8]) -> (r: Result<Command, CodecError>)
    ensures
        match command_of(b@) {
            Some(v) => r matches Ok(c) && c@ == v,
            None => r == Err::<Command, CodecError>(command_error(b@)),
        },
{
    if b.len() == 0 {
        return Err(CodecError::Empty);
    }
    let t = b[0];
    let p = slice_subrange(b, 1, b.len());
    assert(p@ == b@.subrange(1, b@.len() as int));
    if t == TAG_SET_MOUSE || t == TAG_MOVE_MOUSE {
        if p.len() != 8 {
            return Err(CodecError::BadPayload);
        }
        let x = read_i32(p, 0);
        let y = read_i32(p, 4);
        if t == TAG_SET_MOUSE {
            Ok(Command::SetMouse { x, y })
        } else {
            Ok(Command::MoveMouse { dx: x, dy: y })
        }
    } else if t == TAG_BUTTON_PRESSED || t == TAG_BUTTON_RELEASED {
        if p.len() != 1 {
            return Err(CodecError::BadPayload);
        }
        match byte_to_button(p[0]) {
            Some(btn) => if t == TAG_BUTTON_PRESSED {
                Ok(Command::MouseButtonPressed(btn))
            } else {
                Ok(Command::MouseButtonReleased(btn))
            },
            None => Err(CodecError::BadPayload),
        }
    } else if t == TAG_SCROLL {
        if p.len() != 5 {
            return Err(CodecError::BadPayload);
        }
        let v = read_i32(p, 1);
        if p[0] == 0 {
            Ok(Command::MouseScroll(MouseScroll::Vertical(v)))
        } else if p[0] == 1 {
            Ok(Command::MouseScroll(MouseScroll::Horizontal(v)))
        } else {
            Err(CodecError::BadPayload)
        }
    } else if t == TAG_KEY_PRESSED || t == TAG_KEY_RELEASED {
        if p.len() != 4 {
            return Err(CodecError::BadPayload);
        }
        let k = u32_from_le_bytes(p);
        if t == TAG_KEY_PRESSED {
            Ok(Command::KeyPressed(k))
        } else {
            Ok(Command::KeyReleased(k))
        }
    } else if t == TAG_INPUT_TEXT || t == TAG_SET_CLIPBOARD {
        match read_text(p) {
            Some(s) => if t == TAG_INPUT_TEXT {
                Ok(Command::InputText(s))
            } else {
                Ok(Command::SetClipboard(s))
            },
            None => Err(CodecError::BadPayload),
        }
    } else {
        Err(CodecError::UnknownTag(t))
    }
}

/// Decodes an answer from the whole of `b`.
pub fn decode_answer(b: &[u8]) -> (r: Result<Answer, CodecError>)
    ensures
        match answer_of(b@) {
            Some(v) => r matches Ok(a) && a@ == v,
            None => r == Err::<Answer, CodecError>(answer_error(b@)),
        },
{
    if b.len() == 0 {
        return Err(CodecError::Empty);
    }
    if b[0] != TAG_CLIPBOARD_CONTENTS {
        return Err(CodecError::UnknownTag(b[0]));
    }
    let p = slice_subrange(b, 1, b.len());
    match read_text(p) {
        Some(s) => Ok(Answer::ClipboardContents(s)),
        None => Err(CodecError::BadPayload),
    }
}

/// The UTF-8 form of every text in `c` is short enough for its byte count
/// to fit in eight bytes, as that of any text held in memory is.
pub open spec fn command_fits(c: CommandView) -> bool {
    match c {
        CommandView::InputText(s) => encode_utf8(s).len() <= u64::MAX,
        CommandView::SetClipboard(s) => encode_utf8(s).len() <= u64::MAX,
        _ => true,
    }
}

/// The UTF-8 form of the text in `a` is short enough for its byte count to
/// fit in eight bytes.
pub open spec fn answer_fits(a: AnswerView) -> bool {
    match a {
        AnswerView::ClipboardContents(s) => encode_utf8(s).len() <= u64::MAX,
    }
}

proof fn lemma_i32_round_trip(v: i32)
    ensures
        i32_bytes(v).len() == 4,
        i32_of(i32_bytes(v)) == v,
{
    lemma_auto_spec_u32_to_from_le_bytes();
    let u = v as u32;
    assert((u as i32) == v) by (bit_vector)
        requires
            u == v as u32,
    ;
    assert(spec_u32_to_le_bytes(u).len() == 4);
    assert(spec_u32_from_le_bytes(spec_u32_to_le_bytes(u)) == u);
}

proof fn lemma_text_round_trip(s: Seq<char>)
    requires
        encode_utf8(s).len() <= u64::MAX,
    ensures
        text_of(text_bytes(s)) == Some(s),
{
    lemma_auto_spec_u64_to_from_le_bytes();
    encode_utf8_valid_utf8(s);
    encode_utf8_decode_utf8(s);
    let e = encode_utf8(s);
    let p = text_bytes(s);
    assert(p.subrange(0, 8) == spec_u64_to_le_bytes(e.len() as u64));
    assert(p.subrange(8, p.len() as int) == e);
}

/// Decoding the bytes of a command gives back that command.
pub proof fn lemma_command_round_trip(c: CommandView)
    requires
        command_fits(c),
    ensures
        command_of(command_bytes(c)) == Some(c),
{
    lemma_auto_spec_u32_to_from_le_bytes();
    let b = command_bytes(c);
    let p = b.subrange(1, b.len() as int);
    match c {
        CommandView::SetMouse { x, y } => {
            lemma_i32_round_trip(x);
            lemma_i32_round_trip(y);
            assert(p.subrange(0, 4) == i32_bytes(x));
            assert(p.subrange(4, 8) == i32_bytes(y));
        },
        CommandView::MoveMouse { dx, dy } => {
            lemma_i32_round_trip(dx);
            lemma_i32_round_trip(dy);
            assert(p.subrange(0, 4) == i32_bytes(dx));
            assert(p.subrange(4, 8) == i32_bytes(dy));
        },
        CommandView::MouseButtonPressed(_) => {},
        CommandView::MouseButtonReleased(_) => {},
        CommandView::MouseScroll(MouseScroll::Vertical(v)) => {
            lemma_i32_round_trip(v);
            assert(p.subrange(1, 5) == i32_bytes(v));
        },
        CommandView::MouseScroll(MouseScroll::Horizontal(v)) => {
            lemma_i32_round_trip(v);
            assert(p.subrange(1, 5) == i32_bytes(v));
        },
        CommandView::KeyPressed(k) => {
            assert(p == spec_u32_to_le_bytes(k));
        },
        CommandView::KeyReleased(k) => {
            assert(p == spec_u32_to_le_bytes(k));
        },
        CommandView::InputText(s) => {
            lemma_text_round_trip(s);
            assert(p == text_bytes(s));
        },
        CommandView::SetClipboard(s) => {
            lemma_text_round_trip(s);
            assert(p == text_bytes(s));
        },
    }
}

/// Decoding the bytes of an answer gives back that answer.
pub proof fn lemma_answer_round_trip(a: AnswerView)
    requires
        answer_fits(a),
    ensures
        answer_of(answer_bytes(a)) == Some(a),
{
    let b = answer_bytes(a);
    match a {
        AnswerView::ClipboardContents(s) => {
            lemma_text_round_trip(s);
            assert(b.subrange(1, b.len() as int) == text_bytes(s));
        },
    }
}

} // verus!
