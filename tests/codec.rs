use air::codec::{decode_answer, decode_command, encode_answer, encode_command, CodecError};
use air::{Answer, Command, MouseButton, MouseScroll};

fn all_commands() -> Vec<Command> {
    vec![
        Command::SetMouse { x: 100, y: -50 },
        Command::MoveMouse { dx: i32::MIN, dy: i32::MAX },
        Command::MouseButtonPressed(MouseButton::LEFT),
        Command::MouseButtonReleased(MouseButton::MOUSE5),
        Command::MouseScroll(MouseScroll::Vertical(-3)),
        Command::MouseScroll(MouseScroll::Horizontal(7)),
        Command::KeyPressed(0x1D),
        Command::KeyReleased(u32::MAX),
        Command::InputText(String::from("héllo ✓")),
        Command::SetClipboard(String::new()),
    ]
}

#[test]
fn command_round_trip() {
    for c in all_commands() {
        let bytes = encode_command(&c);
        assert_eq!(decode_command(&bytes), Ok(c));
    }
}

#[test]
fn answer_round_trip() {
    for s in ["", "clipboard", "ünïcødé 🙂"] {
        let a = Answer::ClipboardContents(String::from(s));
        let bytes = encode_answer(&a);
        assert_eq!(decode_answer(&bytes), Ok(a));
    }
}

#[test]
fn set_mouse_bytes() {
    let bytes = encode_command(&Command::SetMouse { x: 1, y: -1 });
    assert_eq!(bytes, vec![0, 1, 0, 0, 0, 0xff, 0xff, 0xff, 0xff]);
}

#[test]
fn text_bytes_carry_length() {
    let bytes = encode_command(&Command::InputText(String::from("ab")));
    assert_eq!(bytes, vec![7, 2, 0, 0, 0, 0, 0, 0, 0, b'a', b'b']);
}

#[test]
fn decode_empty_fails() {
    assert_eq!(decode_command(&[]), Err(CodecError::Empty));
    assert_eq!(decode_answer(&[]), Err(CodecError::Empty));
}

#[test]
fn decode_unknown_tag_fails() {
    assert_eq!(decode_command(&[9]), Err(CodecError::UnknownTag(9)));
    assert_eq!(decode_answer(&[1, 0]), Err(CodecError::UnknownTag(1)));
}

#[test]
fn decode_truncated_fails() {
    let bytes = encode_command(&Command::SetMouse { x: 3, y: 4 });
    assert_eq!(decode_command(&bytes[..bytes.len() - 1]), Err(CodecError::BadPayload));
    let mut longer = bytes.clone();
    longer.push(0);
    assert_eq!(decode_command(&longer), Err(CodecError::BadPayload));
}

#[test]
fn decode_bad_button_fails() {
    assert_eq!(decode_command(&[2, 5]), Err(CodecError::BadPayload));
    assert_eq!(decode_command(&[4, 2, 1, 0, 0, 0]), Err(CodecError::BadPayload));
}

#[test]
fn decode_invalid_utf8_fails() {
    let bytes = vec![8, 1, 0, 0, 0, 0, 0, 0, 0, 0xff];
    assert_eq!(decode_command(&bytes), Err(CodecError::BadPayload));
    let bytes = vec![0, 2, 0, 0, 0, 0, 0, 0, 0, 0xc3, 0x28];
    assert_eq!(decode_answer(&bytes), Err(CodecError::BadPayload));
}

#[test]
fn decode_valid_utf8_text() {
    let bytes = vec![8, 2, 0, 0, 0, 0, 0, 0, 0, 0xc3, 0xa9];
    assert_eq!(decode_command(&bytes), Ok(Command::SetClipboard(String::from("é"))));
}

#[test]
fn decode_wrong_text_length_fails() {
    let bytes = vec![7, 3, 0, 0, 0, 0, 0, 0, 0, b'a', b'b'];
    assert_eq!(decode_command(&bytes), Err(CodecError::BadPayload));
}
