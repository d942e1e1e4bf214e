use air::codec::{encode_answer, encode_command, CodecError};
use air::replay::ReplayState;
use air::session::{client_step, server_step, ClientStep, Frame, ServerStep};
use air::{Answer, Command};

#[test]
fn server_replays_binary_frames() {
    let mut state = ReplayState::new((0, 0));
    let bytes = encode_command(&Command::SetMouse { x: 8, y: 9 });
    match server_step(&mut state, Frame::Binary(bytes)) {
        ServerStep::Perform(r) => assert_eq!(r.actions.len(), 1),
        other => panic!("unexpected {:?}", other),
    }
    assert_eq!(state.position, (8, 9));
}

#[test]
fn server_answers_ping_and_stops_on_close() {
    let mut state = ReplayState::new((0, 0));
    assert_eq!(server_step(&mut state, Frame::Ping(vec![1, 2])), ServerStep::SendPong(vec![1, 2]));
    assert_eq!(server_step(&mut state, Frame::Pong(vec![])), ServerStep::Skip);
    assert_eq!(server_step(&mut state, Frame::Close), ServerStep::Stop);
}

#[test]
fn server_fails_on_malformed_message() {
    let mut state = ReplayState::new((3, 3));
    assert_eq!(server_step(&mut state, Frame::Binary(vec![42])), ServerStep::Fail(CodecError::UnknownTag(42)));
    assert_eq!(state.position, (3, 3));
}

#[test]
fn client_sets_clipboard_from_answer() {
    let bytes = encode_answer(&Answer::ClipboardContents(String::from("copied")));
    assert_eq!(client_step(Frame::Binary(bytes)), ClientStep::SetClipboard(String::from("copied")));
    assert_eq!(client_step(Frame::Binary(vec![])), ClientStep::Fail(CodecError::Empty));
    assert_eq!(client_step(Frame::Ping(vec![5])), ClientStep::SendPong(vec![5]));
    assert_eq!(client_step(Frame::Text(String::from("hi"))), ClientStep::Skip);
    assert_eq!(client_step(Frame::Close), ClientStep::Stop);
}
