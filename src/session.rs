use vstd::prelude::*;

use crate::codec::{
    answer_error, answer_of, command_error, command_of, decode_answer, decode_command, CodecError,
};
use crate::replay::{modifiers_after, position_after, replay_spec, Replay, ReplayState};
use crate::wire::{Answer, AnswerView};

verus! {

/// One frame of the full-duplex message channel.
#[derive(Clone, Debug, PartialEq, Eq)]
pub enum Frame {
    Binary(Vec<u8>),
    Text(String),
    Ping(Vec<u8>),
    Pong(Vec<u8>),
    Close,
}

/// What the replay side does with one inbound frame.
#[derive(Clone, Debug, PartialEq, Eq)]
pub enum ServerStep {
    /// Perform the replayed command.
    Perform(Replay),
    /// Echo the payload back in a pong.
    SendPong(Vec<u8>),
    /// Nothing to do.
    Skip,
    /// The peer closed the channel: stop reading.
    Stop,
    /// The message is malformed: drop the connection.
    Fail(CodecError),
}

/// What the capture side does with one inbound frame.
#[derive(Clone, Debug, PartialEq, Eq)]
pub enum ClientStep {
    /// Put the text in the local clipboard.
    SetClipboard(String),
    /// Echo the payload back in a pong.
    SendPong(Vec<u8>),
    /// Nothing to do.
    Skip,
    /// The peer closed the channel: stop reading.
    Stop,
    /// The message is malformed: drop the connection.
    Fail(CodecError),
}

/// Decides what the replay side does with `frame`: a binary frame is
/// decoded and replayed, a ping is answered, a close ends the loop.
pub fn server_step(state: &mut ReplayState, frame: Frame) -> (r: ServerStep)
    ensures
        match frame {
            Frame::Binary(b) => match command_of(b@) {
                Some(c) => {
                    &&& r matches ServerStep::Perform(rep) && replay_spec(
                        *old(state),
                        c,
                        rep.actions@,
                        rep.send_clipboard,
                    )
                    &&& final(state).position == position_after(old(state).position, c)
                    &&& final(state).modifiers == modifiers_after(old(state).modifiers, c)
                },
                None => r == ServerStep::Fail(command_error(b@)) && *final(state) == *old(state),
            },
            Frame::Ping(p) => r == ServerStep::SendPong(p) && *final(state) == *old(state),
            Frame::Close => r == ServerStep::Stop && *final(state) == *old(state),
            _ => r == ServerStep::Skip && *final(state) == *old(state),
        },
{
    match frame {
        Frame::Binary(b) => match decode_command(b.as_slice()) {
            Ok(command) => ServerStep::Perform(state.process_command(command)),
            Err(e) => ServerStep::Fail(e),
        },
        Frame::Ping(p) => ServerStep::SendPong(p),
        Frame::Close => ServerStep::Stop,
        _ => ServerStep::Skip,
    }
}

/// Decides what the capture side does with `frame`: a binary frame is
/// decoded as an answer, a ping is answered, a close ends the loop.
pub fn client_step(frame: Frame) -> (r: ClientStep)
    ensures
        match frame {
            Frame::Binary(b) => match answer_of(b@) {
                Some(AnswerView::ClipboardContents(s)) => r matches ClientStep::SetClipboard(t)
                    && t@ == s,
                None => r == ClientStep::Fail(answer_error(b@)),
            },
            Frame::Ping(p) => r == ClientStep::SendPong(p),
            Frame::Close => r == ClientStep::Stop,
            _ => r == ClientStep::Skip,
        },
{
    match frame {
        Frame::Binary(b) => match decode_answer(b.as_slice()) {
            Ok(Answer::ClipboardContents(s)) => ClientStep::SetClipboard(s),
            Err(e) => ClientStep::Fail(e),
        },
        Frame::Ping(p) => ClientStep::SendPong(p),
        Frame::Close => ClientStep::Stop,
        _ => ClientStep::Skip,
    }
}

} // verus!
