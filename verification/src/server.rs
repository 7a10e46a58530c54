//! The decisions of the protocol server loop.
//!
//! The loop itself waits for bytes on a stream and writes bytes back; what
//! lies between is decided here, chunk by chunk and without any state: which
//! frame a chunk holds, what is written back, and what goes to the message
//! event queue. A chunk that cannot be decoded is reported and changes
//! nothing for the chunks that follow.
//!
//! What is done with a chunk that is no frame is a matter of policy: it is
//! echoed or dropped, as the caller chooses. `read_chunk` and the three
//! transforms are public one by one, so that a loop which answers frames in
//! another way can keep the framing and replace only the transform.

use vstd::prelude::*;
use vstd::slice::slice_to_vec;
use crate::frame::{
    classify, classify_spec, decode_command, decode_command_spec, decode_message,
    decode_message_spec, encode_command, encode_command_spec, encode_message, encode_message_spec,
    Command, DecodeError, Direction, FrameKind, Message, MessageView,
};
use crate::queue::{MessageEvent, MessageEventView};

verus! {

/// The status of a reply that reports no failure.
pub const STATUS_OK: u8 = 0;

/// The receiver field of a message that names no destination.
pub const NO_RECEIVER: u64 = 0;

/// What is done with a chunk that is no frame.
#[derive(Clone, Copy, Debug, PartialEq, Eq, Structural)]
pub enum Fallback {
    /// The chunk is written back as it came.
    Echo,
    /// The chunk is dropped and nothing is written.
    Discard,
}

/// What a chunk of bytes turned out to hold.
#[derive(Clone, Debug, PartialEq, Eq)]
pub enum Inbound {
    /// A command frame.
    Command(Command),
    /// A message frame.
    Message(Message),
    /// No frame: the chunk opens with neither flag.
    Unrecognized,
    /// A frame by its flag, but not a valid one.
    Malformed(DecodeError),
}

/// What an `Inbound` stands for.
pub enum InboundView {
    Command(Command),
    Message(MessageView),
    Unrecognized,
    Malformed(DecodeError),
}

impl View for Inbound {
    type V = InboundView;

    open spec fn view(&self) -> InboundView {
        match *self {
            Inbound::Command(c) => InboundView::Command(c),
            Inbound::Message(m) => InboundView::Message(m@),
            Inbound::Unrecognized => InboundView::Unrecognized,
            Inbound::Malformed(e) => InboundView::Malformed(e),
        }
    }
}

/// What the loop is to do after a chunk.
#[derive(Clone, Debug, PartialEq, Eq)]
pub enum StreamAction {
    /// Write `frame` back.
    Reply { frame: Vec<u8> },
    /// Put `event` on the message event queue and write `frame` back.
    ReplyAndEnqueue { frame: Vec<u8>, event: MessageEvent },
    /// Write the chunk back as it came.
    Echo { bytes: Vec<u8> },
    /// Write nothing and go on.
    Discard,
    /// Report `error` and write nothing. The stream stays open.
    Report { error: DecodeError },
}

/// What a `StreamAction` stands for.
pub enum StreamActionView {
    Reply { frame: Seq<u8> },
    ReplyAndEnqueue { frame: Seq<u8>, event: MessageEventView },
    Echo { bytes: Seq<u8> },
    Discard,
    Report { error: DecodeError },
}

impl View for StreamAction {
    type V = StreamActionView;

    open spec fn view(&self) -> StreamActionView {
        match *self {
            StreamAction::Reply { frame } => StreamActionView::Reply { frame: frame@ },
            StreamAction::ReplyAndEnqueue { frame, event } => StreamActionView::ReplyAndEnqueue {
                frame: frame@,
                event: event@,
            },
            StreamAction::Echo { bytes } => StreamActionView::Echo { bytes: bytes@ },
            StreamAction::Discard => StreamActionView::Discard,
            StreamAction::Report { error } => StreamActionView::Report { error },
        }
    }
}

/// What a chunk holds: its kind decides how it is decoded, and a chunk of a
/// known kind that does not decode is malformed, never unrecognized.
pub open spec fn read_chunk_spec(b: Seq<u8>) -> InboundView {
    match classify_spec(b) {
        FrameKind::Command => match decode_command_spec(b) {
            Ok(c) => InboundView::Command(c),
            Err(e) => InboundView::Malformed(e),
        },
        FrameKind::Message => match decode_message_spec(b) {
            Ok(m) => InboundView::Message(m),
            Err(e) => InboundView::Malformed(e),
        },
        FrameKind::Unrecognized => InboundView::Unrecognized,
    }
}

/// The reply to a command: the command itself, turned into a reply that
/// reports no failure.
pub open spec fn reply_command_spec(c: Command) -> Command {
    Command {
        version: c.version,
        direction: Direction::Reply,
        status: STATUS_OK,
        opcode: c.opcode,
        device: c.device,
        sender: c.sender,
        sequence: c.sequence,
    }
}

/// The reply to a message: an acknowledgement with the message's header,
/// turned into a reply that reports no failure, and no payload.
pub open spec fn reply_message_spec(m: MessageView) -> MessageView {
    MessageView {
        version: m.version,
        direction: Direction::Reply,
        status: STATUS_OK,
        sender: m.sender,
        receiver: m.receiver,
        sequence: m.sequence,
        payload: Seq::empty(),
    }
}

/// The event that carries a message to delivery.
pub open spec fn event_of_spec(m: MessageView) -> MessageEventView {
    MessageEventView {
        sender: m.sender,
        destination: if m.receiver == NO_RECEIVER {
            None
        } else {
            Some(m.receiver)
        },
        sequence: m.sequence,
        payload: m.payload,
    }
}

/// What the loop does after a chunk `b` under the policy `fallback`.
pub open spec fn handle_chunk_with_spec(b: Seq<u8>, fallback: Fallback) -> StreamActionView {
    match read_chunk_spec(b) {
        InboundView::Command(c) => StreamActionView::Reply {
            frame: encode_command_spec(reply_command_spec(c)),
        },
        InboundView::Message(m) => StreamActionView::ReplyAndEnqueue {
            frame: encode_message_spec(reply_message_spec(m)),
            event: event_of_spec(m),
        },
        InboundView::Unrecognized => match fallback {
            Fallback::Echo => StreamActionView::Echo { bytes: b },
            Fallback::Discard => StreamActionView::Discard,
        },
        InboundView::Malformed(e) => StreamActionView::Report { error: e },
    }
}

/// What the loop does after a chunk `b` where chunks that are no frame are
/// echoed.
pub open spec fn handle_chunk_spec(b: Seq<u8>) -> StreamActionView {
    handle_chunk_with_spec(b, Fallback::Echo)
}

/// Classifies a chunk and decodes it as what it is.
pub fn read_chunk(chunk: &[u8]) -> (inbound: Inbound)
    ensures
        inbound@ == read_chunk_spec(chunk@),
{
    match classify(chunk) {
        FrameKind::Command => match decode_command(chunk) {
            Ok(command) => Inbound::Command(command),
            Err(error) => Inbound::Malformed(error),
        },
        FrameKind::Message => match decode_message(chunk) {
            Ok(message) => Inbound::Message(message),
            Err(error) => Inbound::Malformed(error),
        },
        FrameKind::Unrecognized => Inbound::Unrecognized,
    }
}

/// Builds the reply to a command.
pub fn reply_command(command: &Command) -> (reply: Command)
    ensures
        reply == reply_command_spec(*command),
{
    Command {
        version: command.version,
        direction: Direction::Reply,
        status: STATUS_OK,
        opcode: command.opcode,
        device: command.device,
        sender: command.sender,
        sequence: command.sequence,
    }
}

/// Builds the reply to a message.
pub fn reply_message(message: &Message) -> (reply: Message)
    ensures
        reply@ == reply_message_spec(message@),
{
    Message {
        version: message.version,
        direction: Direction::Reply,
        status: STATUS_OK,
        sender: message.sender,
        receiver: message.receiver,
        sequence: message.sequence,
        payload: Vec::new(),
    }
}

/// Builds the event that carries a message to delivery. The payload moves
/// into the event.
pub fn event_of(message: Message) -> (event: MessageEvent)
    ensures
        event@ == event_of_spec(message@),
{
    let destination = if message.receiver == NO_RECEIVER {
        None
    } else {
        Some(message.receiver)
    };
    MessageEvent {
        sender: message.sender,
        destination,
        sequence: message.sequence,
        payload: message.payload,
    }
}

/// Decides what the loop does after a chunk: a command is answered, a
/// message is answered and handed on, a chunk that is no frame is echoed,
/// and a frame that does not decode is reported.
pub fn handle_chunk(chunk: &[u8]) -> (action: StreamAction)
    ensures
        action@ == handle_chunk_spec(chunk@),
{
    handle_chunk_with(chunk, Fallback::Echo)
}

/// Decides what the loop does after a chunk, as `handle_chunk` does, but
/// treats a chunk that is no frame as `fallback` says.
pub fn handle_chunk_with(chunk: &[u8], fallback: Fallback) -> (action: StreamAction)
    ensures
        action@ == handle_chunk_with_spec(chunk@, fallback),
{
    match read_chunk(chunk) {
        Inbound::Command(command) => {
            let reply = reply_command(&command);
            StreamAction::Reply { frame: encode_command(&reply) }
        },
        Inbound::Message(message) => {
            let reply = reply_message(&message);
            let frame = encode_message(&reply);
            StreamAction::ReplyAndEnqueue { frame, event: event_of(message) }
        },
        Inbound::Unrecognized => match fallback {
            Fallback::Echo => StreamAction::Echo { bytes: slice_to_vec(chunk) },
            Fallback::Discard => StreamAction::Discard,
        },
        Inbound::Malformed(error) => StreamAction::Report { error },
    }
}

} // verus!
