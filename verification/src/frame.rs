//! The frame codec.
//!
//! A frame opens with a four-byte flag. One flag marks a command frame, which
//! is always `COMMAND_SIZE` bytes long; another marks a message frame, which
//! is a header of `MESSAGE_HEADER_SIZE` bytes followed by as many payload
//! bytes as the header's last field declares. Anything else is unrecognized.
//!
//! Command frame:
//!
//! | bytes   | field                         |
//! |---------|-------------------------------|
//! | 0..4    | flag, `COMMAND_FLAG`          |
//! | 4..6    | version, `1..=MAX_VERSION`    |
//! | 6       | direction, 0 request, 1 reply |
//! | 7       | status                        |
//! | 8..12   | opcode                        |
//! | 12..16  | device                        |
//! | 16..24  | sender                        |
//! | 24..32  | sequence                      |
//!
//! Message frame:
//!
//! | bytes   | field                         |
//! |---------|-------------------------------|
//! | 0..4    | flag, `MESSAGE_FLAG`          |
//! | 4..6    | version, `1..=MAX_VERSION`    |
//! | 6       | direction, 0 request, 1 reply |
//! | 7       | status                        |
//! | 8..16   | sender                        |
//! | 16..24  | receiver                      |
//! | 24..32  | sequence                      |
//! | 32..36  | payload length                |
//! | 36..    | payload                       |

use vstd::prelude::*;
use vstd::slice::slice_subrange;
use vstd::slice::slice_to_vec;
use crate::wire::{be16, be32, be64, bytes16, bytes32, bytes64, put_bytes, put_u16, put_u32, put_u64, read_u16, read_u32, read_u64};

verus! {

/// The flag that opens a command frame.
pub const COMMAND_FLAG: u32 = 0x4243_4D43;

/// The flag that opens a message frame.
pub const MESSAGE_FLAG: u32 = 0x4243_4D4D;

/// The length of the flag, which is all that classification reads.
pub const FLAG_SIZE: usize = 4;

/// The length of every command frame.
pub const COMMAND_SIZE: usize = 32;

/// The length of a message frame's header.
pub const MESSAGE_HEADER_SIZE: usize = 36;

/// The highest protocol version that this codec accepts; the lowest is 1.
pub const MAX_VERSION: u16 = 1;

/// What a buffer is, judged by its flag alone.
#[derive(Clone, Copy, Debug, PartialEq, Eq, Structural)]
pub enum FrameKind {
    Command,
    Message,
    Unrecognized,
}

/// Whether a frame asks or answers.
#[derive(Clone, Copy, Debug, PartialEq, Eq, Structural)]
pub enum Direction {
    Request,
    Reply,
}

/// Why a buffer is not the frame it was decoded as.
#[derive(Clone, Copy, Debug, PartialEq, Eq, Structural)]
pub enum DecodeError {
    /// The flag is not that of the frame kind asked for.
    WrongKind,
    /// The buffer ends before the frame does.
    Truncated,
    /// The buffer goes on after the frame has ended.
    Oversized,
    /// The version is 0 or above `MAX_VERSION`.
    UnsupportedVersion,
    /// The direction byte is neither 0 nor 1.
    BadDirection,
}

/// A decoded command frame.
#[derive(Clone, Copy, Debug, PartialEq, Eq, Structural)]
pub struct Command {
    pub version: u16,
    pub direction: Direction,
    pub status: u8,
    pub opcode: u32,
    pub device: u32,
    pub sender: u64,
    pub sequence: u64,
}

/// A decoded message frame.
#[derive(Clone, Debug, PartialEq, Eq)]
pub struct Message {
    pub version: u16,
    pub direction: Direction,
    pub status: u8,
    pub sender: u64,
    pub receiver: u64,
    pub sequence: u64,
    pub payload: Vec<u8>,
}

/// What a `Message` stands for: its fields, with the payload as a sequence.
pub struct MessageView {
    pub version: u16,
    pub direction: Direction,
    pub status: u8,
    pub sender: u64,
    pub receiver: u64,
    pub sequence: u64,
    pub payload: Seq<u8>,
}

impl View for Message {
    type V = MessageView;

    open spec fn view(&self) -> MessageView {
        MessageView {
            version: self.version,
            direction: self.direction,
            status: self.status,
            sender: self.sender,
            receiver: self.receiver,
            sequence: self.sequence,
            payload: self.payload@,
        }
    }
}

/// Whether `version` is one that the codec accepts.
pub open spec fn version_supported(version: int) -> bool {
    1 <= version <= MAX_VERSION
}

/// The byte that stands for a direction.
pub open spec fn direction_byte(direction: Direction) -> u8 {
    match direction {
        Direction::Request => 0u8,
        Direction::Reply => 1u8,
    }
}

/// The direction that a byte stands for, if it stands for one.
pub open spec fn direction_of(byte: u8) -> Option<Direction> {
    if byte == 0 {
        Some(Direction::Request)
    } else if byte == 1 {
        Some(Direction::Reply)
    } else {
        None
    }
}

impl Command {
    /// A command that `decode_command` can return: its version is supported.
    pub open spec fn wf(self) -> bool {
        version_supported(self.version as int)
    }

    /// Tells whether the command is well formed.
    pub fn well_formed(&self) -> (r: bool)
        ensures
            r == self.wf(),
    {
        1 <= self.version && self.version <= MAX_VERSION
    }
}

impl MessageView {
    /// A message that `decode_message` can return: its version is supported
    /// and the length of its payload fits the header's four-byte field.
    pub open spec fn wf(self) -> bool {
        &&& version_supported(self.version as int)
        &&& self.payload.len() <= u32::MAX
    }
}

impl Message {
    /// Tells whether the message is well formed.
    pub fn well_formed(&self) -> (r: bool)
        ensures
            r == self@.wf(),
    {
        1 <= self.version && self.version <= MAX_VERSION && self.payload.len() <= 0xFFFF_FFFF
    }
}

/// The kind of a buffer: that of its flag, or unrecognized where the buffer
/// is too short to hold a flag or the flag is neither of the two.
pub open spec fn classify_spec(b: Seq<u8>) -> FrameKind {
    if b.len() < FLAG_SIZE {
        FrameKind::Unrecognized
    } else if be32(b, 0) == COMMAND_FLAG {
        FrameKind::Command
    } else if be32(b, 0) == MESSAGE_FLAG {
        FrameKind::Message
    } else {
        FrameKind::Unrecognized
    }
}

/// The command that a buffer holds, or the first reason why it holds none:
/// the flag, then the length, then the version, then the direction.
pub open spec fn decode_command_spec(b: Seq<u8>) -> Result<Command, DecodeError> {
    if classify_spec(b) != FrameKind::Command {
        Err(DecodeError::WrongKind)
    } else if b.len() < COMMAND_SIZE {
        Err(DecodeError::Truncated)
    } else if b.len() > COMMAND_SIZE {
        Err(DecodeError::Oversized)
    } else if !version_supported(be16(b, 4)) {
        Err(DecodeError::UnsupportedVersion)
    } else if direction_of(b[6]) is None {
        Err(DecodeError::BadDirection)
    } else {
        Ok(
            Command {
                version: be16(b, 4) as u16,
                direction: direction_of(b[6])->Some_0,
                status: b[7],
                opcode: be32(b, 8) as u32,
                device: be32(b, 12) as u32,
                sender: be64(b, 16) as u64,
                sequence: be64(b, 24) as u64,
            },
        )
    }
}

/// The message that a buffer holds, or the first reason why it holds none:
/// the flag, then the header's length, then the length that the header
/// declares for the whole frame, then the version, then the direction.
pub open spec fn decode_message_spec(b: Seq<u8>) -> Result<MessageView, DecodeError> {
    if classify_spec(b) != FrameKind::Message {
        Err(DecodeError::WrongKind)
    } else if b.len() < MESSAGE_HEADER_SIZE {
        Err(DecodeError::Truncated)
    } else if b.len() < MESSAGE_HEADER_SIZE + be32(b, 32) {
        Err(DecodeError::Truncated)
    } else if b.len() > MESSAGE_HEADER_SIZE + be32(b, 32) {
        Err(DecodeError::Oversized)
    } else if !version_supported(be16(b, 4)) {
        Err(DecodeError::UnsupportedVersion)
    } else if direction_of(b[6]) is None {
        Err(DecodeError::BadDirection)
    } else {
        Ok(
            MessageView {
                version: be16(b, 4) as u16,
                direction: direction_of(b[6])->Some_0,
                status: b[7],
                sender: be64(b, 8) as u64,
                receiver: be64(b, 16) as u64,
                sequence: be64(b, 24) as u64,
                payload: b.subrange(MESSAGE_HEADER_SIZE as int, b.len() as int),
            },
        )
    }
}

/// The bytes of a command frame.
pub open spec fn encode_command_spec(c: Command) -> Seq<u8> {
    bytes32(COMMAND_FLAG as int) + bytes16(c.version as int) + seq![
        direction_byte(c.direction),
        c.status,
    ] + bytes32(c.opcode as int) + bytes32(c.device as int) + bytes64(c.sender as int) + bytes64(
        c.sequence as int,
    )
}

/// The bytes of a message frame's header.
pub open spec fn encode_message_header_spec(m: MessageView) -> Seq<u8> {
    bytes32(MESSAGE_FLAG as int) + bytes16(m.version as int) + seq![
        direction_byte(m.direction),
        m.status,
    ] + bytes64(m.sender as int) + bytes64(m.receiver as int) + bytes64(m.sequence as int)
        + bytes32(m.payload.len() as int)
}

/// The bytes of a message frame: the header, then the payload.
pub open spec fn encode_message_spec(m: MessageView) -> Seq<u8> {
    encode_message_header_spec(m) + m.payload
}

/// Tells what a buffer is. Reads no byte beyond the flag.
pub fn classify(buffer: &[u8]) -> (kind: FrameKind)
    ensures
        kind == classify_spec(buffer@),
{
    if buffer.len() < FLAG_SIZE {
        return FrameKind::Unrecognized;
    }
    let flag: u32 = read_u32(buffer, 0);
    if flag == COMMAND_FLAG {
        FrameKind::Command
    } else if flag == MESSAGE_FLAG {
        FrameKind::Message
    } else {
        FrameKind::Unrecognized
    }
}

/// Decodes a command frame that fills `buffer` exactly.
pub fn decode_command(buffer: &[u8]) -> (r: Result<Command, DecodeError>)
    ensures
        r == decode_command_spec(buffer@),
        r is Ok ==> r->Ok_0.wf(),
{
    match classify(buffer) {
        FrameKind::Command => {},
        _ => {
            return Err(DecodeError::WrongKind);
        },
    }
    if buffer.len() < COMMAND_SIZE {
        return Err(DecodeError::Truncated);
    }
    if buffer.len() > COMMAND_SIZE {
        return Err(DecodeError::Oversized);
    }
    let version: u16 = read_u16(buffer, 4);
    if version < 1 || version > MAX_VERSION {
        return Err(DecodeError::UnsupportedVersion);
    }
    let direction = match buffer[6] {
        0 => Direction::Request,
        1 => Direction::Reply,
        _ => {
            return Err(DecodeError::BadDirection);
        },
    };
    Ok(
        Command {
            version,
            direction,
            status: buffer[7],
            opcode: read_u32(buffer, 8),
            device: read_u32(buffer, 12),
            sender: read_u64(buffer, 16),
            sequence: read_u64(buffer, 24),
        },
    )
}

/// Decodes a message frame that fills `buffer` exactly: the header and as
/// many payload bytes as the header declares, no fewer and no more.
pub fn decode_message(buffer: &[u8]) -> (r: Result<Message, DecodeError>)
    ensures
        match r {
            Ok(m) => decode_message_spec(buffer@) == Ok::<MessageView, DecodeError>(m@) && m@.wf(),
            Err(e) => decode_message_spec(buffer@) == Err::<MessageView, DecodeError>(e),
        },
{
    match classify(buffer) {
        FrameKind::Message => {},
        _ => {
            return Err(DecodeError::WrongKind);
        },
    }
    if buffer.len() < MESSAGE_HEADER_SIZE {
        return Err(DecodeError::Truncated);
    }
    let declared: u64 = 36u64 + (read_u32(buffer, 32) as u64);
    let supplied: u64 = buffer.len() as u64;
    if supplied < declared {
        return Err(DecodeError::Truncated);
    }
    if supplied > declared {
        return Err(DecodeError::Oversized);
    }
    let version: u16 = read_u16(buffer, 4);
    if version < 1 || version > MAX_VERSION {
        return Err(DecodeError::UnsupportedVersion);
    }
    let direction = match buffer[6] {
        0 => Direction::Request,
        1 => Direction::Reply,
        _ => {
            return Err(DecodeError::BadDirection);
        },
    };
    let payload = slice_to_vec(slice_subrange(buffer, MESSAGE_HEADER_SIZE, buffer.len()));
    Ok(
        Message {
            version,
            direction,
            status: buffer[7],
            sender: read_u64(buffer, 8),
            receiver: read_u64(buffer, 16),
            sequence: read_u64(buffer, 24),
            payload,
        },
    )
}

/// The byte that stands for `direction`.
fn direction_to_byte(direction: Direction) -> (byte: u8)
    ensures
        byte == direction_byte(direction),
{
    match direction {
        Direction::Request => 0,
        Direction::Reply => 1,
    }
}

/// Encodes a command frame.
pub fn encode_command(command: &Command) -> (out: Vec<u8>)
    ensures
        out@ == encode_command_spec(*command),
        out@.len() == COMMAND_SIZE,
{
    let mut out: Vec<u8> = Vec::with_capacity(COMMAND_SIZE);
    put_u32(&mut out, COMMAND_FLAG);
    put_u16(&mut out, command.version);
    out.push(direction_to_byte(command.direction));
    out.push(command.status);
    put_u32(&mut out, command.opcode);
    put_u32(&mut out, command.device);
    put_u64(&mut out, command.sender);
    put_u64(&mut out, command.sequence);
    assert(out@ =~= encode_command_spec(*command));
    out
}

/// Encodes a message frame. The payload's length must fit the header's
/// four-byte field.
pub fn encode_message(message: &Message) -> (out: Vec<u8>)
    requires
        message.payload@.len() <= u32::MAX,
    ensures
        out@ == encode_message_spec(message@),
        out@.len() == MESSAGE_HEADER_SIZE + message.payload@.len(),
{
    let mut out: Vec<u8> = Vec::new();
    put_u32(&mut out, MESSAGE_FLAG);
    put_u16(&mut out, message.version);
    out.push(direction_to_byte(message.direction));
    out.push(message.status);
    put_u64(&mut out, message.sender);
    put_u64(&mut out, message.receiver);
    put_u64(&mut out, message.sequence);
    put_u32(&mut out, message.payload.len() as u32);
    assert(out@ =~= encode_message_header_spec(message@));
    put_bytes(&mut out, message.payload.as_slice());
    out
}

} // verus!
