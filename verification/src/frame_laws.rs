//! What holds of the frame codec as a whole: classification is decided by
//! the flag alone and is exclusive, and encoding and decoding undo each other.

use vstd::prelude::*;
use crate::frame::{
    classify_spec, decode_command_spec, decode_message_spec, direction_byte, direction_of,
    encode_command_spec, encode_message_header_spec, encode_message_spec, Command, DecodeError,
    FrameKind, MessageView, COMMAND_FLAG, COMMAND_SIZE, MESSAGE_FLAG, MESSAGE_HEADER_SIZE,
};
use crate::wire::{
    be16, be32, be64, bytes16, bytes32, bytes64, lemma_be16_at, lemma_be16_range, lemma_be32_at,
    lemma_be32_range, lemma_be32_window, lemma_be64_at, lemma_be64_range, lemma_bytes16_of_be16,
    lemma_bytes32_of_be32, lemma_bytes64_of_be64,
};

verus! {

/// Whether `b` opens with the four bytes that spell `flag`.
pub open spec fn opens_with(b: Seq<u8>, flag: u32) -> bool {
    b.len() >= 4 && be32(b, 0) == flag
}

/// Every buffer is of exactly one kind: a command where it opens with the
/// command flag, a message where it opens with the message flag, and
/// unrecognized where it opens with neither. No buffer opens with both.
pub proof fn lemma_classify_total_and_exclusive(b: Seq<u8>)
    ensures
        classify_spec(b) == FrameKind::Command <==> opens_with(b, COMMAND_FLAG),
        classify_spec(b) == FrameKind::Message <==> opens_with(b, MESSAGE_FLAG),
        classify_spec(b) == FrameKind::Unrecognized <==> !opens_with(b, COMMAND_FLAG)
            && !opens_with(b, MESSAGE_FLAG),
        !(opens_with(b, COMMAND_FLAG) && opens_with(b, MESSAGE_FLAG)),
{
}

/// Classification reads the flag and nothing else: two buffers with the
/// same first four bytes are of the same kind.
pub proof fn lemma_classify_reads_flag_only(a: Seq<u8>, b: Seq<u8>)
    requires
        a.len() >= 4,
        b.len() >= 4,
        a.subrange(0, 4) == b.subrange(0, 4),
    ensures
        classify_spec(a) == classify_spec(b),
{
    lemma_be32_window(a, 0, b, 0);
}

/// A buffer decodes only as the kind that it classifies as, and a buffer of
/// another kind is refused as such, whatever else it holds.
pub proof fn lemma_decode_agrees_with_classify(b: Seq<u8>)
    ensures
        decode_command_spec(b) == Err::<Command, DecodeError>(DecodeError::WrongKind)
            <==> classify_spec(b) != FrameKind::Command,
        decode_message_spec(b) == Err::<MessageView, DecodeError>(DecodeError::WrongKind)
            <==> classify_spec(b) != FrameKind::Message,
        !(decode_command_spec(b) is Ok && decode_message_spec(b) is Ok),
{
}

/// The fields of an encoded command, read back one by one.
pub proof fn lemma_encoded_command_fields(c: Command)
    ensures
        encode_command_spec(c).len() == COMMAND_SIZE,
        be32(encode_command_spec(c), 0) == COMMAND_FLAG,
        be16(encode_command_spec(c), 4) == c.version,
        encode_command_spec(c)[6] == direction_byte(c.direction),
        encode_command_spec(c)[7] == c.status,
        be32(encode_command_spec(c), 8) == c.opcode,
        be32(encode_command_spec(c), 12) == c.device,
        be64(encode_command_spec(c), 16) == c.sender,
        be64(encode_command_spec(c), 24) == c.sequence,
{
    let e = encode_command_spec(c);
    assert(e.len() == 32);
    assert(e.subrange(0, 4) =~= bytes32(COMMAND_FLAG as int));
    assert(e.subrange(4, 6) =~= bytes16(c.version as int));
    assert(e.subrange(8, 12) =~= bytes32(c.opcode as int));
    assert(e.subrange(12, 16) =~= bytes32(c.device as int));
    assert(e.subrange(16, 24) =~= bytes64(c.sender as int));
    assert(e.subrange(24, 32) =~= bytes64(c.sequence as int));
    lemma_be32_at(e, 0, COMMAND_FLAG as int);
    lemma_be16_at(e, 4, c.version as int);
    lemma_be32_at(e, 8, c.opcode as int);
    lemma_be32_at(e, 12, c.device as int);
    lemma_be64_at(e, 16, c.sender as int);
    lemma_be64_at(e, 24, c.sequence as int);
}

/// Decoding undoes encoding: every well-formed command comes back from its
/// own frame.
pub proof fn lemma_command_decode_encode(c: Command)
    requires
        c.wf(),
    ensures
        decode_command_spec(encode_command_spec(c)) == Ok::<Command, DecodeError>(c),
{
    lemma_encoded_command_fields(c);
}

/// Encoding undoes decoding: a buffer that decodes as a command is the
/// frame of that command, byte for byte.
pub proof fn lemma_command_encode_decode(b: Seq<u8>)
    requires
        decode_command_spec(b) is Ok,
    ensures
        encode_command_spec(decode_command_spec(b)->Ok_0) == b,
{
    let c = decode_command_spec(b)->Ok_0;
    let flag = bytes32(COMMAND_FLAG as int);
    let version = bytes16(c.version as int);
    let marks = seq![direction_byte(c.direction), c.status];
    let opcode = bytes32(c.opcode as int);
    let device = bytes32(c.device as int);
    let sender = bytes64(c.sender as int);
    let sequence = bytes64(c.sequence as int);
    assert(flag == b.subrange(0, 4)) by {
        lemma_bytes32_of_be32(b, 0);
    }
    assert(version == b.subrange(4, 6)) by {
        lemma_be16_range(b, 4);
        lemma_bytes16_of_be16(b, 4);
    }
    assert(marks == b.subrange(6, 8)) by {
        assert(direction_byte(direction_of(b[6])->Some_0) == b[6]);
        assert(marks =~= b.subrange(6, 8));
    }
    assert(opcode == b.subrange(8, 12)) by {
        lemma_be32_range(b, 8);
        lemma_bytes32_of_be32(b, 8);
    }
    assert(device == b.subrange(12, 16)) by {
        lemma_be32_range(b, 12);
        lemma_bytes32_of_be32(b, 12);
    }
    assert(sender == b.subrange(16, 24)) by {
        lemma_be64_range(b, 16);
        lemma_bytes64_of_be64(b, 16);
    }
    assert(sequence == b.subrange(24, 32)) by {
        lemma_be64_range(b, 24);
        lemma_bytes64_of_be64(b, 24);
    }
    assert(encode_command_spec(c) == flag + version + marks + opcode + device + sender + sequence);
    assert(b =~= b.subrange(0, 4) + b.subrange(4, 6) + b.subrange(6, 8) + b.subrange(8, 12)
        + b.subrange(12, 16) + b.subrange(16, 24) + b.subrange(24, 32));
}

/// Round-trip stability for commands: decoding the frame of a decoded
/// command gives the same command as decoding the buffer it came from.
pub proof fn lemma_command_round_trip(b: Seq<u8>)
    requires
        decode_command_spec(b) is Ok,
    ensures
        decode_command_spec(encode_command_spec(decode_command_spec(b)->Ok_0))
            == decode_command_spec(b),
{
    lemma_command_encode_decode(b);
}

/// The fields of an encoded message, read back one by one.
pub proof fn lemma_encoded_message_fields(m: MessageView)
    requires
        m.payload.len() <= u32::MAX,
    ensures
        encode_message_spec(m).len() == MESSAGE_HEADER_SIZE + m.payload.len(),
        be32(encode_message_spec(m), 0) == MESSAGE_FLAG,
        be16(encode_message_spec(m), 4) == m.version,
        encode_message_spec(m)[6] == direction_byte(m.direction),
        encode_message_spec(m)[7] == m.status,
        be64(encode_message_spec(m), 8) == m.sender,
        be64(encode_message_spec(m), 16) == m.receiver,
        be64(encode_message_spec(m), 24) == m.sequence,
        be32(encode_message_spec(m), 32) == m.payload.len(),
        encode_message_spec(m).subrange(
            MESSAGE_HEADER_SIZE as int,
            encode_message_spec(m).len() as int,
        ) == m.payload,
{
    let h = encode_message_header_spec(m);
    let e = encode_message_spec(m);
    assert(h.len() == 36);
    assert(e.subrange(0, 4) =~= bytes32(MESSAGE_FLAG as int));
    assert(e.subrange(4, 6) =~= bytes16(m.version as int));
    assert(e.subrange(8, 16) =~= bytes64(m.sender as int));
    assert(e.subrange(16, 24) =~= bytes64(m.receiver as int));
    assert(e.subrange(24, 32) =~= bytes64(m.sequence as int));
    assert(e.subrange(32, 36) =~= bytes32(m.payload.len() as int));
    assert(e.subrange(36, e.len() as int) =~= m.payload);
    assert(e[6] == h[6] && e[7] == h[7]);
    lemma_be32_at(e, 0, MESSAGE_FLAG as int);
    lemma_be16_at(e, 4, m.version as int);
    lemma_be64_at(e, 8, m.sender as int);
    lemma_be64_at(e, 16, m.receiver as int);
    lemma_be64_at(e, 24, m.sequence as int);
    lemma_be32_at(e, 32, m.payload.len() as int);
}

/// Decoding undoes encoding: every well-formed message comes back from its
/// own frame.
pub proof fn lemma_message_decode_encode(m: MessageView)
    requires
        m.wf(),
    ensures
        decode_message_spec(encode_message_spec(m)) == Ok::<MessageView, DecodeError>(m),
{
    lemma_encoded_message_fields(m);
    let d = decode_message_spec(encode_message_spec(m));
    assert(d is Ok);
    assert(d->Ok_0.payload =~= m.payload);
}

/// Encoding undoes decoding: a buffer that decodes as a message is the
/// frame of that message, byte for byte.
pub proof fn lemma_message_encode_decode(b: Seq<u8>)
    requires
        decode_message_spec(b) is Ok,
    ensures
        encode_message_spec(decode_message_spec(b)->Ok_0) == b,
{
    let m = decode_message_spec(b)->Ok_0;
    let flag = bytes32(MESSAGE_FLAG as int);
    let version = bytes16(m.version as int);
    let marks = seq![direction_byte(m.direction), m.status];
    let sender = bytes64(m.sender as int);
    let receiver = bytes64(m.receiver as int);
    let sequence = bytes64(m.sequence as int);
    let length = bytes32(m.payload.len() as int);
    assert(flag == b.subrange(0, 4)) by {
        lemma_bytes32_of_be32(b, 0);
    }
    assert(version == b.subrange(4, 6)) by {
        lemma_be16_range(b, 4);
        lemma_bytes16_of_be16(b, 4);
    }
    assert(marks == b.subrange(6, 8)) by {
        assert(direction_byte(direction_of(b[6])->Some_0) == b[6]);
        assert(marks =~= b.subrange(6, 8));
    }
    assert(sender == b.subrange(8, 16)) by {
        lemma_be64_range(b, 8);
        lemma_bytes64_of_be64(b, 8);
    }
    assert(receiver == b.subrange(16, 24)) by {
        lemma_be64_range(b, 16);
        lemma_bytes64_of_be64(b, 16);
    }
    assert(sequence == b.subrange(24, 32)) by {
        lemma_be64_range(b, 24);
        lemma_bytes64_of_be64(b, 24);
    }
    assert(length == b.subrange(32, 36)) by {
        lemma_be32_range(b, 32);
        assert(m.payload.len() == be32(b, 32));
        lemma_bytes32_of_be32(b, 32);
    }
    assert(m.payload == b.subrange(36, b.len() as int));
    assert(encode_message_spec(m) == flag + version + marks + sender + receiver + sequence + length
        + m.payload);
    assert(b =~= b.subrange(0, 4) + b.subrange(4, 6) + b.subrange(6, 8) + b.subrange(8, 16)
        + b.subrange(16, 24) + b.subrange(24, 32) + b.subrange(32, 36) + b.subrange(
        36,
        b.len() as int,
    ));
}

/// Round-trip stability for messages: decoding the frame of a decoded
/// message gives the same message as decoding the buffer it came from.
pub proof fn lemma_message_round_trip(b: Seq<u8>)
    requires
        decode_message_spec(b) is Ok,
    ensures
        decode_message_spec(encode_message_spec(decode_message_spec(b)->Ok_0))
            == decode_message_spec(b),
{
    lemma_message_encode_decode(b);
}

/// An encoded frame is of the kind that it was encoded as.
pub proof fn lemma_encoded_kind(c: Command, m: MessageView)
    requires
        m.payload.len() <= u32::MAX,
    ensures
        classify_spec(encode_command_spec(c)) == FrameKind::Command,
        classify_spec(encode_message_spec(m)) == FrameKind::Message,
{
    lemma_encoded_command_fields(c);
    lemma_encoded_message_fields(m);
}

} // verus!
