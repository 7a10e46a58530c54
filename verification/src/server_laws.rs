//! What holds of the server loop's decisions for every chunk.

use vstd::prelude::*;
use crate::frame::{
    classify_spec, decode_command_spec, decode_message_spec, Command, DecodeError, FrameKind,
    MessageView, COMMAND_FLAG, COMMAND_SIZE, MESSAGE_FLAG, MESSAGE_HEADER_SIZE,
};
use crate::frame_laws::{
    lemma_command_decode_encode, lemma_encoded_command_fields, lemma_encoded_message_fields,
    lemma_message_decode_encode, opens_with,
};
use crate::server::{
    event_of_spec, handle_chunk_spec, handle_chunk_with_spec, reply_command_spec,
    reply_message_spec, Fallback, StreamActionView,
};
use crate::wire::be32;

verus! {

/// A well-formed command frame is answered with a well-formed command frame:
/// the answer has the fixed size, classifies as a command, and decodes to
/// the reply to the command that came.
pub proof fn lemma_command_is_answered(b: Seq<u8>)
    requires
        decode_command_spec(b) is Ok,
    ensures
        handle_chunk_spec(b) is Reply,
        handle_chunk_spec(b)->Reply_frame.len() == COMMAND_SIZE,
        classify_spec(handle_chunk_spec(b)->Reply_frame) == FrameKind::Command,
        decode_command_spec(handle_chunk_spec(b)->Reply_frame) == Ok::<Command, DecodeError>(
            reply_command_spec(decode_command_spec(b)->Ok_0),
        ),
{
    let reply = reply_command_spec(decode_command_spec(b)->Ok_0);
    lemma_encoded_command_fields(reply);
    lemma_command_decode_encode(reply);
}

/// A well-formed message frame is answered with a well-formed message frame
/// and handed on: the answer decodes to the acknowledgement of the message
/// that came, and the event carries that message's payload, byte for byte.
pub proof fn lemma_message_is_answered_and_handed_on(b: Seq<u8>)
    requires
        decode_message_spec(b) is Ok,
    ensures
        handle_chunk_spec(b) is ReplyAndEnqueue,
        classify_spec(handle_chunk_spec(b)->ReplyAndEnqueue_frame) == FrameKind::Message,
        decode_message_spec(handle_chunk_spec(b)->ReplyAndEnqueue_frame) == Ok::<
            MessageView,
            DecodeError,
        >(reply_message_spec(decode_message_spec(b)->Ok_0)),
        handle_chunk_spec(b)->ReplyAndEnqueue_event == event_of_spec(decode_message_spec(b)->Ok_0),
        handle_chunk_spec(b)->ReplyAndEnqueue_event.payload == b.subrange(
            MESSAGE_HEADER_SIZE as int,
            b.len() as int,
        ),
{
    let reply = reply_message_spec(decode_message_spec(b)->Ok_0);
    lemma_encoded_message_fields(reply);
    lemma_message_decode_encode(reply);
}

/// A chunk that opens with neither flag is echoed, byte for byte, and
/// nothing else is echoed.
pub proof fn lemma_unrecognized_is_echoed(b: Seq<u8>)
    ensures
        !opens_with(b, COMMAND_FLAG) && !opens_with(b, MESSAGE_FLAG) ==> handle_chunk_spec(b)
            == (StreamActionView::Echo { bytes: b }),
        handle_chunk_spec(b) is Echo ==> classify_spec(b) == FrameKind::Unrecognized,
{
}

/// The policy for chunks that are no frame touches nothing else: whatever
/// opens with one of the two flags is treated alike under every policy.
pub proof fn lemma_fallback_touches_only_unrecognized(b: Seq<u8>, fallback: Fallback)
    requires
        classify_spec(b) != FrameKind::Unrecognized,
    ensures
        handle_chunk_with_spec(b, fallback) == handle_chunk_spec(b),
{
}

/// Under the policy to discard, a chunk that is no frame is dropped, and
/// nothing else is.
pub proof fn lemma_unrecognized_is_discarded(b: Seq<u8>)
    ensures
        handle_chunk_with_spec(b, Fallback::Discard) is Discard <==> classify_spec(b)
            == FrameKind::Unrecognized,
{
}

/// A frame that does not decode is reported with the reason, and only such
/// a frame is.
pub proof fn lemma_malformed_is_reported(b: Seq<u8>)
    ensures
        classify_spec(b) == FrameKind::Command && decode_command_spec(b) is Err
            ==> handle_chunk_spec(b) == (StreamActionView::Report {
            error: decode_command_spec(b)->Err_0,
        }),
        classify_spec(b) == FrameKind::Message && decode_message_spec(b) is Err
            ==> handle_chunk_spec(b) == (StreamActionView::Report {
            error: decode_message_spec(b)->Err_0,
        }),
        handle_chunk_spec(b) is Report ==> classify_spec(b) != FrameKind::Unrecognized
            && !(decode_command_spec(b) is Ok) && !(decode_message_spec(b) is Ok),
{
}

/// A message frame that declares more payload than the chunk holds is
/// reported as truncated.
pub proof fn lemma_short_message_is_reported(b: Seq<u8>)
    requires
        opens_with(b, MESSAGE_FLAG),
        b.len() >= MESSAGE_HEADER_SIZE,
        MESSAGE_HEADER_SIZE + be32(b, 32) > b.len(),
    ensures
        handle_chunk_spec(b) == (StreamActionView::Report { error: DecodeError::Truncated }),
{
}

} // verus!
