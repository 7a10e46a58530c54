use bitcomm::frame::{
    decode_command, decode_message, encode_command, encode_message, Command, DecodeError,
    Direction, Message, COMMAND_SIZE,
};
use bitcomm::queue::MessageEvent;
use bitcomm::server::{
    event_of, handle_chunk, handle_chunk_with, read_chunk, reply_command, reply_message, Fallback,
    Inbound, StreamAction, NO_RECEIVER, STATUS_OK,
};

fn request() -> Command {
    Command {
        version: 1,
        direction: Direction::Request,
        status: 9,
        opcode: 17,
        device: 4,
        sender: 1234,
        sequence: 56,
    }
}

fn message(receiver: u64) -> Message {
    Message {
        version: 1,
        direction: Direction::Request,
        status: 3,
        sender: 11,
        receiver,
        sequence: 77,
        payload: vec![1, 2, 3, 4],
    }
}

#[test]
fn command_frame_is_answered_with_a_command_frame() {
    let chunk = encode_command(&request());
    assert_eq!(chunk.len(), COMMAND_SIZE);
    let action = handle_chunk(&chunk);
    let frame = match action {
        StreamAction::Reply { frame } => frame,
        other => panic!("unexpected action {:?}", other),
    };
    assert_eq!(frame.len(), COMMAND_SIZE);
    let reply = decode_command(&frame).unwrap();
    assert_eq!(
        reply,
        Command {
            version: 1,
            direction: Direction::Reply,
            status: 0,
            opcode: 17,
            device: 4,
            sender: 1234,
            sequence: 56,
        }
    );
    // The stream goes on: the next frame is answered as well.
    assert!(matches!(handle_chunk(&chunk), StreamAction::Reply { .. }));
}

#[test]
fn unrecognized_chunk_is_echoed_unchanged() {
    let chunk = b"neither flag opens this buffer".to_vec();
    assert_eq!(handle_chunk(&chunk), StreamAction::Echo { bytes: chunk.clone() });
    assert_eq!(handle_chunk(&[]), StreamAction::Echo { bytes: vec![] });
    assert_eq!(handle_chunk(&[0x42, 0x43]), StreamAction::Echo { bytes: vec![0x42, 0x43] });
    assert_eq!(read_chunk(&chunk), Inbound::Unrecognized);
}

#[test]
fn message_declaring_more_than_it_holds_is_reported() {
    let mut chunk = encode_message(&message(5));
    chunk[35] = 200;
    assert_eq!(handle_chunk(&chunk), StreamAction::Report { error: DecodeError::Truncated });
    assert_eq!(read_chunk(&chunk), Inbound::Malformed(DecodeError::Truncated));
    // The stream goes on: a good frame after the bad one is served.
    let good = encode_message(&message(5));
    assert!(matches!(handle_chunk(&good), StreamAction::ReplyAndEnqueue { .. }));
}

#[test]
fn message_frame_is_acknowledged_and_handed_on() {
    let chunk = encode_message(&message(5));
    let (frame, event) = match handle_chunk(&chunk) {
        StreamAction::ReplyAndEnqueue { frame, event } => (frame, event),
        other => panic!("unexpected action {:?}", other),
    };
    assert_eq!(
        decode_message(&frame),
        Ok(Message {
            version: 1,
            direction: Direction::Reply,
            status: 0,
            sender: 11,
            receiver: 5,
            sequence: 77,
            payload: vec![],
        })
    );
    assert_eq!(
        event,
        MessageEvent { sender: 11, destination: Some(5), sequence: 77, payload: vec![1, 2, 3, 4] }
    );
}

#[test]
fn message_without_receiver_has_no_destination() {
    assert_eq!(NO_RECEIVER, 0);
    let event = event_of(message(0));
    assert_eq!(event.destination, None);
    assert_eq!(event.sender, 11);
    assert_eq!(event.payload, vec![1, 2, 3, 4]);
    assert_eq!(event_of(message(u64::MAX)).destination, Some(u64::MAX));
}

#[test]
fn malformed_frames_are_reported_with_their_reason() {
    let mut short = encode_command(&request());
    short.pop();
    assert_eq!(handle_chunk(&short), StreamAction::Report { error: DecodeError::Truncated });
    let mut long = encode_command(&request());
    long.push(0);
    assert_eq!(handle_chunk(&long), StreamAction::Report { error: DecodeError::Oversized });
    let mut version = encode_command(&request());
    version[5] = 0;
    assert_eq!(
        handle_chunk(&version),
        StreamAction::Report { error: DecodeError::UnsupportedVersion }
    );
    let mut direction = encode_message(&message(1));
    direction[6] = 4;
    assert_eq!(handle_chunk(&direction), StreamAction::Report { error: DecodeError::BadDirection });
}

#[test]
fn read_chunk_decodes_by_kind() {
    assert_eq!(read_chunk(&encode_command(&request())), Inbound::Command(request()));
    assert_eq!(read_chunk(&encode_message(&message(2))), Inbound::Message(message(2)));
}

#[test]
fn replies_keep_the_header_and_clear_the_status() {
    assert_eq!(STATUS_OK, 0);
    let reply = reply_command(&request());
    assert_eq!(reply.direction, Direction::Reply);
    assert_eq!(reply.status, 0);
    assert_eq!(reply.opcode, 17);
    assert_eq!(reply.sequence, 56);
    let ack = reply_message(&message(8));
    assert_eq!(ack.direction, Direction::Reply);
    assert_eq!(ack.status, 0);
    assert_eq!(ack.sender, 11);
    assert_eq!(ack.receiver, 8);
    assert_eq!(ack.payload, Vec::<u8>::new());
}

#[test]
fn a_reply_sent_back_in_is_answered_like_any_command() {
    let first = match handle_chunk(&encode_command(&request())) {
        StreamAction::Reply { frame } => frame,
        other => panic!("unexpected action {:?}", other),
    };
    assert_eq!(handle_chunk(&first), StreamAction::Reply { frame: first.clone() });
}

#[test]
fn discard_policy_drops_what_is_no_frame() {
    assert_eq!(handle_chunk_with(b"no frame", Fallback::Discard), StreamAction::Discard);
    assert_eq!(handle_chunk_with(&[], Fallback::Discard), StreamAction::Discard);
    assert_eq!(
        handle_chunk_with(b"no frame", Fallback::Echo),
        StreamAction::Echo { bytes: b"no frame".to_vec() }
    );
}

#[test]
fn policy_changes_nothing_for_frames() {
    let command = encode_command(&request());
    assert_eq!(handle_chunk_with(&command, Fallback::Discard), handle_chunk(&command));
    let message = encode_message(&message(3));
    assert_eq!(handle_chunk_with(&message, Fallback::Discard), handle_chunk(&message));
    let mut bad = encode_command(&request());
    bad.pop();
    assert_eq!(
        handle_chunk_with(&bad, Fallback::Discard),
        StreamAction::Report { error: DecodeError::Truncated }
    );
}
