use bitcomm::dispatch::{route, Delivery, Undeliverable};
use bitcomm::frame::{decode_message, encode_message, Direction, Message};
use bitcomm::queue::MessageEvent;
use bitcomm::registry::{ClientPoolRegistry, ClientSession};
use bitcomm::server::{handle_chunk, StreamAction};

fn registry() -> ClientPoolRegistry {
    let mut registry = ClientPoolRegistry::new();
    registry.register(7, ClientSession { connection: 70, online: true }).unwrap();
    registry.register(8, ClientSession { connection: 80, online: false }).unwrap();
    registry
}

fn event(destination: Option<u64>) -> MessageEvent {
    MessageEvent { sender: 3, destination, sequence: 12, payload: vec![9, 8, 7] }
}

#[test]
fn event_goes_to_the_connection_of_its_destination() {
    let (connection, frame) = match route(&registry(), event(Some(7))) {
        Delivery::Deliver { connection, frame } => (connection, frame),
        other => panic!("unexpected {:?}", other),
    };
    assert_eq!(connection, 70);
    assert_eq!(
        decode_message(&frame),
        Ok(Message {
            version: 1,
            direction: Direction::Request,
            status: 0,
            sender: 3,
            receiver: 7,
            sequence: 12,
            payload: vec![9, 8, 7],
        })
    );
}

#[test]
fn event_without_destination_is_dropped() {
    assert_eq!(
        route(&registry(), event(None)),
        Delivery::Undelivered { reason: Undeliverable::NoDestination }
    );
}

#[test]
fn event_for_an_unknown_client_is_dropped() {
    assert_eq!(
        route(&registry(), event(Some(9))),
        Delivery::Undelivered { reason: Undeliverable::NotRegistered }
    );
    assert_eq!(
        route(&ClientPoolRegistry::new(), event(Some(7))),
        Delivery::Undelivered { reason: Undeliverable::NotRegistered }
    );
}

#[test]
fn event_for_an_absent_client_is_dropped() {
    assert_eq!(
        route(&registry(), event(Some(8))),
        Delivery::Undelivered { reason: Undeliverable::Offline }
    );
}

#[test]
fn event_is_not_delivered_after_deregistration() {
    let mut registry = registry();
    registry.deregister(7).unwrap();
    assert_eq!(
        route(&registry, event(Some(7))),
        Delivery::Undelivered { reason: Undeliverable::NotRegistered }
    );
}

#[test]
fn message_travels_from_one_client_to_the_other() {
    let sent = Message {
        version: 1,
        direction: Direction::Request,
        status: 0,
        sender: 3,
        receiver: 7,
        sequence: 99,
        payload: b"over here".to_vec(),
    };
    let event = match handle_chunk(&encode_message(&sent)) {
        StreamAction::ReplyAndEnqueue { event, .. } => event,
        other => panic!("unexpected {:?}", other),
    };
    let frame = match route(&registry(), event) {
        Delivery::Deliver { frame, .. } => frame,
        other => panic!("unexpected {:?}", other),
    };
    assert_eq!(decode_message(&frame), Ok(sent));
}

#[test]
fn reasons_are_told_in_order() {
    // No destination comes before everything else, an unknown destination
    // before an absent one.
    let mut registry = registry();
    assert_eq!(
        route(&registry, event(None)),
        Delivery::Undelivered { reason: Undeliverable::NoDestination }
    );
    registry.deregister(8).unwrap();
    assert_eq!(
        route(&registry, event(Some(8))),
        Delivery::Undelivered { reason: Undeliverable::NotRegistered }
    );
}
