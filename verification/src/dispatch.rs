//! The decision of the dispatch role: where a message event goes.
//!
//! The role takes events from the queue one by one. For each it asks the
//! registry for the client that the event is for, and either has a message
//! frame to write to that client's connection or a reason why there is
//! none.

use vstd::prelude::*;
use crate::frame::{
    encode_message, encode_message_spec, Direction, Message, MessageView, MAX_VERSION,
};
use crate::queue::{MessageEvent, MessageEventView};
use crate::registry::{ClientPoolRegistry, ClientSession};
use crate::server::STATUS_OK;

verus! {

/// Why an event is not delivered.
#[derive(Clone, Copy, Debug, PartialEq, Eq, Structural)]
pub enum Undeliverable {
    /// The event names no destination.
    NoDestination,
    /// The destination is not registered.
    NotRegistered,
    /// The destination is registered but not present.
    Offline,
    /// The payload is longer than a frame can declare.
    TooLarge,
}

/// What the dispatch role does with an event.
#[derive(Clone, Debug, PartialEq, Eq)]
pub enum Delivery {
    /// Write `frame` to the connection `connection`.
    Deliver { connection: u64, frame: Vec<u8> },
    /// Deliver nothing, for `reason`.
    Undelivered { reason: Undeliverable },
}

/// What a `Delivery` stands for.
pub enum DeliveryView {
    Deliver { connection: u64, frame: Seq<u8> },
    Undelivered { reason: Undeliverable },
}

impl View for Delivery {
    type V = DeliveryView;

    open spec fn view(&self) -> DeliveryView {
        match *self {
            Delivery::Deliver { connection, frame } => DeliveryView::Deliver {
                connection,
                frame: frame@,
            },
            Delivery::Undelivered { reason } => DeliveryView::Undelivered { reason },
        }
    }
}

/// The message that carries an event to `destination`: a request in the
/// current version, with the event's sender, sequence and payload.
pub open spec fn message_for_spec(event: MessageEventView, destination: u64) -> MessageView {
    MessageView {
        version: MAX_VERSION,
        direction: Direction::Request,
        status: STATUS_OK,
        sender: event.sender,
        receiver: destination,
        sequence: event.sequence,
        payload: event.payload,
    }
}

/// Where an event goes, given the sessions that are registered: to the
/// connection of its destination, if it names one that is registered and
/// present and its payload fits a frame; else nowhere, for the first reason
/// that applies.
pub open spec fn route_spec(
    sessions: Map<u64, ClientSession>,
    event: MessageEventView,
) -> DeliveryView {
    match event.destination {
        None => DeliveryView::Undelivered { reason: Undeliverable::NoDestination },
        Some(destination) => if !sessions.contains_key(destination) {
            DeliveryView::Undelivered { reason: Undeliverable::NotRegistered }
        } else if !sessions[destination].online {
            DeliveryView::Undelivered { reason: Undeliverable::Offline }
        } else if event.payload.len() > u32::MAX {
            DeliveryView::Undelivered { reason: Undeliverable::TooLarge }
        } else {
            DeliveryView::Deliver {
                connection: sessions[destination].connection,
                frame: encode_message_spec(message_for_spec(event, destination)),
            }
        },
    }
}

/// Decides where `event` goes. The registry is only read.
pub fn route(registry: &ClientPoolRegistry, event: MessageEvent) -> (delivery: Delivery)
    ensures
        delivery@ == route_spec(registry@, event@),
{
    let destination = match event.destination {
        None => {
            return Delivery::Undelivered { reason: Undeliverable::NoDestination };
        },
        Some(destination) => destination,
    };
    let session = match registry.lookup(destination) {
        None => {
            return Delivery::Undelivered { reason: Undeliverable::NotRegistered };
        },
        Some(session) => session,
    };
    if !session.online {
        return Delivery::Undelivered { reason: Undeliverable::Offline };
    }
    if event.payload.len() > 0xFFFF_FFFF {
        return Delivery::Undelivered { reason: Undeliverable::TooLarge };
    }
    let message = Message {
        version: MAX_VERSION,
        direction: Direction::Request,
        status: STATUS_OK,
        sender: event.sender,
        receiver: destination,
        sequence: event.sequence,
        payload: event.payload,
    };
    Delivery::Deliver { connection: session.connection, frame: encode_message(&message) }
}

} // verus!
