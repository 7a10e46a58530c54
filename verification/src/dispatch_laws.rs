//! What holds of every delivery.

use vstd::prelude::*;
use crate::dispatch::{message_for_spec, route_spec};
use crate::frame::{decode_message_spec, DecodeError, MessageView};
use crate::frame_laws::lemma_message_decode_encode;
use crate::queue::MessageEventView;
use crate::registry::ClientSession;
use crate::server::{event_of_spec, NO_RECEIVER};

verus! {

/// An event is delivered only to a client that is registered and present,
/// and what is written to that client is a well-formed message frame that
/// carries the event's sender, sequence and payload unchanged.
pub proof fn lemma_delivery_carries_the_event(
    sessions: Map<u64, ClientSession>,
    event: MessageEventView,
)
    requires
        route_spec(sessions, event) is Deliver,
    ensures
        event.destination is Some,
        sessions.contains_key(event.destination->Some_0),
        sessions[event.destination->Some_0].online,
        route_spec(sessions, event)->Deliver_connection
            == sessions[event.destination->Some_0].connection,
        decode_message_spec(route_spec(sessions, event)->Deliver_frame) == Ok::<
            MessageView,
            DecodeError,
        >(message_for_spec(event, event.destination->Some_0)),
{
    lemma_message_decode_encode(message_for_spec(event, event.destination->Some_0));
}

/// An event that goes out to a client and is read there as a message names
/// that client as its destination again: nothing of the routing data is
/// lost on the way from one client through the queue to the other.
pub proof fn lemma_delivered_message_names_its_destination(
    sessions: Map<u64, ClientSession>,
    event: MessageEventView,
)
    requires
        route_spec(sessions, event) is Deliver,
        event.destination != Some(NO_RECEIVER),
    ensures
        event_of_spec(decode_message_spec(route_spec(sessions, event)->Deliver_frame)->Ok_0)
            == event,
{
    lemma_delivery_carries_the_event(sessions, event);
}

} // verus!
