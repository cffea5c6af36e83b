//! The replies of the endpoints that link packets and events.

use crate::handlers::{Reply, CREATED, OK};
use crate::models::event::Event;
use crate::models::event_packets::EventPackets;
use crate::models::join_pe::EventPacketRelation;
use crate::shared::error::JoinPeRepoError;
use crate::shared::links::{
    build_events_over_packet, build_packets_over_event, event_over_packet_links,
    packet_over_event_links, Response,
};
use vstd::prelude::*;

verus! {

/// The reply to a listing of the packets of the event `id`: every packet that
/// the store returned, in its order, each in its envelope; the store's error
/// as it is.
pub fn list_packets_for_event(
    outcome: Result<Vec<EventPackets>, JoinPeRepoError>,
    id: i32,
    base_url: &str,
) -> (r: Result<Reply<Vec<Response<EventPackets>>>, JoinPeRepoError>)
    ensures
        match outcome {
            Ok(found) => {
                &&& r matches Ok(reply)
                &&& reply.status == OK
                &&& reply.body@.len() == found@.len()
                &&& forall|i: int|
                    0 <= i < found@.len() ==> {
                        &&& (#[trigger] reply.body@[i]).data == found@[i]
                        &&& reply.body@[i].links@ == packet_over_event_links(base_url@, id as int)
                    }
            },
            Err(e) => r == Err::<Reply<Vec<Response<EventPackets>>>, JoinPeRepoError>(e),
        },
{
    match outcome {
        Ok(found) => Ok(Reply { status: OK, body: build_packets_over_event(found, id, base_url) }),
        Err(e) => Err(e),
    }
}

/// The reply to a listing of the events of the packet `id`: every event that
/// the store returned, in its order, each in its envelope; the store's error
/// as it is.
pub fn list_events_for_packet(
    outcome: Result<Vec<Event>, JoinPeRepoError>,
    id: i32,
    base_url: &str,
) -> (r: Result<Reply<Vec<Response<Event>>>, JoinPeRepoError>)
    ensures
        match outcome {
            Ok(found) => {
                &&& r matches Ok(reply)
                &&& reply.status == OK
                &&& reply.body@.len() == found@.len()
                &&& forall|i: int|
                    0 <= i < found@.len() ==> {
                        &&& (#[trigger] reply.body@[i]).data == found@[i]
                        &&& reply.body@[i].links@ == event_over_packet_links(base_url@, id as int)
                    }
            },
            Err(e) => r == Err::<Reply<Vec<Response<Event>>>, JoinPeRepoError>(e),
        },
{
    match outcome {
        Ok(found) => Ok(Reply { status: OK, body: build_events_over_packet(found, id, base_url) }),
        Err(e) => Err(e),
    }
}

/// The reply after an event was put into a packet: the link as stored, with
/// the status of a creation; the store's error as it is.
pub fn add_event_to_packet(outcome: Result<EventPacketRelation, JoinPeRepoError>) -> (r: Result<
    Reply<EventPacketRelation>,
    JoinPeRepoError,
>)
    ensures
        match outcome {
            Ok(relation) => {
                &&& r matches Ok(reply)
                &&& reply.status == CREATED
                &&& reply.body == relation
            },
            Err(e) => r == Err::<Reply<EventPacketRelation>, JoinPeRepoError>(e),
        },
{
    match outcome {
        Ok(relation) => Ok(Reply { status: CREATED, body: relation }),
        Err(e) => Err(e),
    }
}

/// The reply after a packet was given an event: the link as stored, with the
/// status of a creation; the store's error as it is.
pub fn add_packet_to_event(outcome: Result<EventPacketRelation, JoinPeRepoError>) -> (r: Result<
    Reply<EventPacketRelation>,
    JoinPeRepoError,
>)
    ensures
        match outcome {
            Ok(relation) => {
                &&& r matches Ok(reply)
                &&& reply.status == CREATED
                &&& reply.body == relation
            },
            Err(e) => r == Err::<Reply<EventPacketRelation>, JoinPeRepoError>(e),
        },
{
    match outcome {
        Ok(relation) => Ok(Reply { status: CREATED, body: relation }),
        Err(e) => Err(e),
    }
}

} // verus!
