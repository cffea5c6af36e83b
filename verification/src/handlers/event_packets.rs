//! The replies of the packet endpoints.

use crate::handlers::{Reply, CREATED, NO_CONTENT, OK};
use crate::models::event_packets::{EventPacketQuery, EventPackets};
use crate::shared::error::EventPacketRepoError;
use crate::shared::links::{
    build_filtered_event_packets, build_simple_event_packet, build_simple_event_packets,
    filtered_event_packet_links, simple_event_packet_links, LinksView, Response,
};
use vstd::prelude::*;

verus! {

/// The links of an item of the packet listing: those of a filtered listing
/// when the request gave a filter or a pagination key, else those of a
/// packet reached on its own.
pub open spec fn listed_packet_links(
    base: Seq<char>,
    params: EventPacketQuery,
    packet: EventPackets,
) -> LinksView {
    if params.filtered() {
        filtered_event_packet_links(base, params@)
    } else {
        simple_event_packet_links(base, packet.id as int)
    }
}

/// The reply to a listing of packets: every packet that the store returned,
/// in its order, each in its envelope; the store's error as it is.
pub fn list_event_packets(
    outcome: Result<Vec<EventPackets>, EventPacketRepoError>,
    params: &EventPacketQuery,
    base_url: &str,
) -> (r: Result<Reply<Vec<Response<EventPackets>>>, EventPacketRepoError>)
    ensures
        match outcome {
            Ok(found) => {
                &&& r matches Ok(reply)
                &&& reply.status == OK
                &&& reply.body@.len() == found@.len()
                &&& forall|i: int|
                    0 <= i < found@.len() ==> {
                        &&& (#[trigger] reply.body@[i]).data == found@[i]
                        &&& reply.body@[i].links@ == listed_packet_links(
                            base_url@,
                            *params,
                            found@[i],
                        )
                    }
            },
            Err(e) => r == Err::<Reply<Vec<Response<EventPackets>>>, EventPacketRepoError>(e),
        },
{
    match outcome {
        Ok(found) => {
            let body = if params.has_filters() {
                build_filtered_event_packets(found, params, base_url)
            } else {
                build_simple_event_packets(found, base_url)
            };
            Ok(Reply { status: OK, body })
        },
        Err(e) => Err(e),
    }
}

/// The reply to a read of one packet: the packet in its envelope; the store's
/// error as it is.
pub fn get_event_packet(
    outcome: Result<EventPackets, EventPacketRepoError>,
    base_url: &str,
) -> (r: Result<Reply<Response<EventPackets>>, EventPacketRepoError>)
    ensures
        match outcome {
            Ok(found) => {
                &&& r matches Ok(reply)
                &&& reply.status == OK
                &&& reply.body.data == found
                &&& reply.body.links@ == simple_event_packet_links(base_url@, found.id as int)
            },
            Err(e) => r == Err::<Reply<Response<EventPackets>>, EventPacketRepoError>(e),
        },
{
    match outcome {
        Ok(found) => Ok(Reply { status: OK, body: build_simple_event_packet(found, base_url) }),
        Err(e) => Err(e),
    }
}

/// The reply to a change of one packet: the packet as stored, in its
/// envelope; the store's error as it is.
pub fn update_event_packet(
    outcome: Result<EventPackets, EventPacketRepoError>,
    base_url: &str,
) -> (r: Result<Reply<Response<EventPackets>>, EventPacketRepoError>)
    ensures
        match outcome {
            Ok(found) => {
                &&& r matches Ok(reply)
                &&& reply.status == OK
                &&& reply.body.data == found
                &&& reply.body.links@ == simple_event_packet_links(base_url@, found.id as int)
            },
            Err(e) => r == Err::<Reply<Response<EventPackets>>, EventPacketRepoError>(e),
        },
{
    match outcome {
        Ok(found) => Ok(Reply { status: OK, body: build_simple_event_packet(found, base_url) }),
        Err(e) => Err(e),
    }
}

/// The reply to a creation: the packet as stored, in its envelope, with the
/// status of a creation; the store's error as it is.
pub fn create_event_packet(
    outcome: Result<EventPackets, EventPacketRepoError>,
    base_url: &str,
) -> (r: Result<Reply<Response<EventPackets>>, EventPacketRepoError>)
    ensures
        match outcome {
            Ok(found) => {
                &&& r matches Ok(reply)
                &&& reply.status == CREATED
                &&& reply.body.data == found
                &&& reply.body.links@ == simple_event_packet_links(base_url@, found.id as int)
            },
            Err(e) => r == Err::<Reply<Response<EventPackets>>, EventPacketRepoError>(e),
        },
{
    match outcome {
        Ok(found) => Ok(Reply {
            status: CREATED,
            body: build_simple_event_packet(found, base_url),
        }),
        Err(e) => Err(e),
    }
}

/// The reply to a removal: no content; the store's error as it is.
pub fn delete_event_packet(outcome: Result<(), EventPacketRepoError>) -> (r: Result<
    Reply<()>,
    EventPacketRepoError,
>)
    ensures
        match outcome {
            Ok(_) => r matches Ok(reply) && reply.status == NO_CONTENT,
            Err(e) => r == Err::<Reply<()>, EventPacketRepoError>(e),
        },
{
    match outcome {
        Ok(_) => Ok(Reply { status: NO_CONTENT, body: () }),
        Err(e) => Err(e),
    }
}

} // verus!
