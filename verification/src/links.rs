//! Read-only envelopes: an entity with links that a client may follow with
//! `GET`, one envelope type for each kind of entity.

use crate::models::event::Event;
use crate::models::event_packets::EventPackets;
use crate::models::ticket::Ticket;
use crate::shared::link_map::{lemma_index_of_absent_name, named_views};
use crate::shared::links::{
    annotated, event_address, event_href, events_href, packet_address, packet_href, packets_href,
    ticket_address, ticket_href, tickets_href, LinkView, Links, LinksView, ResponseBuilder,
    READ_METHOD,
};
use crate::shared::text::followed_by;
use vstd::prelude::*;

verus! {

/// An event with its links.
#[derive(Debug)]
pub struct EventResponse {
    pub event: Event,
    pub links: Links,
}

/// A packet with its links.
#[derive(Debug)]
pub struct EventPacketResponse {
    pub event_packet: EventPackets,
    pub links: Links,
}

/// A ticket with its links.
#[derive(Debug)]
pub struct TicketResponse {
    pub ticket: Ticket,
    pub links: Links,
}

/// A link to `href` without annotation.
pub open spec fn plain(href: Seq<char>) -> LinkView {
    LinkView { href, ty: None }
}

/// The links of a read-only event envelope: the event and the collection
/// without annotation, and the relations `event-packets` and `tickets`
/// below the event, each to be read.
pub open spec fn event_response_links(base: Seq<char>, id: int) -> LinksView {
    LinksView {
        parent: Some(plain(events_href(base))),
        link: plain(event_href(base, id)),
        others: Some(
            Map::<Seq<char>, LinkView>::empty().insert(
                "event-packets"@,
                annotated(event_href(base, id) + "/event-packets"@, READ_METHOD@),
            ).insert("tickets"@, annotated(tickets_href(event_href(base, id)), READ_METHOD@)),
        ),
    }
}

/// The relations of a read-only event envelope, as they are written: first
/// the packets of the event, then its tickets.
pub open spec fn event_response_relations(base: Seq<char>, id: int) -> Seq<(Seq<char>, LinkView)> {
    seq![
        ("event-packets"@, annotated(event_href(base, id) + "/event-packets"@, READ_METHOD@)),
        ("tickets"@, annotated(tickets_href(event_href(base, id)), READ_METHOD@)),
    ]
}

/// The relations of a read-only packet envelope, as they are written: first
/// the events of the packet, then its tickets.
pub open spec fn event_packet_response_relations(base: Seq<char>, id: int) -> Seq<
    (Seq<char>, LinkView),
> {
    seq![
        ("events"@, annotated(packet_href(base, id) + "/events"@, READ_METHOD@)),
        ("tickets"@, annotated(tickets_href(packet_href(base, id)), READ_METHOD@)),
    ]
}

/// The links of a read-only packet envelope: the packet and the collection
/// without annotation, and the relations `events` and `tickets` below the
/// packet, each to be read.
pub open spec fn event_packet_response_links(base: Seq<char>, id: int) -> LinksView {
    LinksView {
        parent: Some(plain(packets_href(base))),
        link: plain(packet_href(base, id)),
        others: Some(
            Map::<Seq<char>, LinkView>::empty().insert(
                "events"@,
                annotated(packet_href(base, id) + "/events"@, READ_METHOD@),
            ).insert("tickets"@, annotated(tickets_href(packet_href(base, id)), READ_METHOD@)),
        ),
    }
}

/// The links of a read-only ticket envelope: the ticket and the collection,
/// each to be read, and no relations.
pub open spec fn ticket_response_links(base: Seq<char>, cod: Seq<char>) -> LinksView {
    LinksView {
        parent: Some(annotated(tickets_href(base), READ_METHOD@)),
        link: annotated(ticket_href(base, cod), READ_METHOD@),
        others: None,
    }
}

impl EventResponse {
    /// The read-only envelope of `event` below `base_url`.
    pub fn new(event: Event, base_url: &str) -> (r: Self)
        ensures
            r.event == event,
            r.links@ == event_response_links(base_url@, event.id as int),
            named_views(r.links.relations()) == event_response_relations(
                base_url@,
                event.id as int,
            ),
    {
        let href = event_address(base_url, event.id);
        let parent = followed_by(base_url, "/events");
        let packets = followed_by(href.as_str(), "/event-packets");
        let tickets = followed_by(href.as_str(), "/tickets");
        let first = ResponseBuilder::new(event, href.as_str()).parent(
            parent.as_str(),
        ).link_with_type("event-packets", packets.as_str(), READ_METHOD);
        let builder = first.link_with_type("tickets", tickets.as_str(), READ_METHOD);
        proof {
            assert(builder@.other_links.contains_key("tickets"@));
            reveal_strlit("event-packets");
            reveal_strlit("tickets");
            assert("event-packets"@.len() != "tickets"@.len());
            assert(first@.relations.len() == 1);
            lemma_index_of_absent_name(first@.relations, "tickets"@, 0);
            assert(builder@.relations =~= event_response_relations(
                base_url@,
                event.id as int,
            ));
        }
        let built = builder.build();
        EventResponse { event: built.data, links: built.links }
    }
}

impl EventPacketResponse {
    /// The read-only envelope of `event_packet` below `base_url`.
    pub fn new(event_packet: EventPackets, base_url: &str) -> (r: Self)
        ensures
            r.event_packet == event_packet,
            r.links@ == event_packet_response_links(base_url@, event_packet.id as int),
            named_views(r.links.relations()) == event_packet_response_relations(
                base_url@,
                event_packet.id as int,
            ),
    {
        let href = packet_address(base_url, event_packet.id);
        let parent = followed_by(base_url, "/event-packets");
        let events = followed_by(href.as_str(), "/events");
        let tickets = followed_by(href.as_str(), "/tickets");
        let first = ResponseBuilder::new(event_packet, href.as_str()).parent(
            parent.as_str(),
        ).link_with_type("events", events.as_str(), READ_METHOD);
        let builder = first.link_with_type("tickets", tickets.as_str(), READ_METHOD);
        proof {
            assert(builder@.other_links.contains_key("tickets"@));
            reveal_strlit("events");
            reveal_strlit("tickets");
            assert("events"@.len() != "tickets"@.len());
            assert(first@.relations.len() == 1);
            lemma_index_of_absent_name(first@.relations, "tickets"@, 0);
            assert(builder@.relations =~= event_packet_response_relations(
                base_url@,
                event_packet.id as int,
            ));
        }
        let built = builder.build();
        EventPacketResponse { event_packet: built.data, links: built.links }
    }
}

impl TicketResponse {
    /// The read-only envelope of `ticket` below `base_url`.
    pub fn new(ticket: Ticket, base_url: &str) -> (r: Self)
        ensures
            r.ticket == ticket,
            r.links@ == ticket_response_links(base_url@, ticket.cod@),
    {
        let href = ticket_address(base_url, ticket.cod.as_str());
        let parent = followed_by(base_url, "/tickets");
        let built = ResponseBuilder::new(ticket, href.as_str()).self_type(
            READ_METHOD,
        ).parent_with_type(parent.as_str(), READ_METHOD).build();
        TicketResponse { ticket: built.data, links: built.links }
    }
}

} // verus!
