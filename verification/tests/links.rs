use event_service::links::{EventPacketResponse, EventResponse, TicketResponse};
use event_service::models::event::{Event, EventQuery};
use event_service::models::event_packets::{EventPacketQuery, EventPackets, PaginationParams};
use event_service::models::ticket::Ticket;
use event_service::shared::link_map::LinkMap;
use event_service::shared::links::{
    build_event_over_packet, build_events_over_packet, build_filtered_event,
    build_filtered_event_packets, build_packet_over_event, build_packets_over_event,
    build_simple_event, build_simple_event_packet, build_simple_event_packets,
    build_simple_events, build_simple_ticket, build_simple_tickets, build_ticket_over_event,
    build_ticket_over_packet, build_tickets_over_event, build_tickets_over_packet,
    event_address, filtered_event_packets_address, filtered_events_address, packet_address,
    ticket_address, Link, Links, ResponseBuilder, COLLECTION_METHODS, ITEM_METHODS, READ_METHOD,
};

const BASE: &str = "http://localhost:8001/api/event-manager";

fn sample_event(id: i32) -> Event {
    Event {
        id,
        id_owner: 1,
        nume: "Conf".to_string(),
        locatie: Some("NY".to_string()),
        descriere: None,
        locuri: Some(100),
    }
}

fn sample_packet(id: i32) -> EventPackets {
    EventPackets {
        id,
        id_owner: 2,
        nume: "Weekend".to_string(),
        locatie: None,
        descriere: Some("two days of music".to_string()),
        numarlocuri: Some(40),
    }
}

fn sample_ticket(cod: &str) -> Ticket {
    Ticket { cod: cod.to_string(), id_pachet: None, id_event: Some(5) }
}

fn packet_query(
    descriere: Option<&str>,
    bilete: Option<i32>,
    page: Option<i64>,
    items_per_page: Option<i64>,
) -> EventPacketQuery {
    EventPacketQuery {
        descriere: descriere.map(|s| s.to_string()),
        bilete,
        paginare: PaginationParams { page, items_per_page },
    }
}

fn event_query(locatie: Option<&str>, nume: Option<&str>) -> EventQuery {
    EventQuery { locatie: locatie.map(|s| s.to_string()), nume: nume.map(|s| s.to_string()) }
}

fn check_link(link: &Link, href: &str, ty: Option<&str>) {
    assert_eq!(link.href, href);
    assert_eq!(link.ty.as_deref(), ty);
}

fn check_plain_links(links: &Links, href: &str, ty: &str, parent: &str, parent_ty: &str) {
    check_link(&links.link, href, Some(ty));
    check_link(links.parent.as_ref().expect("parent link"), parent, Some(parent_ty));
    assert!(links.others.is_none());
}

#[test]
fn link_new_has_no_annotation() {
    let link = Link::new("http://h/x");
    check_link(&link, "http://h/x", None);
}

#[test]
fn link_with_type_sets_the_annotation() {
    let link = Link::new("http://h/x").with_type("GET");
    check_link(&link, "http://h/x", Some("GET"));
    let again = link.with_type("POST");
    check_link(&again, "http://h/x", Some("POST"));
}

#[test]
fn link_with_types_joins_with_comma_and_space() {
    let link = Link::new("http://h/x").with_types(&["[GET", "PUT", "POST", "DELETE]"]);
    check_link(&link, "http://h/x", Some(ITEM_METHODS));
    let pair = Link::new("http://h/x").with_types(&["[GET", "POST]"]);
    check_link(&pair, "http://h/x", Some(COLLECTION_METHODS));
    let none = Link::new("http://h/x").with_types(&[]);
    check_link(&none, "http://h/x", Some(""));
}

#[test]
fn link_clone_is_equal() {
    let link = Link::new("http://h/x").with_type("GET");
    let copy = link.clone();
    check_link(&copy, "http://h/x", Some("GET"));
}

#[test]
fn link_map_starts_empty() {
    let map = LinkMap::new();
    assert!(map.is_empty());
    assert_eq!(map.len(), 0);
    assert!(map.get("tickets").is_none());
    assert!(!map.contains_key("tickets"));
    assert!(map.entries().is_empty());
}

#[test]
fn link_map_insert_adds_and_replaces() {
    let mut map = LinkMap::new();
    map.insert("tickets", Link::new("a"));
    map.insert("events", Link::new("b"));
    assert_eq!(map.len(), 2);
    assert!(!map.is_empty());
    assert_eq!(map.get("tickets").unwrap().href, "a");
    assert_eq!(map.get("events").unwrap().href, "b");
    map.insert("tickets", Link::new("c").with_type("GET"));
    assert_eq!(map.len(), 2);
    check_link(map.get("tickets").unwrap(), "c", Some("GET"));
    assert_eq!(map.get("events").unwrap().href, "b");
    assert!(map.contains_key("events"));
    assert!(!map.contains_key("event"));
}

#[test]
fn link_map_entries_keep_the_order_of_first_insertion() {
    let mut map = LinkMap::new();
    map.insert("b", Link::new("1"));
    map.insert("a", Link::new("2"));
    map.insert("b", Link::new("3"));
    let names: Vec<&str> = map.entries().iter().map(|e| e.0.as_str()).collect();
    assert_eq!(names, vec!["b", "a"]);
    assert_eq!(map.entries()[0].1.href, "3");
}

#[test]
fn link_map_clone_holds_the_same_links() {
    let mut map = LinkMap::new();
    map.insert("tickets", Link::new("a").with_type("GET"));
    map.insert("events", Link::new("b"));
    let copy = map.clone();
    assert_eq!(copy.len(), 2);
    check_link(copy.get("tickets").unwrap(), "a", Some("GET"));
    check_link(copy.get("events").unwrap(), "b", None);
}

#[test]
fn builder_without_relations_leaves_the_map_out() {
    let r = ResponseBuilder::new(7u8, "http://h/self").build();
    assert_eq!(r.data, 7);
    check_link(&r.links.link, "http://h/self", None);
    assert!(r.links.parent.is_none());
    assert!(r.links.others.is_none());
}

#[test]
fn builder_is_the_same_as_new() {
    let r = ResponseBuilder::builder("x", "http://h/self").build();
    assert_eq!(r.data, "x");
    check_link(&r.links.link, "http://h/self", None);
    assert!(r.links.parent.is_none());
    assert!(r.links.others.is_none());
}

#[test]
fn builder_sets_self_annotation() {
    let r = ResponseBuilder::new((), "s").self_type("GET").build();
    check_link(&r.links.link, "s", Some("GET"));
    let r = ResponseBuilder::new((), "s").self_types(&["[GET", "POST]"]).build();
    check_link(&r.links.link, "s", Some("[GET, POST]"));
}

#[test]
fn builder_sets_parent_in_three_ways() {
    let r = ResponseBuilder::new((), "s").parent("p").build();
    check_link(r.links.parent.as_ref().unwrap(), "p", None);
    let r = ResponseBuilder::new((), "s").parent_with_type("p", "GET").build();
    check_link(r.links.parent.as_ref().unwrap(), "p", Some("GET"));
    let r = ResponseBuilder::new((), "s").parent_with_types("p", &["[GET", "POST]"]).build();
    check_link(r.links.parent.as_ref().unwrap(), "p", Some("[GET, POST]"));
    let r = ResponseBuilder::new((), "s").parent("p").parent("q").build();
    check_link(r.links.parent.as_ref().unwrap(), "q", None);
}

#[test]
fn builder_adds_relations_in_three_ways() {
    let r = ResponseBuilder::new((), "s")
        .link("a", "1")
        .link_with_type("b", "2", "GET")
        .link_with_types("c", "3", &["[GET", "POST]"])
        .build();
    let others = r.links.others.expect("relations");
    assert_eq!(others.len(), 3);
    check_link(others.get("a").unwrap(), "1", None);
    check_link(others.get("b").unwrap(), "2", Some("GET"));
    check_link(others.get("c").unwrap(), "3", Some("[GET, POST]"));
}

#[test]
fn builder_relation_of_the_same_name_replaces() {
    let r = ResponseBuilder::new((), "s").link("a", "1").link_with_type("a", "2", "GET").build();
    let others = r.links.others.expect("relations");
    assert_eq!(others.len(), 1);
    check_link(others.get("a").unwrap(), "2", Some("GET"));
}

#[test]
fn links_clone_is_equal() {
    let r = build_simple_event(sample_event(3), BASE);
    let copy = r.links.clone();
    check_link(&copy.link, &format!("{}/events/3", BASE), Some(ITEM_METHODS));
    check_link(copy.parent.as_ref().unwrap(), &format!("{}/events", BASE), Some("[GET, POST]"));
    assert_eq!(copy.others.as_ref().unwrap().len(), 2);
}

#[test]
fn addresses_of_items() {
    assert_eq!(event_address("http://h", 12), "http://h/events/12");
    assert_eq!(packet_address("http://h", 0), "http://h/event-packets/0");
    assert_eq!(event_address("http://h", -3), "http://h/events/-3");
    assert_eq!(ticket_address("http://h", "T-1"), "http://h/tickets/T-1");
    assert_eq!(ticket_address("http://h/events/4", "T-1"), "http://h/events/4/tickets/T-1");
}

#[test]
fn simple_event_has_self_parent_and_relations() {
    let r = build_simple_event(sample_event(42), BASE);
    assert_eq!(r.data.id, 42);
    assert_eq!(r.data.nume, "Conf");
    assert_eq!(r.data.locatie.as_deref(), Some("NY"));
    assert_eq!(r.data.locuri, Some(100));
    check_link(&r.links.link, &format!("{}/events/42", BASE), Some("[GET, PUT, POST, DELETE]"));
    check_link(r.links.parent.as_ref().unwrap(), &format!("{}/events", BASE), Some("[GET, POST]"));
    let others = r.links.others.expect("relation links");
    assert_eq!(others.len(), 2);
    check_link(
        others.get("tickets").unwrap(),
        &format!("{}/events/42/tickets", BASE),
        Some("[GET, POST]"),
    );
    check_link(
        others.get("event-packets").unwrap(),
        &format!("{}/events/42/event-packets", BASE),
        Some("[GET, POST]"),
    );
}

#[test]
fn simple_event_self_link_ends_with_collection_and_id() {
    for id in [0, 1, 9, 10, 12345, i32::MAX] {
        for base in ["", "http://h", BASE] {
            let r = build_simple_event(sample_event(id), base);
            assert!(r.links.link.href.ends_with(&format!("/events/{}", id)));
            let p = build_simple_event_packet(sample_packet(id), base);
            assert!(p.links.link.href.ends_with(&format!("/event-packets/{}", id)));
        }
    }
    let t = build_simple_ticket(sample_ticket("ABC-9"), BASE);
    assert!(t.links.link.href.ends_with("/tickets/ABC-9"));
}

#[test]
fn simple_event_packet_has_self_parent_and_relations() {
    let r = build_simple_event_packet(sample_packet(8), BASE);
    assert_eq!(r.data.id, 8);
    assert_eq!(r.data.nume, "Weekend");
    check_link(
        &r.links.link,
        &format!("{}/event-packets/8", BASE),
        Some("[GET, PUT, POST, DELETE]"),
    );
    check_link(
        r.links.parent.as_ref().unwrap(),
        &format!("{}/event-packets", BASE),
        Some("[GET, POST]"),
    );
    let others = r.links.others.expect("relation links");
    assert_eq!(others.len(), 2);
    check_link(
        others.get("events").unwrap(),
        &format!("{}/event-packets/8/events", BASE),
        Some("[GET, POST]"),
    );
    check_link(
        others.get("tickets").unwrap(),
        &format!("{}/event-packets/8/tickets", BASE),
        Some("[GET, POST]"),
    );
}

#[test]
fn simple_ticket_has_self_and_parent_only() {
    let r = build_simple_ticket(sample_ticket("T-77"), BASE);
    assert_eq!(r.data.cod, "T-77");
    assert_eq!(r.data.id_event, Some(5));
    check_plain_links(
        &r.links,
        &format!("{}/tickets/T-77", BASE),
        "[GET, PUT, POST, DELETE]",
        &format!("{}/tickets", BASE),
        "[GET, POST]",
    );
}

#[test]
fn filtered_events_echo_location_then_name() {
    let q = event_query(Some("Cluj"), Some("jazz"));
    assert_eq!(filtered_events_address(&q, "http://h"), "http://h/events?location=Cluj&name=jazz");
    let q = event_query(None, Some("jazz"));
    assert_eq!(filtered_events_address(&q, "http://h"), "http://h/events?name=jazz");
    let q = event_query(Some("Cluj"), None);
    assert_eq!(filtered_events_address(&q, "http://h"), "http://h/events?location=Cluj");
    let q = event_query(None, None);
    assert_eq!(filtered_events_address(&q, "http://h"), "http://h/events");
}

#[test]
fn filtered_events_echo_a_filter_that_is_given_empty() {
    let q = event_query(Some(""), None);
    assert_eq!(filtered_events_address(&q, "http://h"), "http://h/events?location=");
}

#[test]
fn filtered_event_items_share_the_listing_link() {
    let q = event_query(Some("Cluj"), None);
    let rs = build_filtered_event(vec![sample_event(1), sample_event(2)], &q, BASE);
    assert_eq!(rs.len(), 2);
    assert_eq!(rs[0].data.id, 1);
    assert_eq!(rs[1].data.id, 2);
    for r in &rs {
        check_plain_links(
            &r.links,
            &format!("{}/events?location=Cluj", BASE),
            "GET",
            &format!("{}/events", BASE),
            "[GET, POST]",
        );
    }
    assert!(build_filtered_event(Vec::new(), &q, BASE).is_empty());
}

#[test]
fn filtered_packets_echo_type_and_page_in_the_fixed_order() {
    let q = packet_query(Some("foo"), None, Some(2), None);
    assert_eq!(
        filtered_event_packets_address(&q, BASE),
        format!("{}/event-packets?page=2&type=foo", BASE)
    );
    let rs = build_filtered_event_packets(vec![sample_packet(1), sample_packet(9)], &q, BASE);
    assert_eq!(rs.len(), 2);
    assert_eq!(rs[0].data.id, 1);
    assert_eq!(rs[1].data.id, 9);
    for r in &rs {
        check_plain_links(
            &r.links,
            &format!("{}/event-packets?page=2&type=foo", BASE),
            READ_METHOD,
            &format!("{}/event-packets", BASE),
            COLLECTION_METHODS,
        );
    }
}

#[test]
fn filtered_packets_echo_all_four_keys_in_the_fixed_order() {
    let q = packet_query(Some("foo"), Some(3), Some(2), Some(25));
    assert_eq!(
        filtered_event_packets_address(&q, "http://h"),
        "http://h/event-packets?page=2&items_per_page=25&available_tickets=3&type=foo"
    );
}

#[test]
fn filtered_packets_echo_each_key_alone() {
    let q = packet_query(None, None, Some(4), None);
    assert_eq!(filtered_event_packets_address(&q, "b"), "b/event-packets?page=4");
    let q = packet_query(None, None, None, Some(50));
    assert_eq!(filtered_event_packets_address(&q, "b"), "b/event-packets?items_per_page=50");
    let q = packet_query(None, Some(1), None, None);
    assert_eq!(filtered_event_packets_address(&q, "b"), "b/event-packets?available_tickets=1");
    let q = packet_query(Some("rock"), None, None, None);
    assert_eq!(filtered_event_packets_address(&q, "b"), "b/event-packets?type=rock");
    let q = packet_query(None, None, None, None);
    assert_eq!(filtered_event_packets_address(&q, "b"), "b/event-packets");
}

#[test]
fn filtered_packets_echo_negative_numbers_as_given() {
    let q = packet_query(None, Some(-2), Some(-1), Some(0));
    assert_eq!(
        filtered_event_packets_address(&q, "b"),
        "b/event-packets?page=-1&items_per_page=0&available_tickets=-2"
    );
}

#[test]
fn packet_over_event_points_to_the_nested_collection() {
    let r = build_packet_over_event(sample_packet(3), 11, BASE);
    assert_eq!(r.data.id, 3);
    check_plain_links(
        &r.links,
        &format!("{}/events/11/event-packets", BASE),
        "[GET, POST]",
        &format!("{}/events/11", BASE),
        "[GET, PUT, POST, DELETE]",
    );
}

#[test]
fn event_over_packet_points_to_the_nested_collection() {
    let r = build_event_over_packet(sample_event(3), 11, BASE);
    assert_eq!(r.data.id, 3);
    check_plain_links(
        &r.links,
        &format!("{}/event-packets/11/events", BASE),
        "[GET, POST]",
        &format!("{}/event-packets/11", BASE),
        "[GET, PUT, POST, DELETE]",
    );
}

#[test]
fn ticket_over_event_points_below_the_event() {
    let r = build_ticket_over_event(sample_ticket("T1"), 6, BASE);
    assert_eq!(r.data.cod, "T1");
    check_plain_links(
        &r.links,
        &format!("{}/events/6/tickets/T1", BASE),
        "[GET, PUT, POST, DELETE]",
        &format!("{}/events/6/tickets", BASE),
        "[GET, POST]",
    );
}

#[test]
fn ticket_over_packet_points_below_the_packet() {
    let r = build_ticket_over_packet(sample_ticket("T1"), 6, BASE);
    assert_eq!(r.data.cod, "T1");
    check_plain_links(
        &r.links,
        &format!("{}/event-packets/6/tickets/T1", BASE),
        "[GET, PUT, POST, DELETE]",
        &format!("{}/event-packets/6/tickets", BASE),
        "[GET, POST]",
    );
}

#[test]
fn lists_keep_order_and_give_each_item_its_own_links() {
    let events = build_simple_events(vec![sample_event(2), sample_event(1)], BASE);
    assert_eq!(events.len(), 2);
    assert_eq!(events[0].links.link.href, format!("{}/events/2", BASE));
    assert_eq!(events[1].links.link.href, format!("{}/events/1", BASE));
    let packets = build_simple_event_packets(vec![sample_packet(5)], BASE);
    assert_eq!(packets[0].links.link.href, format!("{}/event-packets/5", BASE));
    let tickets = build_simple_tickets(vec![sample_ticket("A"), sample_ticket("B")], BASE);
    assert_eq!(tickets[0].links.link.href, format!("{}/tickets/A", BASE));
    assert_eq!(tickets[1].links.link.href, format!("{}/tickets/B", BASE));
    assert!(build_simple_events(Vec::new(), BASE).is_empty());
}

#[test]
fn nested_lists_keep_order() {
    let packets = build_packets_over_event(vec![sample_packet(5), sample_packet(6)], 1, BASE);
    assert_eq!(packets.len(), 2);
    assert_eq!(packets[1].data.id, 6);
    assert_eq!(packets[1].links.link.href, format!("{}/events/1/event-packets", BASE));
    let events = build_events_over_packet(vec![sample_event(5)], 2, BASE);
    assert_eq!(events[0].links.parent.as_ref().unwrap().href, format!("{}/event-packets/2", BASE));
    let tickets = build_tickets_over_event(vec![sample_ticket("A"), sample_ticket("B")], 3, BASE);
    assert_eq!(tickets[1].links.link.href, format!("{}/events/3/tickets/B", BASE));
    let tickets = build_tickets_over_packet(vec![sample_ticket("A")], 4, BASE);
    assert_eq!(tickets[0].links.link.href, format!("{}/event-packets/4/tickets/A", BASE));
}

#[test]
fn read_only_event_envelope() {
    let r = EventResponse::new(sample_event(4), BASE);
    assert_eq!(r.event.id, 4);
    check_link(&r.links.link, &format!("{}/events/4", BASE), None);
    check_link(r.links.parent.as_ref().unwrap(), &format!("{}/events", BASE), None);
    let others = r.links.others.expect("relations");
    assert_eq!(others.len(), 2);
    check_link(
        others.get("event-packets").unwrap(),
        &format!("{}/events/4/event-packets", BASE),
        Some("GET"),
    );
    check_link(others.get("tickets").unwrap(), &format!("{}/events/4/tickets", BASE), Some("GET"));
}

#[test]
fn read_only_packet_envelope() {
    let r = EventPacketResponse::new(sample_packet(4), BASE);
    assert_eq!(r.event_packet.id, 4);
    check_link(&r.links.link, &format!("{}/event-packets/4", BASE), None);
    check_link(r.links.parent.as_ref().unwrap(), &format!("{}/event-packets", BASE), None);
    let others = r.links.others.expect("relations");
    assert_eq!(others.len(), 2);
    check_link(
        others.get("events").unwrap(),
        &format!("{}/event-packets/4/events", BASE),
        Some("GET"),
    );
    check_link(
        others.get("tickets").unwrap(),
        &format!("{}/event-packets/4/tickets", BASE),
        Some("GET"),
    );
}

#[test]
fn read_only_ticket_envelope() {
    let r = TicketResponse::new(sample_ticket("T9"), BASE);
    assert_eq!(r.ticket.cod, "T9");
    check_plain_links(
        &r.links,
        &format!("{}/tickets/T9", BASE),
        "GET",
        &format!("{}/tickets", BASE),
        "GET",
    );
}

#[test]
fn members_are_parent_self_then_relations() {
    let r = build_simple_event(sample_event(1), "b");
    let members = r.links.to_members();
    let names: Vec<&str> = members.iter().map(|m| m.0.as_str()).collect();
    assert_eq!(names, vec!["parent", "self", "event-packets", "tickets"]);
    assert_eq!(members[0].1.href, "b/events");
    assert_eq!(members[1].1.href, "b/events/1");
    assert_eq!(members[2].1.href, "b/events/1/event-packets");
    assert_eq!(members[3].1.href, "b/events/1/tickets");
    let r = ResponseBuilder::new((), "s").build();
    let members = r.links.to_members();
    assert_eq!(members.len(), 1);
    assert_eq!(members[0].0, "self");
    assert_eq!(members[0].1.href, "s");
}
