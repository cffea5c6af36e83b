//! Hypermedia links and the envelopes that carry them.

use crate::models::event::{Event, EventQuery, EventQueryView};
use crate::models::event_packets::{EventPacketQuery, EventPacketQueryView, EventPackets};
use crate::models::ticket::Ticket;
use crate::shared::link_map::{
    distinct_names, lemma_index_of_absent_name, lemma_map_of_entries, map_of, named_views,
    with_link, LinkMap,
};
use crate::shared::text::{
    decimal, decimal_string, followed_by, join, join_strings, join_strs, opt_view, string_views,
    views_of,
};
use vstd::prelude::*;

verus! {

/// A link: where it points, and which methods the target accepts.
#[derive(Debug)]
pub struct Link {
    pub href: String,
    pub ty: Option<String>,
}

/// The mathematical content of a [`Link`].
pub struct LinkView {
    pub href: Seq<char>,
    pub ty: Option<Seq<char>>,
}

impl View for Link {
    type V = LinkView;

    open spec fn view(&self) -> LinkView {
        LinkView { href: self.href@, ty: opt_view(self.ty) }
    }
}

impl Clone for Link {
    fn clone(&self) -> (r: Self)
        ensures
            r@ == self@,
    {
        let ty = match &self.ty {
            Some(t) => Some(t.clone()),
            None => None,
        };
        Link { href: self.href.clone(), ty }
    }
}

impl Link {
    /// A link to `href` without a method annotation.
    pub fn new(href: &str) -> (r: Self)
        ensures
            r@ == (LinkView { href: href@, ty: None }),
    {
        Link { href: String::from_str(href), ty: None }
    }

    /// The same link, annotated with `ty`.
    pub fn with_type(self, ty: &str) -> (r: Self)
        ensures
            r@ == (LinkView { href: self@.href, ty: Some(ty@) }),
    {
        Link { href: self.href, ty: Some(String::from_str(ty)) }
    }

    /// The same link, annotated with `types` joined by a comma and a space.
    pub fn with_types(self, types: &[&str]) -> (r: Self)
        ensures
            r@ == (LinkView { href: self@.href, ty: Some(join(views_of(types@), ", "@)) }),
    {
        Link { href: self.href, ty: Some(join_strs(types, ", ")) }
    }
}

/// The links of one resource: itself, the resource above it, and named
/// relations. `others` is absent rather than empty.
#[derive(Debug)]
pub struct Links {
    pub parent: Option<Link>,
    pub link: Link,
    pub others: Option<LinkMap>,
}

/// The mathematical content of a [`Links`].
pub struct LinksView {
    pub parent: Option<LinkView>,
    pub link: LinkView,
    pub others: Option<Map<Seq<char>, LinkView>>,
}

/// The content of an optional link.
pub open spec fn opt_link_view(link: Option<Link>) -> Option<LinkView> {
    match link {
        Some(l) => Some(l@),
        None => None,
    }
}

/// The content of an optional map of links.
pub open spec fn opt_map_view(links: Option<LinkMap>) -> Option<Map<Seq<char>, LinkView>> {
    match links {
        Some(m) => Some(m@),
        None => None,
    }
}

impl View for Links {
    type V = LinksView;

    open spec fn view(&self) -> LinksView {
        LinksView {
            parent: opt_link_view(self.parent),
            link: self.link@,
            others: opt_map_view(self.others),
        }
    }
}

impl Clone for Links {
    fn clone(&self) -> (r: Self)
        ensures
            r@ == self@,
    {
        let parent = match &self.parent {
            Some(p) => Some(p.clone()),
            None => None,
        };
        let others = match &self.others {
            Some(m) => Some(m.clone()),
            None => None,
        };
        Links { parent, link: self.link.clone(), others }
    }
}

/// The name under which a set of links writes the link to the resource
/// itself.
pub const SELF_NAME: &'static str = "self";

/// The name under which a set of links writes the link to the resource
/// above.
pub const PARENT_NAME: &'static str = "parent";

/// Whether no name occurs twice among the members.
pub open spec fn names_differ(members: Seq<(Seq<char>, LinkView)>) -> bool {
    forall|i: int, j: int|
        0 <= i < j < members.len() ==> (#[trigger] members[i]).0 != (#[trigger] members[j]).0
}

impl Links {
    /// The relations in their order; none when the map is absent.
    pub open spec fn relations(self) -> Seq<(String, Link)> {
        match self.others {
            Some(m) => m.listed(),
            None => seq![],
        }
    }

    /// The members of the set as they are written: the parent link, if
    /// there is one, under the name `parent`, the self link under the name
    /// `self`, then the relations under their names, in their order.
    pub open spec fn members(self) -> Seq<(Seq<char>, LinkView)> {
        (match self.parent {
            Some(p) => seq![(PARENT_NAME@, p@)],
            None => seq![],
        }) + seq![(SELF_NAME@, self.link@)] + named_views(self.relations())
    }

    /// Whether a relation bears one of the two names that the set keeps for
    /// the self link and the parent link.
    pub open spec fn takes_reserved_name(self) -> bool {
        match self.others {
            Some(m) => m@.contains_key(SELF_NAME@) || m@.contains_key(PARENT_NAME@),
            None => false,
        }
    }

    /// The members of the set as they are written, each with its name. No
    /// name occurs twice unless a relation took a reserved name.
    pub fn to_members(&self) -> (r: Vec<(String, Link)>)
        ensures
            named_views(r@) == self.members(),
            !self.takes_reserved_name() ==> names_differ(self.members()),
    {
        let mut out: Vec<(String, Link)> = Vec::new();
        match &self.parent {
            Some(p) => {
                out.push((String::from_str(PARENT_NAME), p.clone()));
            },
            None => {},
        }
        out.push((String::from_str(SELF_NAME), self.link.clone()));
        let ghost head = named_views(out@);
        assert(head =~= (match self.parent {
            Some(p) => seq![(PARENT_NAME@, p@)],
            None => seq![],
        }) + seq![(SELF_NAME@, self.link@)]);
        match &self.others {
            Some(m) => {
                let entries = m.entries();
                proof {
                    self.lemma_members_differ();
                }
                let mut i: usize = 0;
                assert(named_views(out@) =~= head + named_views(entries@.take(0)));
                while i < entries.len()
                    invariant
                        i <= entries@.len(),
                        named_views(out@) == head + named_views(entries@.take(i as int)),
                    decreases entries@.len() - i,
                {
                    let ghost before = out@;
                    let name = entries[i].0.clone();
                    let link = entries[i].1.clone();
                    out.push((name, link));
                    proof {
                        let next = (entries@[i as int].0@, entries@[i as int].1@);
                        assert(named_views(out@) =~= named_views(before).push(next));
                        assert(named_views(entries@.take(i + 1)) =~= named_views(
                            entries@.take(i as int),
                        ).push(next));
                    }
                    i = i + 1;
                    assert(named_views(out@) =~= head + named_views(entries@.take(i as int)));
                }
                assert(entries@.take(entries@.len() as int) =~= entries@);
            },
            None => {
                proof {
                    self.lemma_members_differ();
                }
                assert(named_views(out@) =~= head + named_views(self.relations()));
            },
        }
        out
    }
}

impl Links {
    proof fn lemma_members_differ(self)
        requires
            self.others matches Some(m) ==> distinct_names(m.listed()) && map_of(m.listed())
                == m@,
        ensures
            !self.takes_reserved_name() ==> names_differ(self.members()),
    {
        reveal_strlit("self");
        reveal_strlit("parent");
        assert(SELF_NAME@ != PARENT_NAME@) by {
            assert(SELF_NAME@[0] == 's');
            assert(PARENT_NAME@[0] == 'p');
        }
        if !self.takes_reserved_name() {
            let relations = self.relations();
            let head = (match self.parent {
                Some(p) => seq![(PARENT_NAME@, p@)],
                None => seq![],
            }) + seq![(SELF_NAME@, self.link@)];
            let members = self.members();
            assert(members =~= head + named_views(relations));
            lemma_map_of_entries(relations);
            assert forall|i: int, j: int| 0 <= i < j < members.len() implies (
            #[trigger] members[i]).0 != (#[trigger] members[j]).0 by {
                if j >= head.len() {
                    let jj = j - head.len();
                    assert(members[j].0 == relations[jj].0@);
                    assert(map_of(relations).contains_key(relations[jj].0@));
                    if i >= head.len() {
                        let ii = i - head.len();
                        assert(members[i].0 == relations[ii].0@);
                    }
                }
            }
        }
    }
}

/// An entity together with its links.
#[derive(Debug)]
pub struct Response<T> {
    pub data: T,
    pub links: Links,
}

/// Collects the links of one entity before the envelope is made.
pub struct ResponseBuilder<T> {
    data: T,
    self_link: Link,
    parent_link: Option<Link>,
    other_links: LinkMap,
}

/// What a [`ResponseBuilder`] has collected. The relations are held twice:
/// by name in `other_links`, and in `relations` in the order in which they
/// will be written.
pub struct BuilderView<T> {
    pub data: T,
    pub self_link: LinkView,
    pub parent_link: Option<LinkView>,
    pub other_links: Map<Seq<char>, LinkView>,
    pub relations: Seq<(Seq<char>, LinkView)>,
}

/// The links that a builder with this content turns into: the relation map
/// is left out when nothing was put into it.
pub open spec fn built_links<T>(b: BuilderView<T>) -> LinksView {
    LinksView {
        parent: b.parent_link,
        link: b.self_link,
        others: if b.other_links == Map::<Seq<char>, LinkView>::empty() {
            None
        } else {
            Some(b.other_links)
        },
    }
}

impl<T> View for ResponseBuilder<T> {
    type V = BuilderView<T>;

    closed spec fn view(&self) -> BuilderView<T> {
        BuilderView {
            data: self.data,
            self_link: self.self_link@,
            parent_link: opt_link_view(self.parent_link),
            other_links: self.other_links@,
            relations: named_views(self.other_links.listed()),
        }
    }
}

impl<T> ResponseBuilder<T> {
    /// Starts an envelope for `data` whose self link points to `self_href`.
    pub fn new(data: T, self_href: &str) -> (r: Self)
        ensures
            r@ == (BuilderView {
                data,
                self_link: LinkView { href: self_href@, ty: None },
                parent_link: None,
                other_links: Map::empty(),
                relations: Seq::empty(),
            }),
    {
        ResponseBuilder {
            data,
            self_link: Link::new(self_href),
            parent_link: None,
            other_links: LinkMap::new(),
        }
    }

    /// Annotates the self link with `ty`.
    pub fn self_type(self, ty: &str) -> (r: Self)
        ensures
            r@ == (BuilderView {
                data: self@.data,
                self_link: LinkView { href: self@.self_link.href, ty: Some(ty@) },
                parent_link: self@.parent_link,
                other_links: self@.other_links,
                relations: self@.relations,
            }),
    {
        ResponseBuilder {
            data: self.data,
            self_link: self.self_link.with_type(ty),
            parent_link: self.parent_link,
            other_links: self.other_links,
        }
    }

    /// Annotates the self link with `types` joined by a comma and a space.
    pub fn self_types(self, types: &[&str]) -> (r: Self)
        ensures
            r@ == (BuilderView {
                data: self@.data,
                self_link: LinkView {
                    href: self@.self_link.href,
                    ty: Some(join(views_of(types@), ", "@)),
                },
                parent_link: self@.parent_link,
                other_links: self@.other_links,
                relations: self@.relations,
            }),
    {
        ResponseBuilder {
            data: self.data,
            self_link: self.self_link.with_types(types),
            parent_link: self.parent_link,
            other_links: self.other_links,
        }
    }

    /// Sets the parent link to `href`, without annotation.
    pub fn parent(self, href: &str) -> (r: Self)
        ensures
            r@ == (BuilderView {
                data: self@.data,
                self_link: self@.self_link,
                parent_link: Some(LinkView { href: href@, ty: None }),
                other_links: self@.other_links,
                relations: self@.relations,
            }),
    {
        ResponseBuilder {
            data: self.data,
            self_link: self.self_link,
            parent_link: Some(Link::new(href)),
            other_links: self.other_links,
        }
    }

    /// Sets the parent link to `href`, annotated with `ty`.
    pub fn parent_with_type(self, href: &str, ty: &str) -> (r: Self)
        ensures
            r@ == (BuilderView {
                data: self@.data,
                self_link: self@.self_link,
                parent_link: Some(LinkView { href: href@, ty: Some(ty@) }),
                other_links: self@.other_links,
                relations: self@.relations,
            }),
    {
        ResponseBuilder {
            data: self.data,
            self_link: self.self_link,
            parent_link: Some(Link::new(href).with_type(ty)),
            other_links: self.other_links,
        }
    }

    /// Sets the parent link to `href`, annotated with `types` joined by a
    /// comma and a space.
    pub fn parent_with_types(self, href: &str, types: &[&str]) -> (r: Self)
        ensures
            r@ == (BuilderView {
                data: self@.data,
                self_link: self@.self_link,
                parent_link: Some(
                    LinkView { href: href@, ty: Some(join(views_of(types@), ", "@)) },
                ),
                other_links: self@.other_links,
                relations: self@.relations,
            }),
    {
        ResponseBuilder {
            data: self.data,
            self_link: self.self_link,
            parent_link: Some(Link::new(href).with_types(types)),
            other_links: self.other_links,
        }
    }

    /// Puts a link to `href` under the relation `name`, in place of the link
    /// that the relation had.
    pub fn link(self, name: &str, href: &str) -> (r: Self)
        ensures
            r@ == (BuilderView {
                data: self@.data,
                self_link: self@.self_link,
                parent_link: self@.parent_link,
                other_links: self@.other_links.insert(name@, LinkView { href: href@, ty: None }),
                relations: with_link(
                    self@.relations,
                    name@,
                    LinkView { href: href@, ty: None },
                ),
            }),
    {
        let mut other_links = self.other_links;
        other_links.insert(name, Link::new(href));
        ResponseBuilder {
            data: self.data,
            self_link: self.self_link,
            parent_link: self.parent_link,
            other_links,
        }
    }

    /// Puts a link to `href`, annotated with `ty`, under the relation `name`.
    pub fn link_with_type(self, name: &str, href: &str, ty: &str) -> (r: Self)
        ensures
            r@ == (BuilderView {
                data: self@.data,
                self_link: self@.self_link,
                parent_link: self@.parent_link,
                other_links: self@.other_links.insert(
                    name@,
                    LinkView { href: href@, ty: Some(ty@) },
                ),
                relations: with_link(
                    self@.relations,
                    name@,
                    LinkView { href: href@, ty: Some(ty@) },
                ),
            }),
    {
        let mut other_links = self.other_links;
        other_links.insert(name, Link::new(href).with_type(ty));
        ResponseBuilder {
            data: self.data,
            self_link: self.self_link,
            parent_link: self.parent_link,
            other_links,
        }
    }

    /// Puts a link to `href`, annotated with `types` joined by a comma and a
    /// space, under the relation `name`.
    pub fn link_with_types(self, name: &str, href: &str, types: &[&str]) -> (r: Self)
        ensures
            r@ == (BuilderView {
                data: self@.data,
                self_link: self@.self_link,
                parent_link: self@.parent_link,
                other_links: self@.other_links.insert(
                    name@,
                    LinkView { href: href@, ty: Some(join(views_of(types@), ", "@)) },
                ),
                relations: with_link(
                    self@.relations,
                    name@,
                    LinkView { href: href@, ty: Some(join(views_of(types@), ", "@)) },
                ),
            }),
    {
        let mut other_links = self.other_links;
        other_links.insert(name, Link::new(href).with_types(types));
        ResponseBuilder {
            data: self.data,
            self_link: self.self_link,
            parent_link: self.parent_link,
            other_links,
        }
    }

    /// Makes the envelope: the entity unchanged, the self link, the parent
    /// link if one was set, and the relation map unless it is empty.
    pub fn build(self) -> (r: Response<T>)
        ensures
            r.data == self@.data,
            r.links@ == built_links(self@),
            named_views(r.links.relations()) == self@.relations,
    {
        let others = if self.other_links.is_empty() {
            None
        } else {
            Some(self.other_links)
        };
        Response {
            data: self.data,
            links: Links { parent: self.parent_link, link: self.self_link, others },
        }
    }

    /// Starts an envelope for `entity`; the same as [`ResponseBuilder::new`].
    pub fn builder(entity: T, self_href: &str) -> (r: ResponseBuilder<T>)
        ensures
            r@ == (BuilderView {
                data: entity,
                self_link: LinkView { href: self_href@, ty: None },
                parent_link: None,
                other_links: Map::empty(),
                relations: Seq::empty(),
            }),
    {
        ResponseBuilder::new(entity, self_href)
    }
}


/// The methods of a single resource.
pub const ITEM_METHODS: &'static str = "[GET, PUT, POST, DELETE]";

/// The methods of a collection.
pub const COLLECTION_METHODS: &'static str = "[GET, POST]";

/// The method of a listing that was filtered.
pub const READ_METHOD: &'static str = "GET";

/// A link to `href` annotated with `ty`.
pub open spec fn annotated(href: Seq<char>, ty: Seq<char>) -> LinkView {
    LinkView { href, ty: Some(ty) }
}

/// The address of the event collection.
pub open spec fn events_href(base: Seq<char>) -> Seq<char> {
    base + "/events"@
}

/// The address of the event `id`.
pub open spec fn event_href(base: Seq<char>, id: int) -> Seq<char> {
    base + "/events/"@ + decimal(id)
}

/// The address of the packet collection.
pub open spec fn packets_href(base: Seq<char>) -> Seq<char> {
    base + "/event-packets"@
}

/// The address of the packet `id`.
pub open spec fn packet_href(base: Seq<char>, id: int) -> Seq<char> {
    base + "/event-packets/"@ + decimal(id)
}

/// The address of the ticket collection below `owner`, where `owner` is the
/// base address, an event or a packet.
pub open spec fn tickets_href(owner: Seq<char>) -> Seq<char> {
    owner + "/tickets"@
}

/// The address of the ticket `cod` below `owner`.
pub open spec fn ticket_href(owner: Seq<char>, cod: Seq<char>) -> Seq<char> {
    owner + "/tickets/"@ + cod
}

/// The query part `key` followed by the text, if the text is there.
pub open spec fn text_part(key: Seq<char>, value: Option<Seq<char>>) -> Seq<Seq<char>> {
    match value {
        Some(v) => seq![key + v],
        None => seq![],
    }
}

/// The query part `key` followed by the number in decimal, if the number is
/// there.
pub open spec fn number_part(key: Seq<char>, value: Option<int>) -> Seq<Seq<char>> {
    match value {
        Some(n) => seq![key + decimal(n)],
        None => seq![],
    }
}

/// An optional `i32` as an optional integer.
pub open spec fn opt_i32(value: Option<i32>) -> Option<int> {
    match value {
        Some(n) => Some(n as int),
        None => None,
    }
}

/// An optional `i64` as an optional integer.
pub open spec fn opt_i64(value: Option<i64>) -> Option<int> {
    match value {
        Some(n) => Some(n as int),
        None => None,
    }
}

/// The query parts that echo the filters of an event listing: `location`,
/// then `name`, each only if the request gave it.
pub open spec fn event_query_parts(q: EventQueryView) -> Seq<Seq<char>> {
    text_part("location="@, q.locatie) + text_part("name="@, q.nume)
}

/// The query parts that echo the filters of a packet listing: `page`,
/// `items_per_page`, `available_tickets`, `type`, in this order, each only
/// if the request gave it.
pub open spec fn packet_query_parts(q: EventPacketQueryView) -> Seq<Seq<char>> {
    number_part("page="@, opt_i64(q.page)) + number_part(
        "items_per_page="@,
        opt_i64(q.items_per_page),
    ) + number_part("available_tickets="@, opt_i32(q.bilete)) + text_part("type="@, q.descriere)
}

/// `href` followed by a question mark and the parts joined by `&`; `href`
/// alone when there are no parts.
pub open spec fn with_query(href: Seq<char>, parts: Seq<Seq<char>>) -> Seq<char> {
    if parts.len() == 0 {
        href
    } else {
        href + "?"@ + join(parts, "&"@)
    }
}

/// The links of a ticket reached on its own.
pub open spec fn simple_ticket_links(base: Seq<char>, cod: Seq<char>) -> LinksView {
    LinksView {
        parent: Some(annotated(tickets_href(base), COLLECTION_METHODS@)),
        link: annotated(ticket_href(base, cod), ITEM_METHODS@),
        others: None,
    }
}

/// The links of an event reached on its own: itself, the collection, and
/// the relations `event-packets` and `tickets` below it.
pub open spec fn simple_event_links(base: Seq<char>, id: int) -> LinksView {
    LinksView {
        parent: Some(annotated(events_href(base), COLLECTION_METHODS@)),
        link: annotated(event_href(base, id), ITEM_METHODS@),
        others: Some(
            Map::<Seq<char>, LinkView>::empty().insert(
                "event-packets"@,
                annotated(event_href(base, id) + "/event-packets"@, COLLECTION_METHODS@),
            ).insert(
                "tickets"@,
                annotated(tickets_href(event_href(base, id)), COLLECTION_METHODS@),
            ),
        ),
    }
}

/// The relations of an event reached on its own, as they are written:
/// first its packets, then its tickets.
pub open spec fn simple_event_relations(base: Seq<char>, id: int) -> Seq<(Seq<char>, LinkView)> {
    seq![
        (
            "event-packets"@,
            annotated(event_href(base, id) + "/event-packets"@, COLLECTION_METHODS@),
        ),
        ("tickets"@, annotated(tickets_href(event_href(base, id)), COLLECTION_METHODS@)),
    ]
}

/// The relations of a packet reached on its own, as they are written: first
/// its events, then its tickets.
pub open spec fn simple_event_packet_relations(base: Seq<char>, id: int) -> Seq<
    (Seq<char>, LinkView),
> {
    seq![
        ("events"@, annotated(packet_href(base, id) + "/events"@, COLLECTION_METHODS@)),
        ("tickets"@, annotated(tickets_href(packet_href(base, id)), COLLECTION_METHODS@)),
    ]
}

/// The links of a packet reached on its own: itself, the collection, and
/// the relations `events` and `tickets` below it.
pub open spec fn simple_event_packet_links(base: Seq<char>, id: int) -> LinksView {
    LinksView {
        parent: Some(annotated(packets_href(base), COLLECTION_METHODS@)),
        link: annotated(packet_href(base, id), ITEM_METHODS@),
        others: Some(
            Map::<Seq<char>, LinkView>::empty().insert(
                "events"@,
                annotated(packet_href(base, id) + "/events"@, COLLECTION_METHODS@),
            ).insert(
                "tickets"@,
                annotated(tickets_href(packet_href(base, id)), COLLECTION_METHODS@),
            ),
        ),
    }
}

/// The links of an item of a filtered event listing: the listing with its
/// filters, and the unfiltered collection above it.
pub open spec fn filtered_event_links(base: Seq<char>, q: EventQueryView) -> LinksView {
    LinksView {
        parent: Some(annotated(events_href(base), COLLECTION_METHODS@)),
        link: annotated(with_query(events_href(base), event_query_parts(q)), READ_METHOD@),
        others: None,
    }
}

/// The links of an item of a filtered packet listing: the listing with its
/// filters, and the unfiltered collection above it.
pub open spec fn filtered_event_packet_links(
    base: Seq<char>,
    q: EventPacketQueryView,
) -> LinksView {
    LinksView {
        parent: Some(annotated(packets_href(base), COLLECTION_METHODS@)),
        link: annotated(with_query(packets_href(base), packet_query_parts(q)), READ_METHOD@),
        others: None,
    }
}

/// The links of a packet reached through the event `id`: the packets of
/// that event, and the event above them.
pub open spec fn packet_over_event_links(base: Seq<char>, id: int) -> LinksView {
    LinksView {
        parent: Some(annotated(event_href(base, id), ITEM_METHODS@)),
        link: annotated(event_href(base, id) + "/event-packets"@, COLLECTION_METHODS@),
        others: None,
    }
}

/// The links of an event reached through the packet `id`: the events of
/// that packet, and the packet above them.
pub open spec fn event_over_packet_links(base: Seq<char>, id: int) -> LinksView {
    LinksView {
        parent: Some(annotated(packet_href(base, id), ITEM_METHODS@)),
        link: annotated(packet_href(base, id) + "/events"@, COLLECTION_METHODS@),
        others: None,
    }
}

/// The links of the ticket `cod` reached through the event `id`.
pub open spec fn ticket_over_event_links(base: Seq<char>, id: int, cod: Seq<char>) -> LinksView {
    LinksView {
        parent: Some(annotated(tickets_href(event_href(base, id)), COLLECTION_METHODS@)),
        link: annotated(ticket_href(event_href(base, id), cod), ITEM_METHODS@),
        others: None,
    }
}

/// The links of the ticket `cod` reached through the packet `id`.
pub open spec fn ticket_over_packet_links(base: Seq<char>, id: int, cod: Seq<char>) -> LinksView {
    LinksView {
        parent: Some(annotated(tickets_href(packet_href(base, id)), COLLECTION_METHODS@)),
        link: annotated(ticket_href(packet_href(base, id), cod), ITEM_METHODS@),
        others: None,
    }
}

/// The address of the event `id`.
pub fn event_address(base_url: &str, id: i32) -> (r: String)
    ensures
        r@ == event_href(base_url@, id as int),
{
    let mut href = followed_by(base_url, "/events/");
    href.append(decimal_string(id as i64).as_str());
    href
}

/// The address of the packet `id`.
pub fn packet_address(base_url: &str, id: i32) -> (r: String)
    ensures
        r@ == packet_href(base_url@, id as int),
{
    let mut href = followed_by(base_url, "/event-packets/");
    href.append(decimal_string(id as i64).as_str());
    href
}

/// The address of the ticket `cod` below `owner`.
pub fn ticket_address(owner: &str, cod: &str) -> (r: String)
    ensures
        r@ == ticket_href(owner@, cod@),
{
    let mut href = followed_by(owner, "/tickets/");
    href.append(cod);
    href
}

fn push_text_part(parts: &mut Vec<String>, key: &str, value: &Option<String>)
    ensures
        string_views(final(parts)@) == string_views(old(parts)@) + text_part(
            key@,
            opt_view(*value),
        ),
{
    match value {
        Some(v) => {
            parts.push(followed_by(key, v.as_str()));
        },
        None => {},
    }
    assert(string_views(parts@) =~= string_views(old(parts)@) + text_part(key@, opt_view(*value)));
}

fn push_number_part(parts: &mut Vec<String>, key: &str, value: Option<i64>)
    ensures
        string_views(final(parts)@) == string_views(old(parts)@) + number_part(
            key@,
            opt_i64(value),
        ),
{
    match value {
        Some(n) => {
            parts.push(followed_by(key, decimal_string(n).as_str()));
        },
        None => {},
    }
    assert(string_views(parts@) =~= string_views(old(parts)@) + number_part(key@, opt_i64(value)));
}

fn append_query(href: String, parts: &Vec<String>) -> (r: String)
    ensures
        r@ == with_query(href@, string_views(parts@)),
{
    if parts.len() == 0 {
        href
    } else {
        let mut out = href;
        out.append("?");
        out.append(join_strings(parts, "&").as_str());
        out
    }
}

/// The address of the event listing with the filters of `params` echoed.
pub fn filtered_events_address(params: &EventQuery, base_url: &str) -> (r: String)
    ensures
        r@ == with_query(events_href(base_url@), event_query_parts(params@)),
{
    let mut parts: Vec<String> = Vec::new();
    assert(string_views(parts@) =~= Seq::<Seq<char>>::empty());
    push_text_part(&mut parts, "location=", &params.locatie);
    push_text_part(&mut parts, "name=", &params.nume);
    assert(string_views(parts@) =~= event_query_parts(params@));
    append_query(followed_by(base_url, "/events"), &parts)
}

/// The address of the packet listing with the filters of `params` echoed.
pub fn filtered_event_packets_address(params: &EventPacketQuery, base_url: &str) -> (r: String)
    ensures
        r@ == with_query(packets_href(base_url@), packet_query_parts(params@)),
{
    let mut parts: Vec<String> = Vec::new();
    assert(string_views(parts@) =~= Seq::<Seq<char>>::empty());
    push_number_part(&mut parts, "page=", params.paginare.page);
    push_number_part(&mut parts, "items_per_page=", params.paginare.items_per_page);
    let tickets: Option<i64> = match params.bilete {
        Some(n) => Some(n as i64),
        None => None,
    };
    push_number_part(&mut parts, "available_tickets=", tickets);
    push_text_part(&mut parts, "type=", &params.descriere);
    assert(string_views(parts@) =~= packet_query_parts(params@));
    append_query(followed_by(base_url, "/event-packets"), &parts)
}

/// The envelope of a ticket reached on its own.
pub fn build_simple_ticket(ticket: Ticket, base_url: &str) -> (r: Response<Ticket>)
    ensures
        r.data == ticket,
        r.links@ == simple_ticket_links(base_url@, ticket.cod@),
{
    let href = ticket_address(base_url, ticket.cod.as_str());
    let parent = followed_by(base_url, "/tickets");
    ResponseBuilder::new(ticket, href.as_str()).self_type(ITEM_METHODS).parent_with_type(
        parent.as_str(),
        COLLECTION_METHODS,
    ).build()
}

/// The envelope of an event reached on its own.
pub fn build_simple_event(event: Event, base_url: &str) -> (r: Response<Event>)
    ensures
        r.data == event,
        r.links@ == simple_event_links(base_url@, event.id as int),
        named_views(r.links.relations()) == simple_event_relations(base_url@, event.id as int),
{
    let href = event_address(base_url, event.id);
    let parent = followed_by(base_url, "/events");
    let packets = followed_by(href.as_str(), "/event-packets");
    let tickets = followed_by(href.as_str(), "/tickets");
    let first = ResponseBuilder::new(event, href.as_str()).self_type(
        ITEM_METHODS,
    ).parent_with_type(parent.as_str(), COLLECTION_METHODS).link_with_type(
        "event-packets",
        packets.as_str(),
        COLLECTION_METHODS,
    );
    let builder = first.link_with_type("tickets", tickets.as_str(), COLLECTION_METHODS);
    proof {
        assert(builder@.other_links.contains_key("tickets"@));
        reveal_strlit("event-packets");
        reveal_strlit("tickets");
        assert("event-packets"@.len() != "tickets"@.len());
        assert(first@.relations.len() == 1);
        lemma_index_of_absent_name(first@.relations, "tickets"@, 0);
        assert(builder@.relations =~= simple_event_relations(base_url@, event.id as int));
    }
    builder.build()
}

/// The envelope of a packet reached on its own.
pub fn build_simple_event_packet(packet: EventPackets, base_url: &str) -> (r: Response<
    EventPackets,
>)
    ensures
        r.data == packet,
        r.links@ == simple_event_packet_links(base_url@, packet.id as int),
        named_views(r.links.relations()) == simple_event_packet_relations(
            base_url@,
            packet.id as int,
        ),
{
    let href = packet_address(base_url, packet.id);
    let parent = followed_by(base_url, "/event-packets");
    let events = followed_by(href.as_str(), "/events");
    let tickets = followed_by(href.as_str(), "/tickets");
    let first = ResponseBuilder::new(packet, href.as_str()).self_type(
        ITEM_METHODS,
    ).parent_with_type(parent.as_str(), COLLECTION_METHODS).link_with_type(
        "events",
        events.as_str(),
        COLLECTION_METHODS,
    );
    let builder = first.link_with_type("tickets", tickets.as_str(), COLLECTION_METHODS);
    proof {
        assert(builder@.other_links.contains_key("tickets"@));
        reveal_strlit("events");
        reveal_strlit("tickets");
        assert("events"@.len() != "tickets"@.len());
        assert(first@.relations.len() == 1);
        lemma_index_of_absent_name(first@.relations, "tickets"@, 0);
        assert(builder@.relations =~= simple_event_packet_relations(
            base_url@,
            packet.id as int,
        ));
    }
    builder.build()
}

/// The envelopes of a filtered event listing, one for each event in its
/// order: every self link echoes the filters of `params`.
pub fn build_filtered_event(events: Vec<Event>, params: &EventQuery, base_url: &str) -> (r: Vec<
    Response<Event>,
>)
    ensures
        r@.len() == events@.len(),
        forall|i: int|
            0 <= i < r@.len() ==> (#[trigger] r@[i]).data == events@[i] && r@[i].links@
                == filtered_event_links(base_url@, params@),
{
    let href = filtered_events_address(params, base_url);
    let parent = followed_by(base_url, "/events");
    let mut out: Vec<Response<Event>> = Vec::new();
    for event in it: events
        invariant
            out@.len() == it.index(),
            it.seq() == events@,
            href@ == with_query(events_href(base_url@), event_query_parts(params@)),
            parent@ == events_href(base_url@),
            forall|i: int|
                0 <= i < out@.len() ==> (#[trigger] out@[i]).data == events@[i] && out@[i].links@
                    == filtered_event_links(base_url@, params@),
    {
        let response = ResponseBuilder::new(event, href.as_str()).self_type(
            READ_METHOD,
        ).parent_with_type(parent.as_str(), COLLECTION_METHODS).build();
        out.push(response);
    }
    out
}

/// The envelopes of a filtered packet listing, one for each packet in its
/// order: every self link echoes the filters of `params`.
pub fn build_filtered_event_packets(
    packets: Vec<EventPackets>,
    params: &EventPacketQuery,
    base_url: &str,
) -> (r: Vec<Response<EventPackets>>)
    ensures
        r@.len() == packets@.len(),
        forall|i: int|
            0 <= i < r@.len() ==> (#[trigger] r@[i]).data == packets@[i] && r@[i].links@
                == filtered_event_packet_links(base_url@, params@),
{
    let href = filtered_event_packets_address(params, base_url);
    let parent = followed_by(base_url, "/event-packets");
    let mut out: Vec<Response<EventPackets>> = Vec::new();
    for packet in it: packets
        invariant
            out@.len() == it.index(),
            it.seq() == packets@,
            href@ == with_query(packets_href(base_url@), packet_query_parts(params@)),
            parent@ == packets_href(base_url@),
            forall|i: int|
                0 <= i < out@.len() ==> (#[trigger] out@[i]).data == packets@[i]
                    && out@[i].links@ == filtered_event_packet_links(base_url@, params@),
    {
        let response = ResponseBuilder::new(packet, href.as_str()).self_type(
            READ_METHOD,
        ).parent_with_type(parent.as_str(), COLLECTION_METHODS).build();
        out.push(response);
    }
    out
}

/// The envelope of a packet reached through the event `id`.
pub fn build_packet_over_event(event: EventPackets, id: i32, base_url: &str) -> (r: Response<
    EventPackets,
>)
    ensures
        r.data == event,
        r.links@ == packet_over_event_links(base_url@, id as int),
{
    let parent = event_address(base_url, id);
    let href = followed_by(parent.as_str(), "/event-packets");
    ResponseBuilder::new(event, href.as_str()).self_type(COLLECTION_METHODS).parent_with_type(
        parent.as_str(),
        ITEM_METHODS,
    ).build()
}

/// The envelope of an event reached through the packet `packet_id`.
pub fn build_event_over_packet(event: Event, packet_id: i32, base_url: &str) -> (r: Response<Event>)
    ensures
        r.data == event,
        r.links@ == event_over_packet_links(base_url@, packet_id as int),
{
    let parent = packet_address(base_url, packet_id);
    let href = followed_by(parent.as_str(), "/events");
    ResponseBuilder::new(event, href.as_str()).self_type(COLLECTION_METHODS).parent_with_type(
        parent.as_str(),
        ITEM_METHODS,
    ).build()
}

/// The envelope of a ticket reached through the event `event_id`.
pub fn build_ticket_over_event(ticket: Ticket, event_id: i32, base_url: &str) -> (r: Response<
    Ticket,
>)
    ensures
        r.data == ticket,
        r.links@ == ticket_over_event_links(base_url@, event_id as int, ticket.cod@),
{
    let owner = event_address(base_url, event_id);
    let href = ticket_address(owner.as_str(), ticket.cod.as_str());
    let parent = followed_by(owner.as_str(), "/tickets");
    ResponseBuilder::new(ticket, href.as_str()).self_type(ITEM_METHODS).parent_with_type(
        parent.as_str(),
        COLLECTION_METHODS,
    ).build()
}

/// The envelope of a ticket reached through the packet `packet_id`.
pub fn build_ticket_over_packet(ticket: Ticket, packet_id: i32, base_url: &str) -> (r: Response<
    Ticket,
>)
    ensures
        r.data == ticket,
        r.links@ == ticket_over_packet_links(base_url@, packet_id as int, ticket.cod@),
{
    let owner = packet_address(base_url, packet_id);
    let href = ticket_address(owner.as_str(), ticket.cod.as_str());
    let parent = followed_by(owner.as_str(), "/tickets");
    ResponseBuilder::new(ticket, href.as_str()).self_type(ITEM_METHODS).parent_with_type(
        parent.as_str(),
        COLLECTION_METHODS,
    ).build()
}

/// The envelopes of events reached on their own, in the order of the events.
pub fn build_simple_events(items: Vec<Event>, base_url: &str) -> (r: Vec<Response<Event>>)
    ensures
        r@.len() == items@.len(),
        forall|i: int|
            0 <= i < r@.len() ==> (#[trigger] r@[i]).data == items@[i] && r@[i].links@
                == simple_event_links(base_url@, items@[i].id as int),
{
    let mut out: Vec<Response<Event>> = Vec::new();
    for item in it: items
        invariant
            out@.len() == it.index(),
            it.seq() == items@,
            forall|i: int|
                0 <= i < out@.len() ==> (#[trigger] out@[i]).data == items@[i] && out@[i].links@
                    == simple_event_links(base_url@, items@[i].id as int),
    {
        out.push(build_simple_event(item, base_url));
    }
    out
}

/// The envelopes of packets reached on their own, in the order of the
/// packets.
pub fn build_simple_event_packets(
    items: Vec<EventPackets>,
    base_url: &str,
) -> (r: Vec<Response<EventPackets>>)
    ensures
        r@.len() == items@.len(),
        forall|i: int|
            0 <= i < r@.len() ==> (#[trigger] r@[i]).data == items@[i] && r@[i].links@
                == simple_event_packet_links(base_url@, items@[i].id as int),
{
    let mut out: Vec<Response<EventPackets>> = Vec::new();
    for item in it: items
        invariant
            out@.len() == it.index(),
            it.seq() == items@,
            forall|i: int|
                0 <= i < out@.len() ==> (#[trigger] out@[i]).data == items@[i] && out@[i].links@
                    == simple_event_packet_links(base_url@, items@[i].id as int),
    {
        out.push(build_simple_event_packet(item, base_url));
    }
    out
}

/// The envelopes of tickets reached on their own, in the order of the
/// tickets.
pub fn build_simple_tickets(items: Vec<Ticket>, base_url: &str) -> (r: Vec<Response<Ticket>>)
    ensures
        r@.len() == items@.len(),
        forall|i: int|
            0 <= i < r@.len() ==> (#[trigger] r@[i]).data == items@[i] && r@[i].links@
                == simple_ticket_links(base_url@, items@[i].cod@),
{
    let mut out: Vec<Response<Ticket>> = Vec::new();
    for item in it: items
        invariant
            out@.len() == it.index(),
            it.seq() == items@,
            forall|i: int|
                0 <= i < out@.len() ==> (#[trigger] out@[i]).data == items@[i] && out@[i].links@
                    == simple_ticket_links(base_url@, items@[i].cod@),
    {
        out.push(build_simple_ticket(item, base_url));
    }
    out
}

/// The envelopes of the packets of the event `id`, in the order of the
/// packets.
pub fn build_packets_over_event(
    items: Vec<EventPackets>,
    id: i32,
    base_url: &str,
) -> (r: Vec<Response<EventPackets>>)
    ensures
        r@.len() == items@.len(),
        forall|i: int|
            0 <= i < r@.len() ==> (#[trigger] r@[i]).data == items@[i] && r@[i].links@
                == packet_over_event_links(base_url@, id as int),
{
    let mut out: Vec<Response<EventPackets>> = Vec::new();
    for item in it: items
        invariant
            out@.len() == it.index(),
            it.seq() == items@,
            forall|i: int|
                0 <= i < out@.len() ==> (#[trigger] out@[i]).data == items@[i] && out@[i].links@
                    == packet_over_event_links(base_url@, id as int),
    {
        out.push(build_packet_over_event(item, id, base_url));
    }
    out
}

/// The envelopes of the events of the packet `packet_id`, in the order of
/// the events.
pub fn build_events_over_packet(
    items: Vec<Event>,
    packet_id: i32,
    base_url: &str,
) -> (r: Vec<Response<Event>>)
    ensures
        r@.len() == items@.len(),
        forall|i: int|
            0 <= i < r@.len() ==> (#[trigger] r@[i]).data == items@[i] && r@[i].links@
                == event_over_packet_links(base_url@, packet_id as int),
{
    let mut out: Vec<Response<Event>> = Vec::new();
    for item in it: items
        invariant
            out@.len() == it.index(),
            it.seq() == items@,
            forall|i: int|
                0 <= i < out@.len() ==> (#[trigger] out@[i]).data == items@[i] && out@[i].links@
                    == event_over_packet_links(base_url@, packet_id as int),
    {
        out.push(build_event_over_packet(item, packet_id, base_url));
    }
    out
}

/// The envelopes of the tickets of the event `event_id`, in the order of the
/// tickets.
pub fn build_tickets_over_event(
    items: Vec<Ticket>,
    event_id: i32,
    base_url: &str,
) -> (r: Vec<Response<Ticket>>)
    ensures
        r@.len() == items@.len(),
        forall|i: int|
            0 <= i < r@.len() ==> (#[trigger] r@[i]).data == items@[i] && r@[i].links@
                == ticket_over_event_links(base_url@, event_id as int, items@[i].cod@),
{
    let mut out: Vec<Response<Ticket>> = Vec::new();
    for item in it: items
        invariant
            out@.len() == it.index(),
            it.seq() == items@,
            forall|i: int|
                0 <= i < out@.len() ==> (#[trigger] out@[i]).data == items@[i] && out@[i].links@
                    == ticket_over_event_links(base_url@, event_id as int, items@[i].cod@),
    {
        out.push(build_ticket_over_event(item, event_id, base_url));
    }
    out
}

/// The envelopes of the tickets of the packet `packet_id`, in the order of
/// the tickets.
pub fn build_tickets_over_packet(
    items: Vec<Ticket>,
    packet_id: i32,
    base_url: &str,
) -> (r: Vec<Response<Ticket>>)
    ensures
        r@.len() == items@.len(),
        forall|i: int|
            0 <= i < r@.len() ==> (#[trigger] r@[i]).data == items@[i] && r@[i].links@
                == ticket_over_packet_links(base_url@, packet_id as int, items@[i].cod@),
{
    let mut out: Vec<Response<Ticket>> = Vec::new();
    for item in it: items
        invariant
            out@.len() == it.index(),
            it.seq() == items@,
            forall|i: int|
                0 <= i < out@.len() ==> (#[trigger] out@[i]).data == items@[i] && out@[i].links@
                    == ticket_over_packet_links(base_url@, packet_id as int, items@[i].cod@),
    {
        out.push(build_ticket_over_packet(item, packet_id, base_url));
    }
    out
}

} // verus!
