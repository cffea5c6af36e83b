//! Event packets and the payloads that create, change and filter them.

use crate::models::rules::{check_described, described_outcome, Described};
use crate::shared::text::opt_view;
use crate::shared::validation::{
    fields_of, flatten, opt_number_ok, opt_text_ok, unless, widen, widened, ValidationErrors,
};
use vstd::prelude::*;

verus! {

/// A stored packet: a named bundle of events.
#[derive(Debug)]
pub struct EventPackets {
    pub id: i32,
    pub id_owner: i32,
    pub nume: String,
    pub locatie: Option<String>,
    pub descriere: Option<String>,
    pub numarlocuri: Option<i32>,
}

/// The mathematical content of an [`EventPackets`].
pub struct EventPacketsView {
    pub id: i32,
    pub id_owner: i32,
    pub nume: Seq<char>,
    pub locatie: Option<Seq<char>>,
    pub descriere: Option<Seq<char>>,
    pub numarlocuri: Option<i32>,
}

impl View for EventPackets {
    type V = EventPacketsView;

    open spec fn view(&self) -> EventPacketsView {
        EventPacketsView {
            id: self.id,
            id_owner: self.id_owner,
            nume: self.nume@,
            locatie: opt_view(self.locatie),
            descriere: opt_view(self.descriere),
            numarlocuri: self.numarlocuri,
        }
    }
}

/// The payload that creates a packet.
#[derive(Debug)]
pub struct CreateEventPacket {
    pub id_owner: i32,
    pub nume: String,
    pub locatie: Option<String>,
    pub descriere: Option<String>,
    pub numarlocuri: Option<i32>,
}

/// The mathematical content of a [`CreateEventPacket`].
pub struct CreateEventPacketView {
    pub id_owner: i32,
    pub nume: Seq<char>,
    pub locatie: Option<Seq<char>>,
    pub descriere: Option<Seq<char>>,
    pub numarlocuri: Option<i32>,
}

impl View for CreateEventPacket {
    type V = CreateEventPacketView;

    open spec fn view(&self) -> CreateEventPacketView {
        CreateEventPacketView {
            id_owner: self.id_owner,
            nume: self.nume@,
            locatie: opt_view(self.locatie),
            descriere: opt_view(self.descriere),
            numarlocuri: self.numarlocuri,
        }
    }
}

/// The payload that changes a packet. An absent owner keeps the stored one.
#[derive(Debug)]
pub struct UpdateEventPacket {
    pub id_owner: Option<i32>,
    pub nume: String,
    pub locatie: Option<String>,
    pub descriere: Option<String>,
    pub numarlocuri: Option<i32>,
}

/// The mathematical content of an [`UpdateEventPacket`].
pub struct UpdateEventPacketView {
    pub id_owner: Option<i32>,
    pub nume: Seq<char>,
    pub locatie: Option<Seq<char>>,
    pub descriere: Option<Seq<char>>,
    pub numarlocuri: Option<i32>,
}

impl View for UpdateEventPacket {
    type V = UpdateEventPacketView;

    open spec fn view(&self) -> UpdateEventPacketView {
        UpdateEventPacketView {
            id_owner: self.id_owner,
            nume: self.nume@,
            locatie: opt_view(self.locatie),
            descriere: opt_view(self.descriere),
            numarlocuri: self.numarlocuri,
        }
    }
}

impl CreateEventPacket {
    /// The fields that the rules speak of.
    pub open spec fn described(self) -> Described {
        Described {
            nume: self.nume@,
            locatie: opt_view(self.locatie),
            descriere: opt_view(self.descriere),
            seats: self.numarlocuri,
        }
    }

    /// Checks the payload: `Ok` exactly when it keeps the rules on name,
    /// location, description and seats, else the report of what it breaks.
    pub fn validate(&self) -> (r: Result<(), ValidationErrors>)
        ensures
            described_outcome(r, self.described(), "numarlocuri"@),
    {
        check_described(
            &self.nume,
            &self.locatie,
            &self.descriere,
            "numarlocuri",
            self.numarlocuri,
        )
    }
}

impl UpdateEventPacket {
    /// The fields that the rules speak of.
    pub open spec fn described(self) -> Described {
        Described {
            nume: self.nume@,
            locatie: opt_view(self.locatie),
            descriere: opt_view(self.descriere),
            seats: self.numarlocuri,
        }
    }

    /// Checks the payload: `Ok` exactly when it keeps the rules on name,
    /// location, description and seats, else the report of what it breaks.
    pub fn validate(&self) -> (r: Result<(), ValidationErrors>)
        ensures
            described_outcome(r, self.described(), "numarlocuri"@),
    {
        check_described(
            &self.nume,
            &self.locatie,
            &self.descriere,
            "numarlocuri",
            self.numarlocuri,
        )
    }
}

/// What a caller is told of a page below 1.
pub const PAGE_MESSAGE: &'static str = "Page must be at least 1";

/// What a caller is told of a page size out of range.
pub const ITEMS_MESSAGE: &'static str = "Items per page must be between 1 and 100";

/// What a caller is told of a type filter that is too short or too long.
pub const TYPE_FILTER_MESSAGE: &'static str = "Description filter must be less than 50 characters";

/// What a caller is told of a ticket filter below 1.
pub const TICKETS_FILTER_MESSAGE: &'static str = "Available tickets must be at least 1";

/// The page of a listing that a request asks for.
#[derive(Debug, Clone, Copy)]
pub struct PaginationParams {
    pub page: Option<i64>,
    pub items_per_page: Option<i64>,
}

/// The filters of the packet listing: `type`, `available_tickets`, and the
/// pagination keys `page` and `items_per_page`.
#[derive(Debug)]
pub struct EventPacketQuery {
    pub descriere: Option<String>,
    pub bilete: Option<i32>,
    pub paginare: PaginationParams,
}

/// The mathematical content of an [`EventPacketQuery`].
pub struct EventPacketQueryView {
    pub descriere: Option<Seq<char>>,
    pub bilete: Option<i32>,
    pub page: Option<i64>,
    pub items_per_page: Option<i64>,
}

impl View for EventPacketQuery {
    type V = EventPacketQueryView;

    open spec fn view(&self) -> EventPacketQueryView {
        EventPacketQueryView {
            descriere: opt_view(self.descriere),
            bilete: self.bilete,
            page: self.paginare.page,
            items_per_page: self.paginare.items_per_page,
        }
    }
}

impl Clone for EventPacketQuery {
    fn clone(&self) -> (r: Self)
        ensures
            r@ == self@,
    {
        let descriere = match &self.descriere {
            Some(t) => Some(t.clone()),
            None => None,
        };
        EventPacketQuery { descriere, bilete: self.bilete, paginare: self.paginare }
    }
}

/// The rules on pagination: a page, if given, of at least 1; a page size, if
/// given, from 1 to 100.
pub open spec fn pagination_ok(p: PaginationParams) -> bool {
    &&& p.page matches Some(n) ==> 1 <= n
    &&& p.items_per_page matches Some(n) ==> 1 <= n <= 100
}

/// The messages of the pagination rules that are broken, in order.
pub open spec fn pagination_violations(p: PaginationParams) -> Seq<Seq<char>> {
    unless(opt_number_ok(p.page, Some(1), None), PAGE_MESSAGE@) + unless(
        opt_number_ok(p.items_per_page, Some(1), Some(100)),
        ITEMS_MESSAGE@,
    )
}

/// The pagination keys whose rules are broken, in order.
pub open spec fn pagination_failures(p: PaginationParams) -> Seq<Seq<char>> {
    unless(opt_number_ok(p.page, Some(1), None), "page"@) + unless(
        opt_number_ok(p.items_per_page, Some(1), Some(100)),
        "items_per_page"@,
    )
}

impl PaginationParams {
    /// Checks the pagination keys: `Ok` exactly when they keep their rules,
    /// else the report of what they break.
    pub fn validate(&self) -> (r: Result<(), ValidationErrors>)
        ensures
            match r {
                Ok(_) => pagination_ok(*self),
                Err(report) => {
                    &&& !pagination_ok(*self)
                    &&& flatten(report) == pagination_violations(*self)
                    &&& fields_of(report) == pagination_failures(*self)
                },
            },
    {
        let mut report = ValidationErrors::new();
        report.check_opt_number("page", self.page, Some(1), None, PAGE_MESSAGE);
        report.check_opt_number(
            "items_per_page",
            self.items_per_page,
            Some(1),
            Some(100),
            ITEMS_MESSAGE,
        );
        report.into_result()
    }
}

/// The rules on the filters of a packet listing: a type, if given, of 3 to
/// 50 characters; a number of tickets, if given, of at least 1; and the
/// rules on pagination.
pub open spec fn packet_query_ok(q: EventPacketQueryView) -> bool {
    &&& q.descriere matches Some(t) ==> 3 <= t.len() <= 50
    &&& q.bilete matches Some(n) ==> 1 <= n
    &&& pagination_ok(PaginationParams { page: q.page, items_per_page: q.items_per_page })
}

/// The messages of the rules that the filters break: type, tickets, then
/// the pagination keys.
pub open spec fn packet_query_violations(q: EventPacketQueryView) -> Seq<Seq<char>> {
    unless(opt_text_ok(q.descriere, Some(3), Some(50)), TYPE_FILTER_MESSAGE@) + unless(
        opt_number_ok(widen(q.bilete), Some(1), None),
        TICKETS_FILTER_MESSAGE@,
    ) + pagination_violations(PaginationParams { page: q.page, items_per_page: q.items_per_page })
}

/// The fields under which the report holds findings: the filters whose
/// rules are broken, and `paginare` if a pagination rule is.
pub open spec fn packet_query_failures(q: EventPacketQueryView) -> Seq<Seq<char>> {
    unless(opt_text_ok(q.descriere, Some(3), Some(50)), "descriere"@) + unless(
        opt_number_ok(widen(q.bilete), Some(1), None),
        "bilete"@,
    ) + unless(
        pagination_ok(PaginationParams { page: q.page, items_per_page: q.items_per_page }),
        "paginare"@,
    )
}

impl EventPacketQuery {
    /// Whether the request gave a filter or a pagination key.
    pub open spec fn filtered(self) -> bool {
        ||| self.descriere is Some
        ||| self.bilete is Some
        ||| self.paginare.page is Some
        ||| self.paginare.items_per_page is Some
    }

    /// Whether the request gave a filter or a pagination key.
    pub fn has_filters(&self) -> (r: bool)
        ensures
            r == self.filtered(),
    {
        self.descriere.is_some() || self.bilete.is_some() || self.paginare.page.is_some()
            || self.paginare.items_per_page.is_some()
    }

    /// Checks the filters: `Ok` exactly when they keep their rules, else the
    /// report of what they break, the findings on pagination nested under
    /// `paginare`.
    pub fn validate(&self) -> (r: Result<(), ValidationErrors>)
        ensures
            match r {
                Ok(_) => packet_query_ok(self@),
                Err(report) => {
                    &&& !packet_query_ok(self@)
                    &&& flatten(report) == packet_query_violations(self@)
                    &&& fields_of(report) == packet_query_failures(self@)
                },
            },
    {
        let mut report = ValidationErrors::new();
        report.check_opt_text("descriere", &self.descriere, Some(3), Some(50), TYPE_FILTER_MESSAGE);
        report.check_opt_number(
            "bilete",
            widened(self.bilete),
            Some(1),
            None,
            TICKETS_FILTER_MESSAGE,
        );
        match self.paginare.validate() {
            Ok(_) => {
                assert(flatten(report) =~= packet_query_violations(self@));
                assert(fields_of(report) =~= packet_query_failures(self@));
            },
            Err(nested) => {
                report.add_nested("paginare", nested);
                assert(fields_of(report) =~= packet_query_failures(self@));
            },
        }
        report.into_result()
    }
}

} // verus!
