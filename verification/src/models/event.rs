//! Events and the payloads that create, change and filter them.

use crate::models::rules::{check_described, described_outcome, Described};
use crate::shared::text::opt_view;
use crate::shared::validation::{
    fields_of, flatten, opt_text_ok, unless, ValidationErrors,
};
use vstd::prelude::*;

verus! {

/// A stored event.
#[derive(Debug)]
pub struct Event {
    pub id: i32,
    pub id_owner: i32,
    pub nume: String,
    pub locatie: Option<String>,
    pub descriere: Option<String>,
    pub locuri: Option<i32>,
}

/// The mathematical content of an [`Event`].
pub struct EventView {
    pub id: i32,
    pub id_owner: i32,
    pub nume: Seq<char>,
    pub locatie: Option<Seq<char>>,
    pub descriere: Option<Seq<char>>,
    pub locuri: Option<i32>,
}

impl View for Event {
    type V = EventView;

    open spec fn view(&self) -> EventView {
        EventView {
            id: self.id,
            id_owner: self.id_owner,
            nume: self.nume@,
            locatie: opt_view(self.locatie),
            descriere: opt_view(self.descriere),
            locuri: self.locuri,
        }
    }
}

/// The payload that creates an event.
#[derive(Debug)]
pub struct CreateEvent {
    pub id_owner: i32,
    pub nume: String,
    pub locatie: Option<String>,
    pub descriere: Option<String>,
    pub locuri: Option<i32>,
}

/// The mathematical content of a [`CreateEvent`].
pub struct CreateEventView {
    pub id_owner: i32,
    pub nume: Seq<char>,
    pub locatie: Option<Seq<char>>,
    pub descriere: Option<Seq<char>>,
    pub locuri: Option<i32>,
}

impl View for CreateEvent {
    type V = CreateEventView;

    open spec fn view(&self) -> CreateEventView {
        CreateEventView {
            id_owner: self.id_owner,
            nume: self.nume@,
            locatie: opt_view(self.locatie),
            descriere: opt_view(self.descriere),
            locuri: self.locuri,
        }
    }
}

/// The payload that changes an event. An absent owner keeps the stored one.
#[derive(Debug)]
pub struct UpdateEvent {
    pub id_owner: Option<i32>,
    pub nume: String,
    pub locatie: Option<String>,
    pub descriere: Option<String>,
    pub locuri: Option<i32>,
}

/// The mathematical content of an [`UpdateEvent`].
pub struct UpdateEventView {
    pub id_owner: Option<i32>,
    pub nume: Seq<char>,
    pub locatie: Option<Seq<char>>,
    pub descriere: Option<Seq<char>>,
    pub locuri: Option<i32>,
}

impl View for UpdateEvent {
    type V = UpdateEventView;

    open spec fn view(&self) -> UpdateEventView {
        UpdateEventView {
            id_owner: self.id_owner,
            nume: self.nume@,
            locatie: opt_view(self.locatie),
            descriere: opt_view(self.descriere),
            locuri: self.locuri,
        }
    }
}

impl CreateEvent {
    /// The fields that the rules speak of.
    pub open spec fn described(self) -> Described {
        Described {
            nume: self.nume@,
            locatie: opt_view(self.locatie),
            descriere: opt_view(self.descriere),
            seats: self.locuri,
        }
    }

    /// Checks the payload: `Ok` exactly when it keeps the rules on name,
    /// location, description and seats, else the report of what it breaks.
    pub fn validate(&self) -> (r: Result<(), ValidationErrors>)
        ensures
            described_outcome(r, self.described(), "locuri"@),
    {
        check_described(&self.nume, &self.locatie, &self.descriere, "locuri", self.locuri)
    }
}

impl UpdateEvent {
    /// The fields that the rules speak of.
    pub open spec fn described(self) -> Described {
        Described {
            nume: self.nume@,
            locatie: opt_view(self.locatie),
            descriere: opt_view(self.descriere),
            seats: self.locuri,
        }
    }

    /// Checks the payload: `Ok` exactly when it keeps the rules on name,
    /// location, description and seats, else the report of what it breaks.
    pub fn validate(&self) -> (r: Result<(), ValidationErrors>)
        ensures
            described_outcome(r, self.described(), "locuri"@),
    {
        check_described(&self.nume, &self.locatie, &self.descriere, "locuri", self.locuri)
    }
}

/// What a caller is told of a location filter that is too long.
pub const LOCATION_FILTER_MESSAGE: &'static str = "Location filter must be less than 50 characters";

/// What a caller is told of a name filter that is too long.
pub const NAME_FILTER_MESSAGE: &'static str = "Name filter must be less than 50 characters";

/// The filters of the event listing: `location` and `name`.
pub struct EventQuery {
    pub locatie: Option<String>,
    pub nume: Option<String>,
}

/// The mathematical content of an [`EventQuery`].
pub struct EventQueryView {
    pub locatie: Option<Seq<char>>,
    pub nume: Option<Seq<char>>,
}

impl View for EventQuery {
    type V = EventQueryView;

    open spec fn view(&self) -> EventQueryView {
        EventQueryView { locatie: opt_view(self.locatie), nume: opt_view(self.nume) }
    }
}

impl Clone for EventQuery {
    fn clone(&self) -> (r: Self)
        ensures
            r@ == self@,
    {
        let locatie = match &self.locatie {
            Some(t) => Some(t.clone()),
            None => None,
        };
        let nume = match &self.nume {
            Some(t) => Some(t.clone()),
            None => None,
        };
        EventQuery { locatie, nume }
    }
}

/// The rules on the filters: each of them, if given, has at most 50
/// characters.
pub open spec fn event_query_ok(q: EventQueryView) -> bool {
    &&& q.locatie matches Some(l) ==> l.len() <= 50
    &&& q.nume matches Some(n) ==> n.len() <= 50
}

/// The messages of the rules that the filters break, in order.
pub open spec fn event_query_violations(q: EventQueryView) -> Seq<Seq<char>> {
    unless(opt_text_ok(q.locatie, None, Some(50)), LOCATION_FILTER_MESSAGE@) + unless(
        opt_text_ok(q.nume, None, Some(50)),
        NAME_FILTER_MESSAGE@,
    )
}

/// The filters whose rules are broken, in order.
pub open spec fn event_query_failures(q: EventQueryView) -> Seq<Seq<char>> {
    unless(opt_text_ok(q.locatie, None, Some(50)), "locatie"@) + unless(
        opt_text_ok(q.nume, None, Some(50)),
        "nume"@,
    )
}

impl EventQuery {
    /// Whether the request gave a filter.
    pub open spec fn filtered(self) -> bool {
        self.locatie is Some || self.nume is Some
    }

    /// Whether the request gave a filter.
    pub fn has_filters(&self) -> (r: bool)
        ensures
            r == self.filtered(),
    {
        self.locatie.is_some() || self.nume.is_some()
    }

    /// Checks the filters: `Ok` exactly when they keep their rules, else the
    /// report of what they break.
    pub fn validate(&self) -> (r: Result<(), ValidationErrors>)
        ensures
            match r {
                Ok(_) => event_query_ok(self@),
                Err(report) => {
                    &&& !event_query_ok(self@)
                    &&& flatten(report) == event_query_violations(self@)
                    &&& fields_of(report) == event_query_failures(self@)
                },
            },
    {
        let mut report = ValidationErrors::new();
        report.check_opt_text("locatie", &self.locatie, None, Some(50), LOCATION_FILTER_MESSAGE);
        report.check_opt_text("nume", &self.nume, None, Some(50), NAME_FILTER_MESSAGE);
        report.into_result()
    }
}

} // verus!
