//! Tickets and the payloads that create and change them.

use crate::shared::validation::{
    fields_of, flatten, text_ok, unless, ValidationError, ValidationErrors,
};
use vstd::prelude::*;

verus! {

/// A stored ticket, known by its code. It belongs to one packet or to one
/// event.
#[derive(Debug)]
pub struct Ticket {
    pub cod: String,
    pub id_pachet: Option<i32>,
    pub id_event: Option<i32>,
}

/// The mathematical content of a [`Ticket`].
pub struct TicketView {
    pub cod: Seq<char>,
    pub id_pachet: Option<i32>,
    pub id_event: Option<i32>,
}

impl View for Ticket {
    type V = TicketView;

    open spec fn view(&self) -> TicketView {
        TicketView { cod: self.cod@, id_pachet: self.id_pachet, id_event: self.id_event }
    }
}

/// The payload that creates a ticket.
#[derive(Debug)]
pub struct CreateTicket {
    pub cod: String,
    pub id_pachet: Option<i32>,
    pub id_event: Option<i32>,
}

/// The mathematical content of a [`CreateTicket`].
pub struct CreateTicketView {
    pub cod: Seq<char>,
    pub id_pachet: Option<i32>,
    pub id_event: Option<i32>,
}

impl View for CreateTicket {
    type V = CreateTicketView;

    open spec fn view(&self) -> CreateTicketView {
        CreateTicketView { cod: self.cod@, id_pachet: self.id_pachet, id_event: self.id_event }
    }
}

/// The payload that moves a ticket to another packet or event.
#[derive(Debug)]
pub struct UpdateTicket {
    pub id_pachet: Option<i32>,
    pub id_event: Option<i32>,
}

/// What a caller is told of a code that is too short or too long.
pub const CODE_MESSAGE: &'static str = "Code must be between 3 and 50 characters";

/// What a caller is told of a ticket that names a packet and an event.
pub const BOTH_MESSAGE: &'static str = "A ticket can belong to EITHER a packet OR an event, not both.";

/// What a caller is told of a ticket that names neither.
pub const NEITHER_MESSAGE: &'static str = "A ticket must belong to a packet OR an event.";

/// The code of the rule that a ticket belongs to exactly one of packet and
/// event.
pub const EXCLUSIVE_IDS: &'static str = "exclusive_ids";

/// A payload that names the packet and the event of a ticket.
pub trait ExclusiveTicketIds {
    /// The packet that the payload names.
    spec fn pachet_id(&self) -> Option<i32>;

    /// The event that the payload names.
    spec fn event_id(&self) -> Option<i32>;

    /// The packet that the payload names.
    fn get_pachet_id(&self) -> (r: Option<i32>)
        ensures
            r == self.pachet_id(),
    ;

    /// The event that the payload names.
    fn get_event_id(&self) -> (r: Option<i32>)
        ensures
            r == self.event_id(),
    ;
}

impl ExclusiveTicketIds for CreateTicket {
    open spec fn pachet_id(&self) -> Option<i32> {
        self.id_pachet
    }

    open spec fn event_id(&self) -> Option<i32> {
        self.id_event
    }

    fn get_pachet_id(&self) -> (r: Option<i32>) {
        self.id_pachet
    }

    fn get_event_id(&self) -> (r: Option<i32>) {
        self.id_event
    }
}

impl ExclusiveTicketIds for UpdateTicket {
    open spec fn pachet_id(&self) -> Option<i32> {
        self.id_pachet
    }

    open spec fn event_id(&self) -> Option<i32> {
        self.id_event
    }

    fn get_pachet_id(&self) -> (r: Option<i32>) {
        self.id_pachet
    }

    fn get_event_id(&self) -> (r: Option<i32>) {
        self.id_event
    }
}

/// Whether exactly one of packet and event is named.
pub open spec fn exclusive(pachet: Option<i32>, event: Option<i32>) -> bool {
    (pachet is Some) != (event is Some)
}

/// What a caller is told when the two are not exclusive: one sentence when
/// both are named, another when neither is.
pub open spec fn exclusivity_message(pachet: Option<i32>, event: Option<i32>) -> Seq<char> {
    if pachet is Some && event is Some {
        BOTH_MESSAGE@
    } else {
        NEITHER_MESSAGE@
    }
}

/// Checks that a payload names exactly one of packet and event: `Ok`
/// exactly then, else the broken rule with its message.
pub fn validate_exclusive_ids<T: ExclusiveTicketIds>(ticket: &T) -> (r: Result<
    (),
    ValidationError,
>)
    ensures
        match r {
            Ok(_) => exclusive(ticket.pachet_id(), ticket.event_id()),
            Err(e) => {
                &&& !exclusive(ticket.pachet_id(), ticket.event_id())
                &&& e.code@ == EXCLUSIVE_IDS@
                &&& e.message matches Some(m) && m@ == exclusivity_message(
                    ticket.pachet_id(),
                    ticket.event_id(),
                )
            },
        },
{
    let pachet = ticket.get_pachet_id();
    let event = ticket.get_event_id();
    if pachet.is_some() && event.is_some() {
        Err(ValidationError::new(EXCLUSIVE_IDS).with_message(BOTH_MESSAGE))
    } else if pachet.is_none() && event.is_none() {
        Err(ValidationError::new(EXCLUSIVE_IDS).with_message(NEITHER_MESSAGE))
    } else {
        Ok(())
    }
}

/// Checks that a new ticket names exactly one of packet and event.
pub fn validate_create_ticket(ticket: &CreateTicket) -> (r: Result<(), ValidationError>)
    ensures
        match r {
            Ok(_) => exclusive(ticket.id_pachet, ticket.id_event),
            Err(e) => {
                &&& !exclusive(ticket.id_pachet, ticket.id_event)
                &&& e.code@ == EXCLUSIVE_IDS@
                &&& e.message matches Some(m) && m@ == exclusivity_message(
                    ticket.id_pachet,
                    ticket.id_event,
                )
            },
        },
{
    validate_exclusive_ids(ticket)
}

/// Checks that a changed ticket names exactly one of packet and event.
pub fn validate_update_ticket(ticket: &UpdateTicket) -> (r: Result<(), ValidationError>)
    ensures
        match r {
            Ok(_) => exclusive(ticket.id_pachet, ticket.id_event),
            Err(e) => {
                &&& !exclusive(ticket.id_pachet, ticket.id_event)
                &&& e.code@ == EXCLUSIVE_IDS@
                &&& e.message matches Some(m) && m@ == exclusivity_message(
                    ticket.id_pachet,
                    ticket.id_event,
                )
            },
        },
{
    validate_exclusive_ids(ticket)
}

/// The rules on a new ticket: a code of 3 to 50 characters, and exactly one
/// of packet and event.
pub open spec fn create_ticket_ok(t: CreateTicketView) -> bool {
    &&& 3 <= t.cod.len() <= 50
    &&& exclusive(t.id_pachet, t.id_event)
}

/// The messages of the rules that a new ticket breaks. Exclusivity is looked
/// at only when the code is in order.
pub open spec fn create_ticket_violations(t: CreateTicketView) -> Seq<Seq<char>> {
    if !text_ok(t.cod, Some(3), Some(50)) {
        seq![CODE_MESSAGE@]
    } else {
        unless(exclusive(t.id_pachet, t.id_event), exclusivity_message(t.id_pachet, t.id_event))
    }
}

/// The fields under which the report of a new ticket holds findings; the
/// rule on the payload as a whole stands under `__all__`.
pub open spec fn create_ticket_failures(t: CreateTicketView) -> Seq<Seq<char>> {
    if !text_ok(t.cod, Some(3), Some(50)) {
        seq!["cod"@]
    } else {
        unless(exclusive(t.id_pachet, t.id_event), "__all__"@)
    }
}

impl CreateTicket {
    /// Checks the payload: `Ok` exactly when the code has 3 to 50 characters
    /// and exactly one of packet and event is named, else the report of what
    /// is broken.
    pub fn validate(&self) -> (r: Result<(), ValidationErrors>)
        ensures
            match r {
                Ok(_) => create_ticket_ok(self@),
                Err(report) => {
                    &&& !create_ticket_ok(self@)
                    &&& flatten(report) == create_ticket_violations(self@)
                    &&& fields_of(report) == create_ticket_failures(self@)
                },
            },
    {
        let mut report = ValidationErrors::new();
        report.check_text("cod", self.cod.as_str(), Some(3), Some(50), CODE_MESSAGE);
        if report.is_empty() {
            match validate_create_ticket(self) {
                Ok(_) => {},
                Err(e) => {
                    report.add("__all__", e);
                },
            }
        }
        report.into_result()
    }
}

impl UpdateTicket {
    /// Checks the payload: `Ok` exactly when exactly one of packet and event
    /// is named, else the report with the message for the caller under
    /// `__all__`.
    pub fn validate(&self) -> (r: Result<(), ValidationErrors>)
        ensures
            match r {
                Ok(_) => exclusive(self.id_pachet, self.id_event),
                Err(report) => {
                    &&& !exclusive(self.id_pachet, self.id_event)
                    &&& flatten(report) == seq![
                        exclusivity_message(self.id_pachet, self.id_event),
                    ]
                    &&& fields_of(report) == seq!["__all__"@]
                },
            },
    {
        let mut report = ValidationErrors::new();
        match validate_update_ticket(self) {
            Ok(_) => {},
            Err(e) => {
                report.add("__all__", e);
            },
        }
        report.into_result()
    }
}

} // verus!
