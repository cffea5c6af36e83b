//! The decisions of the ticket endpoints: which requests go on to the
//! store, and the replies.

use crate::handlers::{Reply, CREATED, NO_CONTENT, OK};
use crate::models::ticket::{
    create_ticket_ok, create_ticket_violations, exclusive, exclusivity_message, CreateTicket,
    Ticket, UpdateTicket,
};
use crate::shared::error::{ApiError, JsonRejection, TicketRepoError};
use crate::shared::links::{
    build_simple_ticket, build_simple_tickets, build_ticket_over_event, build_ticket_over_packet,
    build_tickets_over_event, build_tickets_over_packet, simple_ticket_links,
    ticket_over_event_links, ticket_over_packet_links, Response,
};
use crate::shared::validation::flatten;
use vstd::prelude::*;

verus! {

/// What a caller is told of a negative id in the path.
pub const NEGATIVE_ID: &'static str = "ID cannot be negative";

/// Whether a request that names the event or packet `id` goes on: it does
/// unless the id is negative.
pub fn check_id(id: i32) -> (r: Result<(), ApiError>)
    ensures
        match r {
            Ok(_) => id >= 0,
            Err(e) => e matches ApiError::BadRequest(m) && m@ == NEGATIVE_ID@ && id < 0,
        },
{
    if id < 0 {
        Err(ApiError::BadRequest(String::from_str(NEGATIVE_ID)))
    } else {
        Ok(())
    }
}

/// What a new ticket must pass before the store sees it: the body read as a
/// payload, and the payload in order.
pub open spec fn create_accepted(
    payload: Result<CreateTicket, JsonRejection>,
    r: Result<CreateTicket, ApiError>,
) -> bool {
    match payload {
        Err(rejection) => r == Err::<CreateTicket, ApiError>(ApiError::Json(rejection)),
        Ok(ticket) => if create_ticket_ok(ticket@) {
            r == Ok::<CreateTicket, ApiError>(ticket)
        } else {
            r matches Err(ApiError::Validation(report)) && flatten(report)
                == create_ticket_violations(ticket@)
        },
    }
}

/// What a changed ticket must pass before the store sees it: the body read
/// as a payload, and exactly one of packet and event named.
pub open spec fn update_accepted(
    payload: Result<UpdateTicket, JsonRejection>,
    r: Result<UpdateTicket, ApiError>,
) -> bool {
    match payload {
        Err(rejection) => r == Err::<UpdateTicket, ApiError>(ApiError::Json(rejection)),
        Ok(ticket) => if exclusive(ticket.id_pachet, ticket.id_event) {
            r == Ok::<UpdateTicket, ApiError>(ticket)
        } else {
            r matches Err(ApiError::Validation(report)) && flatten(report) == seq![
                exclusivity_message(ticket.id_pachet, ticket.id_event),
            ]
        },
    }
}

/// Decides whether a new ticket goes on to the store: a body that could not
/// be read is rejected as it was, a payload that breaks a rule with the
/// report of its check.
pub fn accept_create(payload: Result<CreateTicket, JsonRejection>) -> (r: Result<
    CreateTicket,
    ApiError,
>)
    ensures
        create_accepted(payload, r),
{
    match payload {
        Err(rejection) => Err(ApiError::Json(rejection)),
        Ok(ticket) => match ticket.validate() {
            Ok(_) => Ok(ticket),
            Err(report) => Err(ApiError::Validation(report)),
        },
    }
}

/// Decides whether a changed ticket goes on to the store: a body that could
/// not be read is rejected as it was, a payload that breaks the rule with
/// the report of its check.
pub fn accept_update(payload: Result<UpdateTicket, JsonRejection>) -> (r: Result<
    UpdateTicket,
    ApiError,
>)
    ensures
        update_accepted(payload, r),
{
    match payload {
        Err(rejection) => Err(ApiError::Json(rejection)),
        Ok(ticket) => match ticket.validate() {
            Ok(_) => Ok(ticket),
            Err(report) => Err(ApiError::Validation(report)),
        },
    }
}

/// Decides whether a new ticket below the event or packet `id` goes on to
/// the store: a negative id is refused first, then as [`accept_create`].
pub fn accept_create_below(id: i32, payload: Result<CreateTicket, JsonRejection>) -> (r: Result<
    CreateTicket,
    ApiError,
>)
    ensures
        if id < 0 {
            r matches Err(ApiError::BadRequest(m)) && m@ == NEGATIVE_ID@
        } else {
            create_accepted(payload, r)
        },
{
    match check_id(id) {
        Err(e) => Err(e),
        Ok(_) => accept_create(payload),
    }
}

/// Decides whether a changed ticket below the event or packet `id` goes on
/// to the store: a negative id is refused first, then as [`accept_update`].
pub fn accept_update_below(id: i32, payload: Result<UpdateTicket, JsonRejection>) -> (r: Result<
    UpdateTicket,
    ApiError,
>)
    ensures
        if id < 0 {
            r matches Err(ApiError::BadRequest(m)) && m@ == NEGATIVE_ID@
        } else {
            update_accepted(payload, r)
        },
{
    match check_id(id) {
        Err(e) => Err(e),
        Ok(_) => accept_update(payload),
    }
}

/// The reply to a read of one ticket: the ticket in its envelope; the store's
/// error as an error of the API.
pub fn get_ticket(
    outcome: Result<Ticket, TicketRepoError>,
    base_url: &str,
) -> (r: Result<Reply<Response<Ticket>>, ApiError>)
    ensures
        match outcome {
            Ok(found) => {
                &&& r matches Ok(reply)
                &&& reply.status == OK
                &&& reply.body.data == found
                &&& reply.body.links@ == simple_ticket_links(base_url@, found.cod@)
            },
            Err(e) => r == Err::<Reply<Response<Ticket>>, ApiError>(ApiError::Ticket(e)),
        },
{
    match outcome {
        Ok(found) => Ok(Reply { status: OK, body: build_simple_ticket(found, base_url) }),
        Err(e) => Err(ApiError::Ticket(e)),
    }
}

/// The reply to a listing of tickets: every ticket that the store returned,
/// in its order, each in its envelope; the store's error as an error of the
/// API.
pub fn list_tickets(
    outcome: Result<Vec<Ticket>, TicketRepoError>,
    base_url: &str,
) -> (r: Result<Reply<Vec<Response<Ticket>>>, ApiError>)
    ensures
        match outcome {
            Ok(found) => {
                &&& r matches Ok(reply)
                &&& reply.status == OK
                &&& reply.body@.len() == found@.len()
                &&& forall|i: int|
                    0 <= i < found@.len() ==> {
                        &&& (#[trigger] reply.body@[i]).data == found@[i]
                        &&& reply.body@[i].links@ == simple_ticket_links(base_url@, found@[i].cod@)
                    }
            },
            Err(e) => r == Err::<Reply<Vec<Response<Ticket>>>, ApiError>(ApiError::Ticket(e)),
        },
{
    match outcome {
        Ok(found) => Ok(Reply { status: OK, body: build_simple_tickets(found, base_url) }),
        Err(e) => Err(ApiError::Ticket(e)),
    }
}

/// The reply to a change of one ticket: the ticket as stored, in its
/// envelope; the store's error as an error of the API.
pub fn update_ticket(
    outcome: Result<Ticket, TicketRepoError>,
    base_url: &str,
) -> (r: Result<Reply<Response<Ticket>>, ApiError>)
    ensures
        match outcome {
            Ok(found) => {
                &&& r matches Ok(reply)
                &&& reply.status == OK
                &&& reply.body.data == found
                &&& reply.body.links@ == simple_ticket_links(base_url@, found.cod@)
            },
            Err(e) => r == Err::<Reply<Response<Ticket>>, ApiError>(ApiError::Ticket(e)),
        },
{
    match outcome {
        Ok(found) => Ok(Reply { status: OK, body: build_simple_ticket(found, base_url) }),
        Err(e) => Err(ApiError::Ticket(e)),
    }
}

/// The reply to a creation: the ticket as stored, in its envelope, with the
/// status of a creation; the store's error as an error of the API.
pub fn create_ticket(
    outcome: Result<Ticket, TicketRepoError>,
    base_url: &str,
) -> (r: Result<Reply<Response<Ticket>>, ApiError>)
    ensures
        match outcome {
            Ok(found) => {
                &&& r matches Ok(reply)
                &&& reply.status == CREATED
                &&& reply.body.data == found
                &&& reply.body.links@ == simple_ticket_links(base_url@, found.cod@)
            },
            Err(e) => r == Err::<Reply<Response<Ticket>>, ApiError>(ApiError::Ticket(e)),
        },
{
    match outcome {
        Ok(found) => Ok(Reply { status: CREATED, body: build_simple_ticket(found, base_url) }),
        Err(e) => Err(ApiError::Ticket(e)),
    }
}

/// The reply to a removal: no content; the store's error as an error of the
/// API.
pub fn delete_ticket(outcome: Result<(), TicketRepoError>) -> (r: Result<Reply<()>, ApiError>)
    ensures
        match outcome {
            Ok(_) => r matches Ok(reply) && reply.status == NO_CONTENT,
            Err(e) => r == Err::<Reply<()>, ApiError>(ApiError::Ticket(e)),
        },
{
    match outcome {
        Ok(_) => Ok(Reply { status: NO_CONTENT, body: () }),
        Err(e) => Err(ApiError::Ticket(e)),
    }
}

/// The reply to a read of one ticket of the event `event_id`: the ticket in
/// its envelope; the store's error as an error of the API.
pub fn get_ticket_for_event(
    outcome: Result<Ticket, TicketRepoError>,
    event_id: i32,
    base_url: &str,
) -> (r: Result<Reply<Response<Ticket>>, ApiError>)
    ensures
        match outcome {
            Ok(found) => {
                &&& r matches Ok(reply)
                &&& reply.status == OK
                &&& reply.body.data == found
                &&& reply.body.links@ == ticket_over_event_links(
                    base_url@,
                    event_id as int,
                    found.cod@,
                )
            },
            Err(e) => r == Err::<Reply<Response<Ticket>>, ApiError>(ApiError::Ticket(e)),
        },
{
    match outcome {
        Ok(found) => Ok(Reply {
            status: OK,
            body: build_ticket_over_event(found, event_id, base_url),
        }),
        Err(e) => Err(ApiError::Ticket(e)),
    }
}

/// The reply to a listing of the tickets of the event `event_id`: every
/// ticket that the store returned, in its order, each in its envelope; the
/// store's error as an error of the API.
pub fn list_tickets_for_event(
    outcome: Result<Vec<Ticket>, TicketRepoError>,
    event_id: i32,
    base_url: &str,
) -> (r: Result<Reply<Vec<Response<Ticket>>>, ApiError>)
    ensures
        match outcome {
            Ok(found) => {
                &&& r matches Ok(reply)
                &&& reply.status == OK
                &&& reply.body@.len() == found@.len()
                &&& forall|i: int|
                    0 <= i < found@.len() ==> {
                        &&& (#[trigger] reply.body@[i]).data == found@[i]
                        &&& reply.body@[i].links@ == ticket_over_event_links(
                            base_url@,
                            event_id as int,
                            found@[i].cod@,
                        )
                    }
            },
            Err(e) => r == Err::<Reply<Vec<Response<Ticket>>>, ApiError>(ApiError::Ticket(e)),
        },
{
    match outcome {
        Ok(found) => Ok(Reply {
            status: OK,
            body: build_tickets_over_event(found, event_id, base_url),
        }),
        Err(e) => Err(ApiError::Ticket(e)),
    }
}

/// The reply to a change of one ticket of the event `event_id`: the ticket as
/// stored, in its envelope; the store's error as an error of the API.
pub fn update_ticket_for_event(
    outcome: Result<Ticket, TicketRepoError>,
    event_id: i32,
    base_url: &str,
) -> (r: Result<Reply<Response<Ticket>>, ApiError>)
    ensures
        match outcome {
            Ok(found) => {
                &&& r matches Ok(reply)
                &&& reply.status == OK
                &&& reply.body.data == found
                &&& reply.body.links@ == ticket_over_event_links(
                    base_url@,
                    event_id as int,
                    found.cod@,
                )
            },
            Err(e) => r == Err::<Reply<Response<Ticket>>, ApiError>(ApiError::Ticket(e)),
        },
{
    match outcome {
        Ok(found) => Ok(Reply {
            status: OK,
            body: build_ticket_over_event(found, event_id, base_url),
        }),
        Err(e) => Err(ApiError::Ticket(e)),
    }
}

/// The reply to a creation of a ticket of the event `event_id`: the ticket as
/// stored, in its envelope, with the status of a creation; the store's error
/// as an error of the API.
pub fn create_ticket_for_event(
    outcome: Result<Ticket, TicketRepoError>,
    event_id: i32,
    base_url: &str,
) -> (r: Result<Reply<Response<Ticket>>, ApiError>)
    ensures
        match outcome {
            Ok(found) => {
                &&& r matches Ok(reply)
                &&& reply.status == CREATED
                &&& reply.body.data == found
                &&& reply.body.links@ == ticket_over_event_links(
                    base_url@,
                    event_id as int,
                    found.cod@,
                )
            },
            Err(e) => r == Err::<Reply<Response<Ticket>>, ApiError>(ApiError::Ticket(e)),
        },
{
    match outcome {
        Ok(found) => Ok(Reply {
            status: CREATED,
            body: build_ticket_over_event(found, event_id, base_url),
        }),
        Err(e) => Err(ApiError::Ticket(e)),
    }
}

/// The reply to a removal of a ticket of an event: no content; the store's
/// error as an error of the API.
pub fn delete_ticket_for_event(outcome: Result<(), TicketRepoError>) -> (r: Result<
    Reply<()>,
    ApiError,
>)
    ensures
        match outcome {
            Ok(_) => r matches Ok(reply) && reply.status == NO_CONTENT,
            Err(e) => r == Err::<Reply<()>, ApiError>(ApiError::Ticket(e)),
        },
{
    match outcome {
        Ok(_) => Ok(Reply { status: NO_CONTENT, body: () }),
        Err(e) => Err(ApiError::Ticket(e)),
    }
}

/// The reply to a read of one ticket of the packet `packet_id`: the ticket in
/// its envelope; the store's error as an error of the API.
pub fn get_ticket_for_packet(
    outcome: Result<Ticket, TicketRepoError>,
    packet_id: i32,
    base_url: &str,
) -> (r: Result<Reply<Response<Ticket>>, ApiError>)
    ensures
        match outcome {
            Ok(found) => {
                &&& r matches Ok(reply)
                &&& reply.status == OK
                &&& reply.body.data == found
                &&& reply.body.links@ == ticket_over_packet_links(
                    base_url@,
                    packet_id as int,
                    found.cod@,
                )
            },
            Err(e) => r == Err::<Reply<Response<Ticket>>, ApiError>(ApiError::Ticket(e)),
        },
{
    match outcome {
        Ok(found) => Ok(Reply {
            status: OK,
            body: build_ticket_over_packet(found, packet_id, base_url),
        }),
        Err(e) => Err(ApiError::Ticket(e)),
    }
}

/// The reply to a listing of the tickets of the packet `packet_id`: every
/// ticket that the store returned, in its order, each in its envelope; the
/// store's error as an error of the API.
pub fn list_tickets_for_packet(
    outcome: Result<Vec<Ticket>, TicketRepoError>,
    packet_id: i32,
    base_url: &str,
) -> (r: Result<Reply<Vec<Response<Ticket>>>, ApiError>)
    ensures
        match outcome {
            Ok(found) => {
                &&& r matches Ok(reply)
                &&& reply.status == OK
                &&& reply.body@.len() == found@.len()
                &&& forall|i: int|
                    0 <= i < found@.len() ==> {
                        &&& (#[trigger] reply.body@[i]).data == found@[i]
                        &&& reply.body@[i].links@ == ticket_over_packet_links(
                            base_url@,
                            packet_id as int,
                            found@[i].cod@,
                        )
                    }
            },
            Err(e) => r == Err::<Reply<Vec<Response<Ticket>>>, ApiError>(ApiError::Ticket(e)),
        },
{
    match outcome {
        Ok(found) => Ok(Reply {
            status: OK,
            body: build_tickets_over_packet(found, packet_id, base_url),
        }),
        Err(e) => Err(ApiError::Ticket(e)),
    }
}

/// The reply to a change of one ticket of the packet `packet_id`: the ticket
/// as stored, in its envelope; the store's error as an error of the API.
pub fn update_ticket_for_packet(
    outcome: Result<Ticket, TicketRepoError>,
    packet_id: i32,
    base_url: &str,
) -> (r: Result<Reply<Response<Ticket>>, ApiError>)
    ensures
        match outcome {
            Ok(found) => {
                &&& r matches Ok(reply)
                &&& reply.status == OK
                &&& reply.body.data == found
                &&& reply.body.links@ == ticket_over_packet_links(
                    base_url@,
                    packet_id as int,
                    found.cod@,
                )
            },
            Err(e) => r == Err::<Reply<Response<Ticket>>, ApiError>(ApiError::Ticket(e)),
        },
{
    match outcome {
        Ok(found) => Ok(Reply {
            status: OK,
            body: build_ticket_over_packet(found, packet_id, base_url),
        }),
        Err(e) => Err(ApiError::Ticket(e)),
    }
}

/// The reply to a creation of a ticket of the packet `packet_id`: the ticket
/// as stored, in its envelope, with the status of a creation; the store's
/// error as an error of the API.
pub fn create_ticket_for_packet(
    outcome: Result<Ticket, TicketRepoError>,
    packet_id: i32,
    base_url: &str,
) -> (r: Result<Reply<Response<Ticket>>, ApiError>)
    ensures
        match outcome {
            Ok(found) => {
                &&& r matches Ok(reply)
                &&& reply.status == CREATED
                &&& reply.body.data == found
                &&& reply.body.links@ == ticket_over_packet_links(
                    base_url@,
                    packet_id as int,
                    found.cod@,
                )
            },
            Err(e) => r == Err::<Reply<Response<Ticket>>, ApiError>(ApiError::Ticket(e)),
        },
{
    match outcome {
        Ok(found) => Ok(Reply {
            status: CREATED,
            body: build_ticket_over_packet(found, packet_id, base_url),
        }),
        Err(e) => Err(ApiError::Ticket(e)),
    }
}

/// The reply to a removal of a ticket of a packet: no content; the store's
/// error as an error of the API.
pub fn delete_ticket_for_packet(outcome: Result<(), TicketRepoError>) -> (r: Result<
    Reply<()>,
    ApiError,
>)
    ensures
        match outcome {
            Ok(_) => r matches Ok(reply) && reply.status == NO_CONTENT,
            Err(e) => r == Err::<Reply<()>, ApiError>(ApiError::Ticket(e)),
        },
{
    match outcome {
        Ok(_) => Ok(Reply { status: NO_CONTENT, body: () }),
        Err(e) => Err(ApiError::Ticket(e)),
    }
}

} // verus!
