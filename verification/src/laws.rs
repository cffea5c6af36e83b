//! Facts that hold across the functions of the library, each proved from
//! the specifications that the functions' contracts use.

use crate::handlers::ticket::create_accepted;
use crate::models::ticket::{
    create_ticket_violations, exclusive, exclusivity_message, CreateTicket, BOTH_MESSAGE,
    NEITHER_MESSAGE,
};
use crate::shared::error::{
    api_response, family_response, kind_of, removal_kind, status_of, ApiError, ErrorKind,
    EventPacketRepoError, EventRepoError, Family, JoinPeRepoError, StoreError, TicketRepoError,
    CHECK_VIOLATION, FOREIGN_KEY_VIOLATION, UNIQUE_VIOLATION,
};
use crate::shared::links::{
    event_href, packet_href, simple_event_links, simple_event_packet_links, simple_ticket_links,
    ticket_href,
};
use crate::shared::text::{decimal, ends_with};
use crate::shared::validation::text_ok;
use vstd::prelude::*;

verus! {

/// The self link of an event, a packet or a ticket that was read on its own
/// ends with the name of its collection and its id, whatever the base
/// address is.
pub proof fn self_link_ends_with_collection_and_id(base: Seq<char>, id: int, cod: Seq<char>)
    ensures
        ends_with(simple_event_links(base, id).link.href, "/events/"@ + decimal(id)),
        ends_with(
            simple_event_packet_links(base, id).link.href,
            "/event-packets/"@ + decimal(id),
        ),
        ends_with(simple_ticket_links(base, cod).link.href, "/tickets/"@ + cod),
{
    lemma_ends_with_tail(base, "/events/"@ + decimal(id));
    assert(event_href(base, id) =~= base + ("/events/"@ + decimal(id)));
    lemma_ends_with_tail(base, "/event-packets/"@ + decimal(id));
    assert(packet_href(base, id) =~= base + ("/event-packets/"@ + decimal(id)));
    lemma_ends_with_tail(base, "/tickets/"@ + cod);
    assert(ticket_href(base, cod) =~= base + ("/tickets/"@ + cod));
}

/// A text ends with what was appended to it last.
pub proof fn lemma_ends_with_tail(head: Seq<char>, tail: Seq<char>)
    ensures
        ends_with(head + tail, tail),
{
    let whole = head + tail;
    assert(whole.subrange(whole.len() - tail.len(), whole.len() as int) =~= tail);
}

/// A row that the store does not have is reported as `NotFound` in every
/// family, and `NotFound` is answered with status 404 and one message that
/// is not empty.
pub proof fn missing_row_is_answered_with_404(family: Family)
    ensures
        kind_of(StoreError::RowNotFound) == ErrorKind::NotFound,
        family_response(family, ErrorKind::NotFound).status == 404,
        family_response(family, ErrorKind::NotFound).details.len() == 1,
        family_response(family, ErrorKind::NotFound).details[0].len() > 0,
        api_response(ApiError::Event(EventRepoError::NotFound)) == family_response(
            Family::Event,
            ErrorKind::NotFound,
        ),
        api_response(ApiError::Packet(EventPacketRepoError::NotFound)) == family_response(
            Family::Packet,
            ErrorKind::NotFound,
        ),
        api_response(ApiError::Ticket(TicketRepoError::NotFound)) == family_response(
            Family::Ticket,
            ErrorKind::NotFound,
        ),
        api_response(ApiError::Join(JoinPeRepoError::NotFound)) == family_response(
            Family::Join,
            ErrorKind::NotFound,
        ),
{
    reveal_strlit("The requested event was not found.");
    reveal_strlit("The requested event packet was not found.");
    reveal_strlit("The requested ticket was not found.");
    reveal_strlit("The requested link between packet and event was not found.");
}

/// The three codes of the store are told apart: a broken reference, a value
/// that is there already and a broken check each get their own kind, in
/// every family alike, and each kind its own status.
pub proof fn codes_have_their_kinds(err: StoreError)
    requires
        err matches StoreError::Database { code: Some(c), .. } && (c@ == FOREIGN_KEY_VIOLATION@
            || c@ == UNIQUE_VIOLATION@ || c@ == CHECK_VIOLATION@),
    ensures
        err->code->0@ == FOREIGN_KEY_VIOLATION@ ==> kind_of(err) == ErrorKind::InvalidReference
            && status_of(kind_of(err)) == 400,
        err->code->0@ == UNIQUE_VIOLATION@ ==> kind_of(err) == ErrorKind::DuplicateEntry
            && status_of(kind_of(err)) == 409,
        err->code->0@ == CHECK_VIOLATION@ ==> kind_of(err) == ErrorKind::ConstraintViolation
            && status_of(kind_of(err)) == 422,
{
    lemma_codes_differ();
}

/// The three codes are three different texts.
pub proof fn lemma_codes_differ()
    ensures
        FOREIGN_KEY_VIOLATION@ != UNIQUE_VIOLATION@,
        FOREIGN_KEY_VIOLATION@ != CHECK_VIOLATION@,
        UNIQUE_VIOLATION@ != CHECK_VIOLATION@,
{
    reveal_strlit("23503");
    reveal_strlit("23505");
    reveal_strlit("23514");
    assert("23503"@[4] == '3');
    assert("23505"@[4] == '5');
    assert("23514"@[4] == '4');
}

/// Putting the same pair of packet and event into the store again is
/// answered the same way every time: whatever else the store says of the
/// value that is there already, the error is `DuplicateEntry` and the
/// answer has status 409 and the same body.
pub proof fn duplicate_link_is_answered_with_409(first: StoreError, second: StoreError)
    requires
        first matches StoreError::Database { code: Some(c), .. } && c@ == UNIQUE_VIOLATION@,
        second matches StoreError::Database { code: Some(c), .. } && c@ == UNIQUE_VIOLATION@,
    ensures
        kind_of(first) == ErrorKind::DuplicateEntry,
        kind_of(second) == ErrorKind::DuplicateEntry,
        family_response(Family::Join, kind_of(first)).status == 409,
        family_response(Family::Join, kind_of(first)) == family_response(
            Family::Join,
            kind_of(second),
        ),
{
    lemma_codes_differ();
}

/// A removal never ends in another error than `NotFound` once the store has
/// run the statement: when a first removal took a row away and a second one
/// finds none, the first succeeds and the second is `NotFound`.
pub proof fn removal_twice(first: u64, second: u64)
    requires
        first > 0,
        second == 0,
    ensures
        removal_kind(Ok(first)) is None,
        removal_kind(Ok(second)) == Some(ErrorKind::NotFound),
        forall|rows: u64| #[trigger]
            removal_kind(Ok(rows)) is None || removal_kind(Ok(rows)) == Some(ErrorKind::NotFound),
{
}

/// A new ticket that names both a packet and an event, or neither, does not
/// go on to the store: it is answered with status 422 under the title of a
/// failed validation, both cases alike, and when its code is in order the
/// one message says which of the two it was.
pub proof fn ticket_without_exclusive_owner_is_refused(
    ticket: CreateTicket,
    accepted: Result<CreateTicket, ApiError>,
)
    requires
        create_accepted(Ok(ticket), accepted),
        !exclusive(ticket.id_pachet, ticket.id_event),
    ensures
        accepted is Err,
        api_response(accepted->Err_0).status == 422,
        api_response(accepted->Err_0).error == "Validation Failed"@,
        api_response(accepted->Err_0).details.len() == 1,
        text_ok(ticket.cod@, Some(3), Some(50)) ==> api_response(accepted->Err_0).details == seq![
            exclusivity_message(ticket.id_pachet, ticket.id_event),
        ],
        exclusivity_message(ticket.id_pachet, ticket.id_event) == if ticket.id_pachet is Some {
            BOTH_MESSAGE@
        } else {
            NEITHER_MESSAGE@
        },
{
    assert(create_ticket_violations(ticket@).len() == 1);
}

/// What caused an internal error is not told to the caller: two internal
/// errors of a family are answered alike, whatever their causes, with
/// status 500.
pub proof fn internal_cause_is_not_told(first: StoreError, second: StoreError)
    ensures
        api_response(ApiError::Event(EventRepoError::InternalError(first))) == api_response(
            ApiError::Event(EventRepoError::InternalError(second)),
        ),
        api_response(ApiError::Packet(EventPacketRepoError::InternalError(first)))
            == api_response(ApiError::Packet(EventPacketRepoError::InternalError(second))),
        api_response(ApiError::Ticket(TicketRepoError::InternalError(first))) == api_response(
            ApiError::Ticket(TicketRepoError::InternalError(second)),
        ),
        api_response(ApiError::Join(JoinPeRepoError::InternalError(first))) == api_response(
            ApiError::Join(JoinPeRepoError::InternalError(second)),
        ),
        api_response(ApiError::Event(EventRepoError::InternalError(first))).status == 500,
{
}

/// Every kind has one status, and the status tells the kinds apart.
pub proof fn status_tells_the_kind(a: ErrorKind, b: ErrorKind)
    ensures
        status_of(a) == status_of(b) <==> a == b,
        status_of(a) == 404 || status_of(a) == 409 || status_of(a) == 400 || status_of(a) == 422
            || status_of(a) == 500,
{
}

/// The names of the relations of events and packets are none of the names
/// that a set of links keeps for itself, so a relation never stands in the
/// place of the self link or the parent link.
pub proof fn relation_names_are_free(base: Seq<char>, id: int)
    ensures
        simple_event_links(base, id).others matches Some(relations) && relations.dom()
            =~= set!["event-packets"@, "tickets"@],
        simple_event_packet_links(base, id).others matches Some(relations) && relations.dom()
            =~= set!["events"@, "tickets"@],
        "event-packets"@ != "self"@ && "event-packets"@ != "parent"@,
        "events"@ != "self"@ && "events"@ != "parent"@,
        "tickets"@ != "self"@ && "tickets"@ != "parent"@,
{
    reveal_strlit("event-packets");
    reveal_strlit("events");
    reveal_strlit("tickets");
    reveal_strlit("self");
    reveal_strlit("parent");
    assert("event-packets"@.len() == 13);
    assert("events"@[0] == 'e');
    assert("tickets"@[0] == 't');
    assert("self"@[0] == 's');
    assert("parent"@[0] == 'p');
}

} // verus!
