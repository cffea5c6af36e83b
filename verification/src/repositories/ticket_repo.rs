//! The statements of the ticket repository, and what the store's answers
//! to them mean.

use crate::models::ticket::{CreateTicket, UpdateTicket};
use crate::repositories::statement::{Bind, BindView, Statement, StatementView};
use crate::shared::error::{
    kind_of, map_sqlx_ticket_error, removal_kind, StoreError, TicketRepoError,
};
use vstd::prelude::*;

verus! {

/// Reads every ticket.
pub const SELECT_TICKETS: &'static str =
    "SELECT * FROM BILETE";

/// Reads one ticket by its code.
pub const SELECT_TICKET: &'static str =
    "SELECT cod, pachetid, evenimentid FROM BILETE WHERE cod = $1";

/// Reads the tickets of one event.
pub const SELECT_TICKETS_OF_EVENT: &'static str =
    "SELECT cod, pachetid, evenimentid FROM BILETE WHERE evenimentid = $1";

/// Reads one ticket of one event.
pub const SELECT_TICKET_OF_EVENT: &'static str =
    "SELECT cod, pachetid, evenimentid FROM BILETE WHERE evenimentid = $1 AND cod = $2";

/// Reads the tickets of one packet.
pub const SELECT_TICKETS_OF_PACKET: &'static str =
    "SELECT cod, pachetid, evenimentid FROM BILETE WHERE pachetid = $1";

/// Reads one ticket of one packet.
pub const SELECT_TICKET_OF_PACKET: &'static str =
    "SELECT cod, pachetid, evenimentid FROM BILETE WHERE pachetid = $1 AND cod = $2";

/// Stores a new ticket and returns it as stored.
pub const INSERT_TICKET: &'static str =
    "INSERT INTO BILETE (cod, pachetid, evenimentid) VALUES ($1, $2, $3) RETURNING cod, pachetid, evenimentid";

/// Stores a new ticket of one event and returns it as stored.
pub const INSERT_TICKET_OF_EVENT: &'static str =
    "INSERT INTO BILETE (cod, pachetid, evenimentid) VALUES ($1, NULL, $2) RETURNING cod, pachetid, evenimentid";

/// Stores a new ticket of one packet and returns it as stored.
pub const INSERT_TICKET_OF_PACKET: &'static str =
    "INSERT INTO BILETE (cod, pachetid, evenimentid) VALUES ($1, $2, NULL) RETURNING cod, pachetid, evenimentid";

/// Moves one ticket and returns it as stored.
pub const UPDATE_TICKET: &'static str =
    "UPDATE BILETE SET pachetid = $1, evenimentid = $2 WHERE COD = $3 RETURNING COD, pachetid, evenimentid";

/// Moves one ticket of one event to a packet and returns it as stored.
pub const UPDATE_TICKET_OF_EVENT: &'static str =
    "UPDATE BILETE SET pachetid = $1, evenimentid = NULL WHERE cod = $2 and evenimentid = $3 RETURNING cod, pachetid, evenimentid";

/// Moves one ticket of one packet to an event and returns it as stored.
pub const UPDATE_TICKET_OF_PACKET: &'static str =
    "UPDATE BILETE SET pachetid = NULL, evenimentid = $1 WHERE cod = $2 AND pachetid = $3 RETURNING cod, pachetid, evenimentid";

/// Removes one ticket.
pub const DELETE_TICKET: &'static str =
    "DELETE FROM BILETE WHERE cod = $1";

/// Removes one ticket of one event.
pub const DELETE_TICKET_OF_EVENT: &'static str =
    "DELETE FROM BILETE WHERE evenimentid = $1 AND cod = $2";

/// Removes one ticket of one packet.
pub const DELETE_TICKET_OF_PACKET: &'static str =
    "DELETE FROM BILETE WHERE pachetid = $1 AND cod = $2";

/// The statement that reads the tickets of the event `event_id`.
pub fn list_tickets_for_event(event_id: i32) -> (r: Statement)
    ensures
        r@ == (StatementView {
            sql: SELECT_TICKETS_OF_EVENT@,
            binds: seq![BindView::Int(event_id)],
        }),
{
    let mut binds: Vec<Bind> = Vec::new();
    binds.push(Bind::Int(event_id));
    let r = Statement::with(SELECT_TICKETS_OF_EVENT, binds);
    assert(r@.binds =~= seq![BindView::Int(event_id)]);
    r
}

/// The statement that reads the ticket `cod` of the event `event_id`.
pub fn get_ticket_for_event(event_id: i32, cod: &str) -> (r: Statement)
    ensures
        r@ == (StatementView {
            sql: SELECT_TICKET_OF_EVENT@,
            binds: seq![BindView::Int(event_id), BindView::Text(cod@)],
        }),
{
    let mut binds: Vec<Bind> = Vec::new();
    binds.push(Bind::Int(event_id));
    binds.push(Bind::Text(String::from_str(cod)));
    let r = Statement::with(SELECT_TICKET_OF_EVENT, binds);
    assert(r@.binds =~= seq![BindView::Int(event_id), BindView::Text(cod@)]);
    r
}

/// The statement that stores `payload` as a new ticket: the code, the
/// packet, the event.
pub fn create_ticket(payload: &CreateTicket) -> (r: Statement)
    ensures
        r@ == (StatementView {
            sql: INSERT_TICKET@,
            binds: seq![
                BindView::Text(payload.cod@),
                BindView::OptInt(payload.id_pachet),
                BindView::OptInt(payload.id_event),
            ],
        }),
{
    let mut binds: Vec<Bind> = Vec::new();
    binds.push(Bind::Text(payload.cod.clone()));
    binds.push(Bind::OptInt(payload.id_pachet));
    binds.push(Bind::OptInt(payload.id_event));
    let r = Statement::with(INSERT_TICKET, binds);
    assert(r@.binds =~= seq![
        BindView::Text(payload.cod@),
        BindView::OptInt(payload.id_pachet),
        BindView::OptInt(payload.id_event),
    ]);
    r
}

/// The statement that stores a new ticket with the code of `payload` for the
/// event `event_id` and for no packet.
pub fn create_ticket_for_event(event_id: i32, payload: &CreateTicket) -> (r: Statement)
    ensures
        r@ == (StatementView {
            sql: INSERT_TICKET_OF_EVENT@,
            binds: seq![BindView::Text(payload.cod@), BindView::Int(event_id)],
        }),
{
    let mut binds: Vec<Bind> = Vec::new();
    binds.push(Bind::Text(payload.cod.clone()));
    binds.push(Bind::Int(event_id));
    let r = Statement::with(INSERT_TICKET_OF_EVENT, binds);
    assert(r@.binds =~= seq![BindView::Text(payload.cod@), BindView::Int(event_id)]);
    r
}

/// The statement that reads the ticket `cod`.
pub fn get_ticket(cod: &str) -> (r: Statement)
    ensures
        r@ == (StatementView { sql: SELECT_TICKET@, binds: seq![BindView::Text(cod@)] }),
{
    let mut binds: Vec<Bind> = Vec::new();
    binds.push(Bind::Text(String::from_str(cod)));
    let r = Statement::with(SELECT_TICKET, binds);
    assert(r@.binds =~= seq![BindView::Text(cod@)]);
    r
}

/// The statement that reads every ticket.
pub fn list_tickets() -> (r: Statement)
    ensures
        r@ == (StatementView { sql: SELECT_TICKETS@, binds: seq![] }),
{
    Statement::new(SELECT_TICKETS)
}

/// The statement that moves the ticket `cod` to what `payload` names: the
/// packet, the event, the code.
pub fn update_ticket(cod: &str, payload: &UpdateTicket) -> (r: Statement)
    ensures
        r@ == (StatementView {
            sql: UPDATE_TICKET@,
            binds: seq![
                BindView::OptInt(payload.id_pachet),
                BindView::OptInt(payload.id_event),
                BindView::Text(cod@),
            ],
        }),
{
    let mut binds: Vec<Bind> = Vec::new();
    binds.push(Bind::OptInt(payload.id_pachet));
    binds.push(Bind::OptInt(payload.id_event));
    binds.push(Bind::Text(String::from_str(cod)));
    let r = Statement::with(UPDATE_TICKET, binds);
    assert(r@.binds =~= seq![
        BindView::OptInt(payload.id_pachet),
        BindView::OptInt(payload.id_event),
        BindView::Text(cod@),
    ]);
    r
}

/// The statement that moves the ticket `cod` from the event `event_id` to
/// the packet that `payload` names.
pub fn update_ticket_for_event(event_id: i32, cod: &str, payload: &UpdateTicket) -> (r: Statement)
    ensures
        r@ == (StatementView {
            sql: UPDATE_TICKET_OF_EVENT@,
            binds: seq![
                BindView::OptInt(payload.id_pachet),
                BindView::Text(cod@),
                BindView::Int(event_id),
            ],
        }),
{
    let mut binds: Vec<Bind> = Vec::new();
    binds.push(Bind::OptInt(payload.id_pachet));
    binds.push(Bind::Text(String::from_str(cod)));
    binds.push(Bind::Int(event_id));
    let r = Statement::with(UPDATE_TICKET_OF_EVENT, binds);
    assert(r@.binds =~= seq![
        BindView::OptInt(payload.id_pachet),
        BindView::Text(cod@),
        BindView::Int(event_id),
    ]);
    r
}

/// The statement that removes the ticket `cod`.
pub fn delete_ticket(cod: &str) -> (r: Statement)
    ensures
        r@ == (StatementView { sql: DELETE_TICKET@, binds: seq![BindView::Text(cod@)] }),
{
    let mut binds: Vec<Bind> = Vec::new();
    binds.push(Bind::Text(String::from_str(cod)));
    let r = Statement::with(DELETE_TICKET, binds);
    assert(r@.binds =~= seq![BindView::Text(cod@)]);
    r
}

/// The statement that removes the ticket `cod` of the event `event_id`.
pub fn delete_ticket_for_event(event_id: i32, cod: &str) -> (r: Statement)
    ensures
        r@ == (StatementView {
            sql: DELETE_TICKET_OF_EVENT@,
            binds: seq![BindView::Int(event_id), BindView::Text(cod@)],
        }),
{
    let mut binds: Vec<Bind> = Vec::new();
    binds.push(Bind::Int(event_id));
    binds.push(Bind::Text(String::from_str(cod)));
    let r = Statement::with(DELETE_TICKET_OF_EVENT, binds);
    assert(r@.binds =~= seq![BindView::Int(event_id), BindView::Text(cod@)]);
    r
}

/// The statement that reads the tickets of the packet `packet_id`.
pub fn list_tickets_for_packet(packet_id: i32) -> (r: Statement)
    ensures
        r@ == (StatementView {
            sql: SELECT_TICKETS_OF_PACKET@,
            binds: seq![BindView::Int(packet_id)],
        }),
{
    let mut binds: Vec<Bind> = Vec::new();
    binds.push(Bind::Int(packet_id));
    let r = Statement::with(SELECT_TICKETS_OF_PACKET, binds);
    assert(r@.binds =~= seq![BindView::Int(packet_id)]);
    r
}

/// The statement that reads the ticket `cod` of the packet `packet_id`.
pub fn get_ticket_for_packet(packet_id: i32, cod: &str) -> (r: Statement)
    ensures
        r@ == (StatementView {
            sql: SELECT_TICKET_OF_PACKET@,
            binds: seq![BindView::Int(packet_id), BindView::Text(cod@)],
        }),
{
    let mut binds: Vec<Bind> = Vec::new();
    binds.push(Bind::Int(packet_id));
    binds.push(Bind::Text(String::from_str(cod)));
    let r = Statement::with(SELECT_TICKET_OF_PACKET, binds);
    assert(r@.binds =~= seq![BindView::Int(packet_id), BindView::Text(cod@)]);
    r
}

/// The statement that stores a new ticket with the code of `payload` for the
/// packet `packet_id` and for no event.
pub fn create_ticket_for_packet(packet_id: i32, payload: &CreateTicket) -> (r: Statement)
    ensures
        r@ == (StatementView {
            sql: INSERT_TICKET_OF_PACKET@,
            binds: seq![BindView::Text(payload.cod@), BindView::Int(packet_id)],
        }),
{
    let mut binds: Vec<Bind> = Vec::new();
    binds.push(Bind::Text(payload.cod.clone()));
    binds.push(Bind::Int(packet_id));
    let r = Statement::with(INSERT_TICKET_OF_PACKET, binds);
    assert(r@.binds =~= seq![BindView::Text(payload.cod@), BindView::Int(packet_id)]);
    r
}

/// The statement that moves the ticket `cod` from the packet `packet_id` to
/// the event that `payload` names.
pub fn update_ticket_for_packet(packet_id: i32, cod: &str, payload: &UpdateTicket) -> (r: Statement)
    ensures
        r@ == (StatementView {
            sql: UPDATE_TICKET_OF_PACKET@,
            binds: seq![
                BindView::OptInt(payload.id_event),
                BindView::Text(cod@),
                BindView::Int(packet_id),
            ],
        }),
{
    let mut binds: Vec<Bind> = Vec::new();
    binds.push(Bind::OptInt(payload.id_event));
    binds.push(Bind::Text(String::from_str(cod)));
    binds.push(Bind::Int(packet_id));
    let r = Statement::with(UPDATE_TICKET_OF_PACKET, binds);
    assert(r@.binds =~= seq![
        BindView::OptInt(payload.id_event),
        BindView::Text(cod@),
        BindView::Int(packet_id),
    ]);
    r
}

/// The statement that removes the ticket `cod` of the packet `packet_id`.
pub fn delete_ticket_for_packet(packet_id: i32, cod: &str) -> (r: Statement)
    ensures
        r@ == (StatementView {
            sql: DELETE_TICKET_OF_PACKET@,
            binds: seq![BindView::Int(packet_id), BindView::Text(cod@)],
        }),
{
    let mut binds: Vec<Bind> = Vec::new();
    binds.push(Bind::Int(packet_id));
    binds.push(Bind::Text(String::from_str(cod)));
    let r = Statement::with(DELETE_TICKET_OF_PACKET, binds);
    assert(r@.binds =~= seq![BindView::Int(packet_id), BindView::Text(cod@)]);
    r
}

/// What the store's answer means: the rows as they came, or the failure
/// translated by its kind.
pub fn translated<T>(outcome: Result<T, StoreError>) -> (r: Result<T, TicketRepoError>)
    ensures
        match outcome {
            Ok(rows) => r == Ok::<T, TicketRepoError>(rows),
            Err(e) => r matches Err(error) && error.kind() == kind_of(e) && (
            error matches TicketRepoError::InternalError(cause) ==> cause == e),
        },
{
    match outcome {
        Ok(rows) => Ok(rows),
        Err(e) => Err(map_sqlx_ticket_error(e)),
    }
}

/// What the answer to a removal means: done when the store removed a row,
/// `NotFound` when it removed none, an internal error that holds the
/// failure when the statement failed.
pub fn deleted(outcome: Result<u64, StoreError>) -> (r: Result<(), TicketRepoError>)
    ensures
        match r {
            Ok(_) => removal_kind(outcome) is None,
            Err(error) => removal_kind(outcome) == Some(error.kind()) && (
            error matches TicketRepoError::InternalError(cause) ==> outcome == Err::<
                u64,
                StoreError,
            >(
                cause,
            )),
        },
{
    match outcome {
        Ok(rows) => {
            if rows == 0 {
                Err(TicketRepoError::NotFound)
            } else {
                Ok(())
            }
        },
        Err(e) => Err(TicketRepoError::InternalError(e)),
    }
}

} // verus!
