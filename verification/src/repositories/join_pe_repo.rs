//! The statements of the repository of links between packets and events,
//! and what the store's answers to them mean.

use crate::models::join_pe::{AddEventToPacket, AddPacketToEvent};
use crate::repositories::statement::{Bind, BindView, Statement, StatementView};
use crate::shared::error::{kind_of, map_sqlx_join_pe_error, JoinPeRepoError, StoreError};
use vstd::prelude::*;

verus! {

/// Reads the events of one packet.
pub const SELECT_EVENTS_OF_PACKET: &'static str =
    "SELECT e.id, e.id_owner, e.nume, e.locatie, e.descriere, e.numarlocuri FROM EVENIMENTE e JOIN JOIN_PE j ON e.id = j.evenimentid WHERE j.pachetid = $1";

/// Reads the packets of one event.
pub const SELECT_PACKETS_OF_EVENT: &'static str =
    "SELECT p.id, p.id_owner, p.nume, p.locatie, p.descriere, p.numarlocuri FROM PACHETE p JOIN JOIN_PE j ON p.id = j.pachetid WHERE j.evenimentid = $1";

/// Stores the link of a packet and an event and returns it as stored.
pub const INSERT_LINK: &'static str =
    "INSERT INTO JOIN_PE (pachetid, evenimentid, numarlocuri) VALUES ($1, $2, $3) RETURNING pachetid, evenimentid, numarlocuri";

/// The statement that reads the events of the packet `pachet_id`.
pub fn get_events_for_packet(pachet_id: i32) -> (r: Statement)
    ensures
        r@ == (StatementView {
            sql: SELECT_EVENTS_OF_PACKET@,
            binds: seq![BindView::Int(pachet_id)],
        }),
{
    let mut binds: Vec<Bind> = Vec::new();
    binds.push(Bind::Int(pachet_id));
    let r = Statement::with(SELECT_EVENTS_OF_PACKET, binds);
    assert(r@.binds =~= seq![BindView::Int(pachet_id)]);
    r
}

/// The statement that reads the packets of the event `eveniment_id`.
pub fn get_packets_for_event(eveniment_id: i32) -> (r: Statement)
    ensures
        r@ == (StatementView {
            sql: SELECT_PACKETS_OF_EVENT@,
            binds: seq![BindView::Int(eveniment_id)],
        }),
{
    let mut binds: Vec<Bind> = Vec::new();
    binds.push(Bind::Int(eveniment_id));
    let r = Statement::with(SELECT_PACKETS_OF_EVENT, binds);
    assert(r@.binds =~= seq![BindView::Int(eveniment_id)]);
    r
}

/// The statement that puts the event `eveniment_id` into the packet that
/// `payload` names: the packet, the event, the seats.
pub fn add_event_to_packet(eveniment_id: i32, payload: &AddEventToPacket) -> (r: Statement)
    ensures
        r@ == (StatementView {
            sql: INSERT_LINK@,
            binds: seq![
                BindView::Int(payload.id_pachet),
                BindView::Int(eveniment_id),
                BindView::OptInt(payload.locuri),
            ],
        }),
{
    let mut binds: Vec<Bind> = Vec::new();
    binds.push(Bind::Int(payload.id_pachet));
    binds.push(Bind::Int(eveniment_id));
    binds.push(Bind::OptInt(payload.locuri));
    let r = Statement::with(INSERT_LINK, binds);
    assert(r@.binds =~= seq![
        BindView::Int(payload.id_pachet),
        BindView::Int(eveniment_id),
        BindView::OptInt(payload.locuri),
    ]);
    r
}

/// The statement that puts the event that `payload` names into the packet
/// `pachet_id`: the packet, the event, the seats.
pub fn add_packet_to_event(pachet_id: i32, payload: &AddPacketToEvent) -> (r: Statement)
    ensures
        r@ == (StatementView {
            sql: INSERT_LINK@,
            binds: seq![
                BindView::Int(pachet_id),
                BindView::Int(payload.id_event),
                BindView::OptInt(payload.locuri),
            ],
        }),
{
    let mut binds: Vec<Bind> = Vec::new();
    binds.push(Bind::Int(pachet_id));
    binds.push(Bind::Int(payload.id_event));
    binds.push(Bind::OptInt(payload.locuri));
    let r = Statement::with(INSERT_LINK, binds);
    assert(r@.binds =~= seq![
        BindView::Int(pachet_id),
        BindView::Int(payload.id_event),
        BindView::OptInt(payload.locuri),
    ]);
    r
}

/// What the store's answer means: the rows as they came, or the failure
/// translated by its kind.
pub fn translated<T>(outcome: Result<T, StoreError>) -> (r: Result<T, JoinPeRepoError>)
    ensures
        match outcome {
            Ok(rows) => r == Ok::<T, JoinPeRepoError>(rows),
            Err(e) => r matches Err(error) && error.kind() == kind_of(e) && (
            error matches JoinPeRepoError::InternalError(cause) ==> cause == e),
        },
{
    match outcome {
        Ok(rows) => Ok(rows),
        Err(e) => Err(map_sqlx_join_pe_error(e)),
    }
}

} // verus!
