//! The statements of the packet repository, and what the store's answers to
//! them mean.

use crate::models::event_packets::{
    CreateEventPacket, EventPacketQuery, EventPacketQueryView, PaginationParams,
    UpdateEventPacket,
};
use crate::repositories::event_repo::{active, active_filter, anywhere, inner_pattern};
use crate::repositories::statement::{placeholder, Bind, BindView, Statement, StatementView};
use crate::shared::error::{
    kind_of, map_sqlx_packet_error, removal_kind, EventPacketRepoError, StoreError,
};
use crate::shared::text::{decimal, opt_view};
use vstd::prelude::*;

verus! {

/// The page that is read when the request names none.
pub const DEFAULT_PAGE: i64 = 1;

/// The number of packets on a page when the request names none.
pub const DEFAULT_ITEMS_PER_PAGE: i64 = 10;

/// Reads one packet by its id.
pub const SELECT_PACKET: &'static str =
    "SELECT id, id_owner, nume, locatie, descriere, numarlocuri FROM PACHETE WHERE id = $1";

/// Stores a new packet and returns it as stored.
pub const INSERT_PACKET: &'static str =
    "INSERT INTO PACHETE (id_owner, nume, locatie, descriere, numarlocuri) VALUES ($1, $2, $3, $4, $5) RETURNING id, id_owner, nume, locatie, descriere, numarlocuri";

/// Changes one packet and returns it as stored; an owner that is not given
/// keeps the stored one.
pub const UPDATE_PACKET: &'static str =
    "UPDATE PACHETE SET id_owner = COALESCE($1, id_owner), nume = $2, locatie = $3, descriere = $4, numarlocuri = $5 WHERE id = $6 RETURNING id, id_owner, nume, locatie, descriere, numarlocuri";

/// Removes one packet.
pub const DELETE_PACKET: &'static str = "DELETE FROM PACHETE WHERE id = $1";

/// The page that a request asks for: the first when it names none or one
/// below the first.
pub open spec fn page_number(p: PaginationParams) -> int {
    match p.page {
        Some(n) => if n < DEFAULT_PAGE {
            DEFAULT_PAGE as int
        } else {
            n as int
        },
        None => DEFAULT_PAGE as int,
    }
}

/// The number of packets on a page: ten when the request names none, and
/// never less than one.
pub open spec fn page_size(p: PaginationParams) -> int {
    match p.items_per_page {
        Some(n) => if n < 1 {
            1
        } else {
            n as int
        },
        None => DEFAULT_ITEMS_PER_PAGE as int,
    }
}

/// The number of packets before the page.
pub open spec fn page_offset(p: PaginationParams) -> int {
    (page_number(p) - 1) * page_size(p)
}

/// The text of the packet listing: the packets whose description holds the
/// first value and that have at least the next value of seats in their
/// events, as far as these filters are active; then the page.
pub open spec fn list_event_packets_sql(by_type: bool, by_tickets: bool) -> Seq<char> {
    if by_type && by_tickets {
        "SELECT ID, ID_OWNER, nume, locatie, descriere, numarlocuri FROM PACHETE WHERE unaccent(descriere) ILIKE unaccent($1) AND (SELECT SUM(numarlocuri) FROM JOIN_PE WHERE pachetid = PACHETE.ID) >= $2 LIMIT $3 OFFSET $4"@
    } else if by_type {
        "SELECT ID, ID_OWNER, nume, locatie, descriere, numarlocuri FROM PACHETE WHERE unaccent(descriere) ILIKE unaccent($1) LIMIT $2 OFFSET $3"@
    } else if by_tickets {
        "SELECT ID, ID_OWNER, nume, locatie, descriere, numarlocuri FROM PACHETE WHERE (SELECT SUM(numarlocuri) FROM JOIN_PE WHERE pachetid = PACHETE.ID) >= $1 LIMIT $2 OFFSET $3"@
    } else {
        "SELECT ID, ID_OWNER, nume, locatie, descriere, numarlocuri FROM PACHETE LIMIT $1 OFFSET $2"@
    }
}

/// The least number of seats, if the request names one.
pub open spec fn tickets_bind(tickets: Option<i32>) -> Seq<BindView> {
    match tickets {
        Some(n) => seq![BindView::Int(n)],
        None => seq![],
    }
}

/// The packet listing for the filters `q`: the pattern of the type filter,
/// the least number of seats, the size of the page and the number of
/// packets before it.
pub open spec fn list_event_packets_statement(q: EventPacketQueryView) -> StatementView {
    let page = PaginationParams { page: q.page, items_per_page: q.items_per_page };
    StatementView {
        sql: list_event_packets_sql(active(q.descriere) is Some, q.bilete is Some),
        binds: inner_pattern(q.descriere) + tickets_bind(q.bilete) + seq![
            BindView::BigInt(page_size(page) as i64),
            BindView::BigInt(page_offset(page) as i64),
        ],
    }
}

/// The size of the page and the number of packets before it; `None` when
/// that number is more than an `i64` holds.
pub fn page_window(pagination: PaginationParams) -> (r: Option<(i64, i64)>)
    ensures
        match r {
            Some((limit, offset)) => limit == page_size(pagination) && offset == page_offset(
                pagination,
            ),
            None => page_offset(pagination) > i64::MAX,
        },
{
    let page: i64 = match pagination.page {
        Some(n) => if n < DEFAULT_PAGE {
            DEFAULT_PAGE
        } else {
            n
        },
        None => DEFAULT_PAGE,
    };
    let items: i64 = match pagination.items_per_page {
        Some(n) => if n < 1 {
            1
        } else {
            n
        },
        None => DEFAULT_ITEMS_PER_PAGE,
    };
    match (page - 1).checked_mul(items) {
        Some(offset) => Some((items, offset)),
        None => {
            assert((page - 1) * items >= 0) by (nonlinear_arith)
                requires
                    page - 1 >= 0,
                    items >= 1,
            ;
            None
        },
    }
}

/// Appends the page to a listing: the limit and the offset, each with its
/// value.
pub fn apply_pagination(statement: &mut Statement, pagination: PaginationParams)
    requires
        page_offset(pagination) <= i64::MAX,
    ensures
        final(statement)@ == (StatementView {
            sql: old(statement)@.sql + " LIMIT "@ + placeholder(
                old(statement)@.binds.len() as int + 1,
            ) + " OFFSET "@ + placeholder(old(statement)@.binds.len() as int + 2),
            binds: old(statement)@.binds.push(
                BindView::BigInt(page_size(pagination) as i64),
            ).push(BindView::BigInt(page_offset(pagination) as i64)),
        }),
{
    match page_window(pagination) {
        Some((limit, offset)) => {
            statement.push(" LIMIT ");
            statement.push_bind(Bind::BigInt(limit));
            statement.push(" OFFSET ");
            statement.push_bind(Bind::BigInt(offset));
        },
        None => {},
    }
}

/// The statement that lists the page of packets that `params` asks for;
/// `None` when the number of packets before the page is more than an `i64`
/// holds.
pub fn list_event_packets(params: &EventPacketQuery) -> (r: Option<Statement>)
    ensures
        match r {
            Some(statement) => statement@ == list_event_packets_statement(params@)
                && page_offset(params.paginare) <= i64::MAX,
            None => page_offset(params.paginare) > i64::MAX,
        },
{
    if page_window(params.paginare).is_none() {
        return None;
    }
    let mut statement = Statement::new(
        "SELECT ID, ID_OWNER, nume, locatie, descriere, numarlocuri FROM PACHETE",
    );
    let mut has_condition = false;
    match active_filter(&params.descriere) {
        Some(filter) => {
            statement.push(" WHERE unaccent(descriere) ILIKE unaccent(");
            statement.push_bind(Bind::Text(anywhere(filter.as_str())));
            statement.push(")");
            has_condition = true;
        },
        None => {},
    }
    match params.bilete {
        Some(min_tickets) => {
            if has_condition {
                statement.push(" AND ");
            } else {
                statement.push(" WHERE ");
            }
            statement.push(
                "(SELECT SUM(numarlocuri) FROM JOIN_PE WHERE pachetid = PACHETE.ID) >= ",
            );
            statement.push_bind(Bind::Int(min_tickets));
        },
        None => {},
    }
    apply_pagination(&mut statement, params.paginare);
    proof {
        reveal_strlit("SELECT ID, ID_OWNER, nume, locatie, descriere, numarlocuri FROM PACHETE");
        reveal_strlit(" WHERE unaccent(descriere) ILIKE unaccent(");
        reveal_strlit(")");
        reveal_strlit(" AND ");
        reveal_strlit(" WHERE ");
        reveal_strlit("(SELECT SUM(numarlocuri) FROM JOIN_PE WHERE pachetid = PACHETE.ID) >= ");
        reveal_strlit(" LIMIT ");
        reveal_strlit(" OFFSET ");
        reveal_strlit("$");
        reveal_strlit(
            "SELECT ID, ID_OWNER, nume, locatie, descriere, numarlocuri FROM PACHETE WHERE unaccent(descriere) ILIKE unaccent($1) AND (SELECT SUM(numarlocuri) FROM JOIN_PE WHERE pachetid = PACHETE.ID) >= $2 LIMIT $3 OFFSET $4",
        );
        reveal_strlit(
            "SELECT ID, ID_OWNER, nume, locatie, descriere, numarlocuri FROM PACHETE WHERE unaccent(descriere) ILIKE unaccent($1) LIMIT $2 OFFSET $3",
        );
        reveal_strlit(
            "SELECT ID, ID_OWNER, nume, locatie, descriere, numarlocuri FROM PACHETE WHERE (SELECT SUM(numarlocuri) FROM JOIN_PE WHERE pachetid = PACHETE.ID) >= $1 LIMIT $2 OFFSET $3",
        );
        reveal_strlit(
            "SELECT ID, ID_OWNER, nume, locatie, descriere, numarlocuri FROM PACHETE LIMIT $1 OFFSET $2",
        );
        assert(decimal(1) =~= seq!['1']);
        assert(decimal(2) =~= seq!['2']);
        assert(decimal(3) =~= seq!['3']);
        assert(decimal(4) =~= seq!['4']);
        assert(statement@.sql =~= list_event_packets_statement(params@).sql);
        assert(statement@.binds =~= list_event_packets_statement(params@).binds);
    }
    Some(statement)
}

/// The statement that reads the packet `packet_id`.
pub fn get_event_packet(packet_id: i32) -> (r: Statement)
    ensures
        r@ == (StatementView { sql: SELECT_PACKET@, binds: seq![BindView::Int(packet_id)] }),
{
    let mut binds: Vec<Bind> = Vec::new();
    binds.push(Bind::Int(packet_id));
    let r = Statement::with(SELECT_PACKET, binds);
    assert(r@.binds =~= seq![BindView::Int(packet_id)]);
    r
}

/// The values of a new packet in the order of the statement: owner, name,
/// location, description, seats.
pub open spec fn create_event_packet_binds(payload: CreateEventPacket) -> Seq<BindView> {
    seq![
        BindView::Int(payload.id_owner),
        BindView::Text(payload.nume@),
        BindView::OptText(opt_view(payload.locatie)),
        BindView::OptText(opt_view(payload.descriere)),
        BindView::OptInt(payload.numarlocuri),
    ]
}

/// The statement that stores `payload` as a new packet.
pub fn create_event_packet(payload: &CreateEventPacket) -> (r: Statement)
    ensures
        r@ == (StatementView { sql: INSERT_PACKET@, binds: create_event_packet_binds(*payload) }),
{
    let mut binds: Vec<Bind> = Vec::new();
    binds.push(Bind::Int(payload.id_owner));
    binds.push(Bind::Text(payload.nume.clone()));
    binds.push(Bind::OptText(payload.locatie.clone()));
    binds.push(Bind::OptText(payload.descriere.clone()));
    binds.push(Bind::OptInt(payload.numarlocuri));
    let r = Statement::with(INSERT_PACKET, binds);
    assert(r@.binds =~= create_event_packet_binds(*payload));
    r
}

/// The values of a changed packet in the order of the statement: owner,
/// name, location, description, seats, and the id of the packet last.
pub open spec fn update_event_packet_binds(packet_id: i32, payload: UpdateEventPacket) -> Seq<
    BindView,
> {
    seq![
        BindView::OptInt(payload.id_owner),
        BindView::Text(payload.nume@),
        BindView::OptText(opt_view(payload.locatie)),
        BindView::OptText(opt_view(payload.descriere)),
        BindView::OptInt(payload.numarlocuri),
        BindView::Int(packet_id),
    ]
}

/// The statement that changes the packet `packet_id` to `payload`.
pub fn update_event_packet(packet_id: i32, payload: &UpdateEventPacket) -> (r: Statement)
    ensures
        r@ == (StatementView {
            sql: UPDATE_PACKET@,
            binds: update_event_packet_binds(packet_id, *payload),
        }),
{
    let mut binds: Vec<Bind> = Vec::new();
    binds.push(Bind::OptInt(payload.id_owner));
    binds.push(Bind::Text(payload.nume.clone()));
    binds.push(Bind::OptText(payload.locatie.clone()));
    binds.push(Bind::OptText(payload.descriere.clone()));
    binds.push(Bind::OptInt(payload.numarlocuri));
    binds.push(Bind::Int(packet_id));
    let r = Statement::with(UPDATE_PACKET, binds);
    assert(r@.binds =~= update_event_packet_binds(packet_id, *payload));
    r
}

/// The statement that removes the packet `packet_id`.
pub fn delete_event_packet(packet_id: i32) -> (r: Statement)
    ensures
        r@ == (StatementView { sql: DELETE_PACKET@, binds: seq![BindView::Int(packet_id)] }),
{
    let mut binds: Vec<Bind> = Vec::new();
    binds.push(Bind::Int(packet_id));
    let r = Statement::with(DELETE_PACKET, binds);
    assert(r@.binds =~= seq![BindView::Int(packet_id)]);
    r
}

/// What the answer to a listing means: the rows, or an internal error that
/// holds the failure.
pub fn listed<T>(outcome: Result<T, StoreError>) -> (r: Result<T, EventPacketRepoError>)
    ensures
        match outcome {
            Ok(rows) => r == Ok::<T, EventPacketRepoError>(rows),
            Err(e) => r == Err::<T, EventPacketRepoError>(EventPacketRepoError::InternalError(e)),
        },
{
    match outcome {
        Ok(rows) => Ok(rows),
        Err(e) => Err(EventPacketRepoError::InternalError(e)),
    }
}

/// What the answer to a read or a change of one packet means: the row;
/// `NotFound` when the store had no such row; else an internal error that
/// holds the failure.
pub fn fetched<T>(outcome: Result<T, StoreError>) -> (r: Result<T, EventPacketRepoError>)
    ensures
        match outcome {
            Ok(row) => r == Ok::<T, EventPacketRepoError>(row),
            Err(StoreError::RowNotFound) => r == Err::<T, EventPacketRepoError>(
                EventPacketRepoError::NotFound,
            ),
            Err(e) => r == Err::<T, EventPacketRepoError>(EventPacketRepoError::InternalError(e)),
        },
{
    match outcome {
        Ok(row) => Ok(row),
        Err(StoreError::RowNotFound) => Err(EventPacketRepoError::NotFound),
        Err(e) => Err(EventPacketRepoError::InternalError(e)),
    }
}

/// What the answer to a creation means: the row as stored, or the failure
/// translated by its kind.
pub fn created<T>(outcome: Result<T, StoreError>) -> (r: Result<T, EventPacketRepoError>)
    ensures
        match outcome {
            Ok(row) => r == Ok::<T, EventPacketRepoError>(row),
            Err(e) => r matches Err(error) && error.kind() == kind_of(e) && (
            error matches EventPacketRepoError::InternalError(cause) ==> cause == e),
        },
{
    match outcome {
        Ok(row) => Ok(row),
        Err(e) => Err(map_sqlx_packet_error(e)),
    }
}

/// What the answer to a removal means: done when the store removed a row,
/// `NotFound` when it removed none, an internal error that holds the
/// failure when the statement failed.
pub fn deleted(outcome: Result<u64, StoreError>) -> (r: Result<(), EventPacketRepoError>)
    ensures
        match r {
            Ok(_) => removal_kind(outcome) is None,
            Err(error) => removal_kind(outcome) == Some(error.kind()) && (
            error matches EventPacketRepoError::InternalError(cause) ==> outcome == Err::<
                u64,
                StoreError,
            >(
                cause,
            )),
        },
{
    match outcome {
        Ok(rows) => {
            if rows == 0 {
                Err(EventPacketRepoError::NotFound)
            } else {
                Ok(())
            }
        },
        Err(e) => Err(EventPacketRepoError::InternalError(e)),
    }
}

} // verus!
