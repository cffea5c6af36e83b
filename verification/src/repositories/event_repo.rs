//! The statements of the event repository, and what the store's answers to
//! them mean.

use crate::models::event::{CreateEvent, EventQuery, EventQueryView, UpdateEvent};
use crate::repositories::statement::{Bind, BindView, Statement, StatementView};
use crate::shared::error::{
    kind_of, map_sqlx_event_error, removal_kind, EventRepoError, StoreError,
};
use crate::shared::text::{decimal, followed_by, opt_view};
use vstd::prelude::*;

verus! {

/// Asks the store whether it answers at all.
pub const CHECK: &'static str = "select 1";

/// Reads one event by its id.
pub const SELECT_EVENT: &'static str =
    "SELECT ID, ID_OWNER, nume, locatie, descriere, numarlocuri FROM EVENIMENTE WHERE ID = $1";

/// Stores a new event and returns it as stored.
pub const INSERT_EVENT: &'static str =
    "INSERT INTO EVENIMENTE (ID_OWNER, nume, locatie, descriere, numarlocuri) VALUES ($1, $2, $3, $4, $5) RETURNING ID, ID_OWNER, nume, locatie, descriere, numarlocuri";

/// Changes one event and returns it as stored; a value that is not given
/// keeps the stored one.
pub const UPDATE_EVENT: &'static str =
    "UPDATE EVENIMENTE SET id_owner = COALESCE($1, id_owner), nume = COALESCE($2, nume), locatie = COALESCE($3, locatie), descriere = COALESCE($4, descriere), numarlocuri = COALESCE($5, numarlocuri) WHERE ID = $6 RETURNING ID, ID_OWNER, nume, locatie, descriere, numarlocuri";

/// Removes one event.
pub const DELETE_EVENT: &'static str = "DELETE FROM EVENIMENTE WHERE ID = $1";

/// A filter that is given and not empty; an empty filter filters nothing.
pub open spec fn active(filter: Option<Seq<char>>) -> Option<Seq<char>> {
    match filter {
        Some(t) => if t.len() > 0 {
            Some(t)
        } else {
            None
        },
        None => None,
    }
}

/// The text of the event listing: all events, or those whose location
/// starts with the first value and whose name holds the second, as far as
/// the filters are active.
pub open spec fn list_events_sql(by_location: bool, by_name: bool) -> Seq<char> {
    if by_location && by_name {
        "SELECT ID, ID_OWNER, nume, locatie, descriere, numarlocuri FROM EVENIMENTE WHERE unaccent(locatie) ILIKE unaccent($1) AND unaccent(nume) ILIKE unaccent($2)"@
    } else if by_location {
        "SELECT ID, ID_OWNER, nume, locatie, descriere, numarlocuri FROM EVENIMENTE WHERE unaccent(locatie) ILIKE unaccent($1)"@
    } else if by_name {
        "SELECT ID, ID_OWNER, nume, locatie, descriere, numarlocuri FROM EVENIMENTE WHERE unaccent(nume) ILIKE unaccent($1)"@
    } else {
        "SELECT ID, ID_OWNER, nume, locatie, descriere, numarlocuri FROM EVENIMENTE"@
    }
}

/// The pattern for a location filter: the filter, then anything.
pub open spec fn location_pattern(filter: Option<Seq<char>>) -> Seq<BindView> {
    match active(filter) {
        Some(l) => seq![BindView::Text(l + "%"@)],
        None => seq![],
    }
}

/// The pattern for a filter that may stand anywhere: anything, the filter,
/// anything.
pub open spec fn inner_pattern(filter: Option<Seq<char>>) -> Seq<BindView> {
    match active(filter) {
        Some(n) => seq![BindView::Text("%"@ + n + "%"@)],
        None => seq![],
    }
}

/// The event listing for the filters `q`.
pub open spec fn list_events_statement(q: EventQueryView) -> StatementView {
    StatementView {
        sql: list_events_sql(active(q.locatie) is Some, active(q.nume) is Some),
        binds: location_pattern(q.locatie) + inner_pattern(q.nume),
    }
}

/// The filter, if it is given and not empty.
pub fn active_filter(filter: &Option<String>) -> (r: Option<&String>)
    ensures
        match r {
            Some(t) => active(opt_view(*filter)) == Some(t@),
            None => active(opt_view(*filter)) is None,
        },
{
    match filter {
        Some(t) => {
            if t.as_str().is_empty() {
                None
            } else {
                Some(t)
            }
        },
        None => None,
    }
}

/// The pattern that matches every text in which `filter` stands.
pub fn anywhere(filter: &str) -> (r: String)
    ensures
        r@ == "%"@ + filter@ + "%"@,
{
    let mut pattern = followed_by("%", filter);
    pattern.append("%");
    pattern
}

/// The statement that asks whether the store answers.
pub fn check() -> (r: Statement)
    ensures
        r@ == (StatementView { sql: CHECK@, binds: seq![] }),
{
    Statement::new(CHECK)
}

/// The statement that lists the events that pass the filters of `params`.
pub fn list_events(params: &EventQuery) -> (r: Statement)
    ensures
        r@ == list_events_statement(params@),
{
    let mut statement = Statement::new(
        "SELECT ID, ID_OWNER, nume, locatie, descriere, numarlocuri FROM EVENIMENTE",
    );
    let mut has_condition = false;
    match active_filter(&params.locatie) {
        Some(location) => {
            statement.push(" WHERE unaccent(locatie) ILIKE unaccent(");
            statement.push_bind(Bind::Text(followed_by(location.as_str(), "%")));
            statement.push(")");
            has_condition = true;
        },
        None => {},
    }
    match active_filter(&params.nume) {
        Some(name) => {
            if has_condition {
                statement.push(" AND unaccent(nume) ILIKE unaccent(");
            } else {
                statement.push(" WHERE unaccent(nume) ILIKE unaccent(");
            }
            statement.push_bind(Bind::Text(anywhere(name.as_str())));
            statement.push(")");
        },
        None => {},
    }
    proof {
        reveal_strlit("SELECT ID, ID_OWNER, nume, locatie, descriere, numarlocuri FROM EVENIMENTE");
        reveal_strlit(" WHERE unaccent(locatie) ILIKE unaccent(");
        reveal_strlit(" WHERE unaccent(nume) ILIKE unaccent(");
        reveal_strlit(" AND unaccent(nume) ILIKE unaccent(");
        reveal_strlit(")");
        reveal_strlit("$");
        reveal_strlit(
            "SELECT ID, ID_OWNER, nume, locatie, descriere, numarlocuri FROM EVENIMENTE WHERE unaccent(locatie) ILIKE unaccent($1) AND unaccent(nume) ILIKE unaccent($2)",
        );
        reveal_strlit(
            "SELECT ID, ID_OWNER, nume, locatie, descriere, numarlocuri FROM EVENIMENTE WHERE unaccent(locatie) ILIKE unaccent($1)",
        );
        reveal_strlit(
            "SELECT ID, ID_OWNER, nume, locatie, descriere, numarlocuri FROM EVENIMENTE WHERE unaccent(nume) ILIKE unaccent($1)",
        );
        assert(decimal(1) =~= seq!['1']);
        assert(decimal(2) =~= seq!['2']);
        assert(statement@.sql =~= list_events_statement(params@).sql);
        assert(statement@.binds =~= list_events_statement(params@).binds);
    }
    statement
}

/// The statement that reads the event `event_id`.
pub fn get_event(event_id: i32) -> (r: Statement)
    ensures
        r@ == (StatementView { sql: SELECT_EVENT@, binds: seq![BindView::Int(event_id)] }),
{
    let mut binds: Vec<Bind> = Vec::new();
    binds.push(Bind::Int(event_id));
    let r = Statement::with(SELECT_EVENT, binds);
    assert(r@.binds =~= seq![BindView::Int(event_id)]);
    r
}

/// The values of a new event in the order of the statement: owner, name,
/// location, description, seats.
pub open spec fn create_event_binds(payload: CreateEvent) -> Seq<BindView> {
    seq![
        BindView::Int(payload.id_owner),
        BindView::Text(payload.nume@),
        BindView::OptText(opt_view(payload.locatie)),
        BindView::OptText(opt_view(payload.descriere)),
        BindView::OptInt(payload.locuri),
    ]
}

/// The statement that stores `payload` as a new event.
pub fn create_event(payload: &CreateEvent) -> (r: Statement)
    ensures
        r@ == (StatementView { sql: INSERT_EVENT@, binds: create_event_binds(*payload) }),
{
    let mut binds: Vec<Bind> = Vec::new();
    binds.push(Bind::Int(payload.id_owner));
    binds.push(Bind::Text(payload.nume.clone()));
    binds.push(Bind::OptText(payload.locatie.clone()));
    binds.push(Bind::OptText(payload.descriere.clone()));
    binds.push(Bind::OptInt(payload.locuri));
    let r = Statement::with(INSERT_EVENT, binds);
    assert(r@.binds =~= create_event_binds(*payload));
    r
}

/// The values of a changed event in the order of the statement: owner,
/// name, location, description, seats, and the id of the event last.
pub open spec fn update_event_binds(event_id: i32, payload: UpdateEvent) -> Seq<BindView> {
    seq![
        BindView::OptInt(payload.id_owner),
        BindView::Text(payload.nume@),
        BindView::OptText(opt_view(payload.locatie)),
        BindView::OptText(opt_view(payload.descriere)),
        BindView::OptInt(payload.locuri),
        BindView::Int(event_id),
    ]
}

/// The statement that changes the event `event_id` to `payload`.
pub fn update_event(event_id: i32, payload: &UpdateEvent) -> (r: Statement)
    ensures
        r@ == (StatementView { sql: UPDATE_EVENT@, binds: update_event_binds(event_id, *payload) }),
{
    let mut binds: Vec<Bind> = Vec::new();
    binds.push(Bind::OptInt(payload.id_owner));
    binds.push(Bind::Text(payload.nume.clone()));
    binds.push(Bind::OptText(payload.locatie.clone()));
    binds.push(Bind::OptText(payload.descriere.clone()));
    binds.push(Bind::OptInt(payload.locuri));
    binds.push(Bind::Int(event_id));
    let r = Statement::with(UPDATE_EVENT, binds);
    assert(r@.binds =~= update_event_binds(event_id, *payload));
    r
}

/// The statement that removes the event `event_id`.
pub fn delete_event(event_id: i32) -> (r: Statement)
    ensures
        r@ == (StatementView { sql: DELETE_EVENT@, binds: seq![BindView::Int(event_id)] }),
{
    let mut binds: Vec<Bind> = Vec::new();
    binds.push(Bind::Int(event_id));
    let r = Statement::with(DELETE_EVENT, binds);
    assert(r@.binds =~= seq![BindView::Int(event_id)]);
    r
}

/// What the answer to a listing means: the rows, or an internal error that
/// holds the failure.
pub fn listed<T>(outcome: Result<T, StoreError>) -> (r: Result<T, EventRepoError>)
    ensures
        match outcome {
            Ok(rows) => r == Ok::<T, EventRepoError>(rows),
            Err(e) => r == Err::<T, EventRepoError>(EventRepoError::InternalError(e)),
        },
{
    match outcome {
        Ok(rows) => Ok(rows),
        Err(e) => Err(EventRepoError::InternalError(e)),
    }
}

/// What the answer to a read or a change of one event means: the row;
/// `NotFound` when the store had no such row; else an internal error that
/// holds the failure.
pub fn fetched<T>(outcome: Result<T, StoreError>) -> (r: Result<T, EventRepoError>)
    ensures
        match outcome {
            Ok(row) => r == Ok::<T, EventRepoError>(row),
            Err(StoreError::RowNotFound) => r == Err::<T, EventRepoError>(EventRepoError::NotFound),
            Err(e) => r == Err::<T, EventRepoError>(EventRepoError::InternalError(e)),
        },
{
    match outcome {
        Ok(row) => Ok(row),
        Err(StoreError::RowNotFound) => Err(EventRepoError::NotFound),
        Err(e) => Err(EventRepoError::InternalError(e)),
    }
}

/// What the answer to a creation means: the row as stored, or the failure
/// translated by its kind.
pub fn created<T>(outcome: Result<T, StoreError>) -> (r: Result<T, EventRepoError>)
    ensures
        match outcome {
            Ok(row) => r == Ok::<T, EventRepoError>(row),
            Err(e) => r matches Err(error) && error.kind() == kind_of(e) && (
            error matches EventRepoError::InternalError(cause) ==> cause == e),
        },
{
    match outcome {
        Ok(row) => Ok(row),
        Err(e) => Err(map_sqlx_event_error(e)),
    }
}

/// What the answer to a removal means: done when the store removed a row,
/// `NotFound` when it removed none, an internal error that holds the
/// failure when the statement failed.
pub fn deleted(outcome: Result<u64, StoreError>) -> (r: Result<(), EventRepoError>)
    ensures
        match r {
            Ok(_) => removal_kind(outcome) is None,
            Err(error) => removal_kind(outcome) == Some(error.kind()) && (
            error matches EventRepoError::InternalError(cause) ==> outcome == Err::<
                u64,
                StoreError,
            >(
                cause,
            )),
        },
{
    match outcome {
        Ok(rows) => {
            if rows == 0 {
                Err(EventRepoError::NotFound)
            } else {
                Ok(())
            }
        },
        Err(e) => Err(EventRepoError::InternalError(e)),
    }
}

} // verus!
