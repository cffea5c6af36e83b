//! What the request handlers decide: whether a request goes on to the
//! store, and the reply that the store's answer leads to. Routing, decoding
//! and sending are left to the caller.

use crate::shared::error::StoreError;
use vstd::prelude::*;

pub mod event;
pub mod event_packets;
pub mod events;
pub mod join_pe;
pub mod routes;
pub mod ticket;

verus! {

/// The status of a read or a change that succeeded.
pub const OK: u16 = 200;

/// The status of a creation that succeeded.
pub const CREATED: u16 = 201;

/// The status of a removal that succeeded: there is no body.
pub const NO_CONTENT: u16 = 204;

/// A successful reply: the status and the body.
#[derive(Debug)]
pub struct Reply<T> {
    pub status: u16,
    pub body: T,
}

/// What the service says of a store that answers.
pub const STORE_WORKS: &'static str = "PostgreSQL works! :p";

/// What the service says of a store that does not answer.
pub const STORE_FAILS: &'static str = "PostgreSQL DOESN'T work! :(";

/// What the service says of its store, from the outcome of the statement
/// that asks the store whether it answers.
pub fn check_state(outcome: Result<(), StoreError>) -> (r: &'static str)
    ensures
        r@ == if outcome is Ok {
            STORE_WORKS@
        } else {
            STORE_FAILS@
        },
{
    match outcome {
        Ok(_) => STORE_WORKS,
        Err(_) => STORE_FAILS,
    }
}

} // verus!
