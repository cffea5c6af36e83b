//! The bare form of the event endpoint: the event without an envelope, or
//! nothing but a status.

use crate::models::event::Event;
use crate::shared::error::{status, status_of, EventRepoError};
use vstd::prelude::*;

verus! {

/// The reply to a read of one event: the event as the store returned it,
/// or the status of the store's error.
pub fn get_event(outcome: Result<Event, EventRepoError>) -> (r: Result<Event, u16>)
    ensures
        match outcome {
            Ok(found) => r == Ok::<Event, u16>(found),
            Err(e) => r == Err::<Event, u16>(status_of(e.kind())),
        },
{
    match outcome {
        Ok(found) => Ok(found),
        Err(e) => Err(status(e.error_kind())),
    }
}

} // verus!
