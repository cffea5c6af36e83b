//! The replies of the event endpoints in their read-only form: every event
//! in an envelope whose links are to be read only.

use crate::handlers::{Reply, CREATED, NO_CONTENT, OK};
use crate::links::{event_response_links, EventResponse};
use crate::models::event::Event;
use crate::shared::error::EventRepoError;
use vstd::prelude::*;

verus! {

/// The read-only envelopes of `events`, in the order of the events.
pub fn event_responses(events: Vec<Event>, base_url: &str) -> (r: Vec<EventResponse>)
    ensures
        r@.len() == events@.len(),
        forall|i: int|
            0 <= i < r@.len() ==> {
                &&& (#[trigger] r@[i]).event == events@[i]
                &&& r@[i].links@ == event_response_links(base_url@, events@[i].id as int)
            },
{
    let mut out: Vec<EventResponse> = Vec::new();
    for event in it: events
        invariant
            out@.len() == it.index(),
            it.seq() == events@,
            forall|i: int|
                0 <= i < out@.len() ==> {
                    &&& (#[trigger] out@[i]).event == events@[i]
                    &&& out@[i].links@ == event_response_links(base_url@, events@[i].id as int)
                },
    {
        out.push(EventResponse::new(event, base_url));
    }
    out
}

/// The reply to a listing of events: every event that the store returned,
/// in its order, each in its read-only envelope; the store's error as it
/// is.
pub fn get_events(outcome: Result<Vec<Event>, EventRepoError>, base_url: &str) -> (r: Result<
    Reply<Vec<EventResponse>>,
    EventRepoError,
>)
    ensures
        match outcome {
            Ok(found) => {
                &&& r matches Ok(reply)
                &&& reply.status == OK
                &&& reply.body@.len() == found@.len()
                &&& forall|i: int|
                    0 <= i < found@.len() ==> {
                        &&& (#[trigger] reply.body@[i]).event == found@[i]
                        &&& reply.body@[i].links@ == event_response_links(
                            base_url@,
                            found@[i].id as int,
                        )
                    }
            },
            Err(e) => r == Err::<Reply<Vec<EventResponse>>, EventRepoError>(e),
        },
{
    match outcome {
        Ok(found) => Ok(Reply { status: OK, body: event_responses(found, base_url) }),
        Err(e) => Err(e),
    }
}

/// What a reply with one read-only envelope holds: the status, the event
/// as the store returned it, and its links.
pub open spec fn replied(
    outcome: Result<Event, EventRepoError>,
    base: Seq<char>,
    status: u16,
    r: Result<Reply<EventResponse>, EventRepoError>,
) -> bool {
    match outcome {
        Ok(found) => {
            &&& r matches Ok(reply)
            &&& reply.status == status
            &&& reply.body.event == found
            &&& reply.body.links@ == event_response_links(base, found.id as int)
        },
        Err(e) => r == Err::<Reply<EventResponse>, EventRepoError>(e),
    }
}

/// The reply to a read of one event: the event in its read-only envelope;
/// the store's error as it is.
pub fn get_event(outcome: Result<Event, EventRepoError>, base_url: &str) -> (r: Result<
    Reply<EventResponse>,
    EventRepoError,
>)
    ensures
        replied(outcome, base_url@, OK, r),
{
    match outcome {
        Ok(found) => Ok(Reply { status: OK, body: EventResponse::new(found, base_url) }),
        Err(e) => Err(e),
    }
}

/// The reply to a change of one event: the event as stored, in its
/// read-only envelope; the store's error as it is.
pub fn update_event(outcome: Result<Event, EventRepoError>, base_url: &str) -> (r: Result<
    Reply<EventResponse>,
    EventRepoError,
>)
    ensures
        replied(outcome, base_url@, OK, r),
{
    match outcome {
        Ok(found) => Ok(Reply { status: OK, body: EventResponse::new(found, base_url) }),
        Err(e) => Err(e),
    }
}

/// The reply to a creation: the event as stored, in its read-only
/// envelope, with the status of a creation; the store's error as it is.
pub fn create_event(outcome: Result<Event, EventRepoError>, base_url: &str) -> (r: Result<
    Reply<EventResponse>,
    EventRepoError,
>)
    ensures
        replied(outcome, base_url@, CREATED, r),
{
    match outcome {
        Ok(found) => Ok(Reply { status: CREATED, body: EventResponse::new(found, base_url) }),
        Err(e) => Err(e),
    }
}

/// The reply to a removal: no content; the store's error as it is.
pub fn delete_event(outcome: Result<(), EventRepoError>) -> (r: Result<Reply<()>, EventRepoError>)
    ensures
        match outcome {
            Ok(_) => r matches Ok(reply) && reply.status == NO_CONTENT,
            Err(e) => r == Err::<Reply<()>, EventRepoError>(e),
        },
{
    match outcome {
        Ok(_) => Ok(Reply { status: NO_CONTENT, body: () }),
        Err(e) => Err(e),
    }
}

} // verus!
