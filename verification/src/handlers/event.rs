//! The replies of the event endpoints.

use crate::handlers::{Reply, CREATED, NO_CONTENT, OK};
use crate::models::event::{Event, EventQuery};
use crate::shared::error::EventRepoError;
use crate::shared::links::{
    build_filtered_event, build_simple_event, build_simple_events, filtered_event_links,
    simple_event_links, LinksView, Response,
};
use vstd::prelude::*;

verus! {

/// The links of an item of the event listing: those of a filtered listing
/// when the request gave a filter, else those of an event reached on its
/// own.
pub open spec fn listed_event_links(
    base: Seq<char>,
    params: EventQuery,
    event: Event,
) -> LinksView {
    if params.filtered() {
        filtered_event_links(base, params@)
    } else {
        simple_event_links(base, event.id as int)
    }
}

/// The reply to a listing of events: every event that the store returned, in
/// its order, each in its envelope; the store's error as it is.
pub fn list_events(
    outcome: Result<Vec<Event>, EventRepoError>,
    params: &EventQuery,
    base_url: &str,
) -> (r: Result<Reply<Vec<Response<Event>>>, EventRepoError>)
    ensures
        match outcome {
            Ok(found) => {
                &&& r matches Ok(reply)
                &&& reply.status == OK
                &&& reply.body@.len() == found@.len()
                &&& forall|i: int|
                    0 <= i < found@.len() ==> {
                        &&& (#[trigger] reply.body@[i]).data == found@[i]
                        &&& reply.body@[i].links@ == listed_event_links(
                            base_url@,
                            *params,
                            found@[i],
                        )
                    }
            },
            Err(e) => r == Err::<Reply<Vec<Response<Event>>>, EventRepoError>(e),
        },
{
    match outcome {
        Ok(found) => {
            let body = if params.has_filters() {
                build_filtered_event(found, params, base_url)
            } else {
                build_simple_events(found, base_url)
            };
            Ok(Reply { status: OK, body })
        },
        Err(e) => Err(e),
    }
}

/// The reply to a read of one event: the event in its envelope; the store's
/// error as it is.
pub fn get_event(
    outcome: Result<Event, EventRepoError>,
    base_url: &str,
) -> (r: Result<Reply<Response<Event>>, EventRepoError>)
    ensures
        match outcome {
            Ok(found) => {
                &&& r matches Ok(reply)
                &&& reply.status == OK
                &&& reply.body.data == found
                &&& reply.body.links@ == simple_event_links(base_url@, found.id as int)
            },
            Err(e) => r == Err::<Reply<Response<Event>>, EventRepoError>(e),
        },
{
    match outcome {
        Ok(found) => Ok(Reply { status: OK, body: build_simple_event(found, base_url) }),
        Err(e) => Err(e),
    }
}

/// The reply to a change of one event: the event as stored, in its envelope;
/// the store's error as it is.
pub fn update_event(
    outcome: Result<Event, EventRepoError>,
    base_url: &str,
) -> (r: Result<Reply<Response<Event>>, EventRepoError>)
    ensures
        match outcome {
            Ok(found) => {
                &&& r matches Ok(reply)
                &&& reply.status == OK
                &&& reply.body.data == found
                &&& reply.body.links@ == simple_event_links(base_url@, found.id as int)
            },
            Err(e) => r == Err::<Reply<Response<Event>>, EventRepoError>(e),
        },
{
    match outcome {
        Ok(found) => Ok(Reply { status: OK, body: build_simple_event(found, base_url) }),
        Err(e) => Err(e),
    }
}

/// The reply to a creation: the event as stored, in its envelope, with the
/// status of a creation; the store's error as it is.
pub fn create_event(
    outcome: Result<Event, EventRepoError>,
    base_url: &str,
) -> (r: Result<Reply<Response<Event>>, EventRepoError>)
    ensures
        match outcome {
            Ok(found) => {
                &&& r matches Ok(reply)
                &&& reply.status == CREATED
                &&& reply.body.data == found
                &&& reply.body.links@ == simple_event_links(base_url@, found.id as int)
            },
            Err(e) => r == Err::<Reply<Response<Event>>, EventRepoError>(e),
        },
{
    match outcome {
        Ok(found) => Ok(Reply { status: CREATED, body: build_simple_event(found, base_url) }),
        Err(e) => Err(e),
    }
}

/// The reply to a removal: no content; the store's error as it is.
pub fn delete_event(outcome: Result<(), EventRepoError>) -> (r: Result<Reply<()>, EventRepoError>)
    ensures
        match outcome {
            Ok(_) => r matches Ok(reply) && reply.status == NO_CONTENT,
            Err(e) => r == Err::<Reply<()>, EventRepoError>(e),
        },
{
    match outcome {
        Ok(_) => Ok(Reply { status: NO_CONTENT, body: () }),
        Err(e) => Err(e),
    }
}

} // verus!
