//! The link between packets and events.

use vstd::prelude::*;

verus! {

/// One pairing of a packet with an event, with the number of seats that the
/// pairing overrides, if any. A pair occurs at most once in the store.
#[derive(Debug)]
pub struct EventPacketRelation {
    pub id_pachet: i32,
    pub id_event: i32,
    pub locuri: Option<i32>,
}

/// The payload that adds the addressed event to a packet.
#[derive(Debug)]
pub struct AddEventToPacket {
    pub id_pachet: i32,
    pub locuri: Option<i32>,
}

/// The payload that adds the addressed packet to an event.
#[derive(Debug)]
pub struct AddPacketToEvent {
    pub id_event: i32,
    pub locuri: Option<i32>,
}

} // verus!
