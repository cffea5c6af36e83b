//! The entities of the API and the payloads that create, change and filter
//! them.

pub mod event;
pub mod event_packets;
pub mod join_pe;
pub mod package;
pub mod rules;
pub mod ticket;
pub mod user;
