//! Response shaping and error mapping for an event-management HTTP API.
//!
//! The library turns stored entities into hypermedia envelopes, translates
//! storage failures into per-family error kinds and those into HTTP error
//! bodies, checks request payloads, and prepares the statements that the
//! repositories send to the store.

pub mod handlers;
pub mod laws;
pub mod links;
pub mod models;
pub mod repositories;
pub mod shared;
