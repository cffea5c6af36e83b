//! What the repositories decide: the statement that each operation sends to
//! the store, and what the store's answer means. Sending the statement is
//! left to the caller.

pub mod event_packets_repo;
pub mod event_repo;
pub mod join_pe_repo;
pub mod statement;
pub mod ticket_repo;
