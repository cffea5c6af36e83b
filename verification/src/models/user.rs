//! Accounts and their roles.

use vstd::prelude::*;

verus! {

/// An account.
#[derive(Debug)]
pub struct User {
    pub id: i32,
    pub email: String,
    pub parola: String,
    pub rol: String,
}

/// What an account may do.
#[derive(Debug)]
pub enum Role {
    Admin,
    OwnerEvent,
    Client,
}

} // verus!
