//! Packages as the owner directory lists them.

use vstd::prelude::*;

verus! {

/// A package with a mandatory location.
#[derive(Debug)]
pub struct Package {
    pub id: i32,
    pub id_owner: i32,
    pub nume: String,
    pub locatie: String,
    pub descriere: Option<String>,
}

} // verus!
