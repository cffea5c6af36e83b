//! Building blocks shared by every entity family.

pub mod error;
pub mod link_map;
pub mod links;
pub mod text;
pub mod validation;
