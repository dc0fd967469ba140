//! What the catalog sends and what it is asked.

pub mod requests;
pub mod structs;
