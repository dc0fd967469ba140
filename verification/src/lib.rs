//! Navigation core of a terminal client for a remote media catalog.
//!
//! The crate holds the state of an interactive session (the query being typed,
//! the lists that were fetched, which screen is shown and which row is
//! selected) and the rules by which a key press or a finished fetch changes it.
//! It performs no input or output itself: a driver reads keys, carries out the
//! fetches the session asks for and hands their outcomes back.

pub mod action;
pub mod api;
pub mod fetch;
pub mod input;
pub mod laws;
pub mod model;
pub mod screen;
pub mod session;
pub mod text_field;
