//! A directory bookmark list: its text file format and the state machine of
//! the interactive picker that browses, deletes and selects entries.

pub mod decimal;
pub mod picker;
pub mod store;
