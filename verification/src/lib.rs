//! A small directory-browser core: listing the direct children of a root
//! directory, filtering them by a case-sensitive substring of their display
//! text, and a state machine for the selection / reload flow of the
//! surrounding user interface.
//!
//! Directory enumeration and all widget plumbing live outside this crate;
//! the library works on the enumerated entries as plain values.

pub mod listing;
pub mod path_data;
pub mod state;
