//! The screens of the terminal interface as state machines: keys become
//! actions, actions change the state, and a copy request leaves the machine
//! for the clipboard.

pub mod context;
pub mod context_store;
pub mod entries;
pub mod entries_state;
pub mod entries_view;
pub mod entry;
pub mod entry_store;
pub mod event;
pub mod form;
pub mod notification;
pub mod router;
pub mod state;
