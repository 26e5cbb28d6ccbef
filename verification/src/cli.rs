//! The terminal interface: the application over a vault, and the state
//! machines that turn keys into changes of the screens.

pub mod app;
pub mod tui;
