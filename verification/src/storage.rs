//! The records of the SQLite store and the Persian time texts shown with them.

pub mod database;
pub mod time;
