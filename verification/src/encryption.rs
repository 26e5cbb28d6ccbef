//! The encrypted vault file: its formats, its cryptography and its times.

pub mod crypto;
pub mod error;
pub mod file;
pub mod kdb;
pub mod time;
