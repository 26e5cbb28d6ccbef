//! A password vault: binary record, entry and vault formats, the encrypted
//! vault file, and the state machines of the terminal interface around it.

pub mod codec;
pub mod text;
pub mod encryption;
pub mod storage;
pub mod cli;
