//! The binary formats of records, entries, vaults and the file header, and
//! the sealed vault file built from them.

pub mod entry;
pub mod header;
pub mod record;
pub mod storage;
pub mod vault;
