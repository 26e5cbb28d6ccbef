//! Why reading, decrypting or editing a vault failed.

use vstd::prelude::*;

verus! {

/// The category that an error falls in, as `std::io::ErrorKind` names it.
#[derive(Debug, Clone, Copy, PartialEq, Eq, Structural)]
pub enum ErrorKind {
    InvalidData,
    NotFound,
    Other,
}

/// Every way in which the library refuses bytes, a password or a request.
#[derive(Debug, Clone, Copy, PartialEq, Eq, Structural)]
pub enum KdbError {
    /// A header is not exactly `FileHeader::SIZE` bytes long.
    InvalidHeaderSize,
    /// A header does not start with the magic bytes.
    InvalidMagic,
    /// A header carries another major version.
    InvalidVersion,
    /// A header carries flags that this version does not know.
    UnknownFlags,
    /// Fewer than six bytes are left for a record.
    RecordTooSmall,
    /// A record's type code is none of the known ones.
    UnknownRecordType,
    /// A record claims a value longer than `MAX_RECORD_SIZE`.
    RecordTooLarge,
    /// A record claims more value bytes than remain.
    TruncatedRecord,
    /// An entry has no UUID record.
    MissingUuid,
    /// An entry's UUID record is not sixteen bytes long.
    InvalidUuid,
    /// A vault is shorter than its entry count.
    VaultTooSmall,
    /// A vault ends where an entry size should stand.
    MissingEntrySize,
    /// A vault ends inside an entry.
    InvalidEntrySize,
    /// A vault file is shorter than its header.
    VaultFileTooSmall,
    /// The cipher refused to encrypt the vault.
    EncryptionFailed,
    /// The cipher refused the ciphertext: wrong password or altered bytes.
    DecryptionFailed,
    /// No entry carries the UUID asked for.
    EntryNotFound,
}

/// The message that describes an error.
pub open spec fn error_message(e: KdbError) -> Seq<char> {
    match e {
        KdbError::InvalidHeaderSize => "invalid header size"@,
        KdbError::InvalidMagic => "invalid magic"@,
        KdbError::InvalidVersion => "invalid version"@,
        KdbError::UnknownFlags => "unknown flags"@,
        KdbError::RecordTooSmall => "TLV record too small."@,
        KdbError::UnknownRecordType => "Unknown record type."@,
        KdbError::RecordTooLarge => "Record is too large."@,
        KdbError::TruncatedRecord => "truncated TLV record."@,
        KdbError::MissingUuid => "entry has no UUID."@,
        KdbError::InvalidUuid => "invalid UUID."@,
        KdbError::VaultTooSmall => "vault too small"@,
        KdbError::MissingEntrySize => "missing entry size"@,
        KdbError::InvalidEntrySize => "invalid entry size"@,
        KdbError::VaultFileTooSmall => "vault file is too small."@,
        KdbError::EncryptionFailed => "failed to encrypt the vault."@,
        KdbError::DecryptionFailed => "failed to decrypt vault."@,
        KdbError::EntryNotFound => "entry not found."@,
    }
}

impl KdbError {
    /// The category of this error.
    pub fn kind(&self) -> (k: ErrorKind)
        ensures
            k == (match *self {
                KdbError::EncryptionFailed => ErrorKind::Other,
                KdbError::EntryNotFound => ErrorKind::NotFound,
                _ => ErrorKind::InvalidData,
            }),
    {
        match self {
            KdbError::EncryptionFailed => ErrorKind::Other,
            KdbError::EntryNotFound => ErrorKind::NotFound,
            _ => ErrorKind::InvalidData,
        }
    }

    /// The message that describes this error.
    pub fn message(&self) -> (m: &'static str)
        ensures
            m@ == error_message(*self),
    {
        match self {
            KdbError::InvalidHeaderSize => "invalid header size",
            KdbError::InvalidMagic => "invalid magic",
            KdbError::InvalidVersion => "invalid version",
            KdbError::UnknownFlags => "unknown flags",
            KdbError::RecordTooSmall => "TLV record too small.",
            KdbError::UnknownRecordType => "Unknown record type.",
            KdbError::RecordTooLarge => "Record is too large.",
            KdbError::TruncatedRecord => "truncated TLV record.",
            KdbError::MissingUuid => "entry has no UUID.",
            KdbError::InvalidUuid => "invalid UUID.",
            KdbError::VaultTooSmall => "vault too small",
            KdbError::MissingEntrySize => "missing entry size",
            KdbError::InvalidEntrySize => "invalid entry size",
            KdbError::VaultFileTooSmall => "vault file is too small.",
            KdbError::EncryptionFailed => "failed to encrypt the vault.",
            KdbError::DecryptionFailed => "failed to decrypt vault.",
            KdbError::EntryNotFound => "entry not found.",
        }
    }
}

} // verus!
