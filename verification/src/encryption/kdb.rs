//! The header of the second file format, seventy-eight bytes, integers
//! little-endian: magic `KDPR`, major and minor version, flags, the three
//! Argon2 costs, a 32-byte salt, a 12-byte header nonce and a 12-byte data
//! nonce.

use vstd::prelude::*;
use crate::codec::{le_u16, le_u32, push_le_u16, push_le_u32};

verus! {

/// The magic bytes `KDPR` of this format.
pub open spec fn kdb_magic() -> Seq<u8> {
    seq![0x4Bu8, 0x44u8, 0x50u8, 0x52u8]
}

/// The fields of a header of this format, as values.
pub struct KdbHeaderView {
    pub magic: Seq<u8>,
    pub version_major: u16,
    pub version_minor: u16,
    pub flags: u16,
    pub argon_memory: u32,
    pub argon_iterations: u32,
    pub argon_parallelism: u32,
    pub salt: Seq<u8>,
    pub header_nonce: Seq<u8>,
    pub data_nonce: Seq<u8>,
}

/// The seventy-eight bytes of a header of this format.
pub open spec fn kdb_header_bytes(h: KdbHeaderView) -> Seq<u8> {
    h.magic + le_u16(h.version_major) + le_u16(h.version_minor) + le_u16(h.flags) + le_u32(
        h.argon_memory,
    ) + le_u32(h.argon_iterations) + le_u32(h.argon_parallelism) + h.salt + h.header_nonce
        + h.data_nonce
}

/// A header of the second file format.
#[derive(Debug)]
pub struct FileHeader {
    magic: [u8; 4],
    version_major: u16,
    version_minor: u16,
    flags: u16,
    argon_memory: u32,
    argon_iterations: u32,
    argon_parallelism: u32,
    salt: [u8; 32],
    header_nonce: [u8; 12],
    data_nonce: [u8; 12],
}

impl View for FileHeader {
    type V = KdbHeaderView;

    closed spec fn view(&self) -> KdbHeaderView {
        KdbHeaderView {
            magic: self.magic@,
            version_major: self.version_major,
            version_minor: self.version_minor,
            flags: self.flags,
            argon_memory: self.argon_memory,
            argon_iterations: self.argon_iterations,
            argon_parallelism: self.argon_parallelism,
            salt: self.salt@,
            header_nonce: self.header_nonce@,
            data_nonce: self.data_nonce@,
        }
    }
}

impl FileHeader {
    /// The length of a header of this format in bytes.
    pub const SIZE: usize = 78;

    /// A header of version 1.0 with the default Argon2 parameters (256 MiB,
    /// three passes, two lanes), no flags, and an all-zero salt and nonces.
    pub fn new() -> (h: Self)
        ensures
            h@ == (KdbHeaderView {
                magic: kdb_magic(),
                version_major: 1,
                version_minor: 0,
                flags: 0,
                argon_memory: 262144,
                argon_iterations: 3,
                argon_parallelism: 2,
                salt: Seq::new(32, |i: int| 0u8),
                header_nonce: Seq::new(12, |i: int| 0u8),
                data_nonce: Seq::new(12, |i: int| 0u8),
            }),
    {
        let h = Self {
            magic: [0x4B, 0x44, 0x50, 0x52],
            version_major: 1,
            version_minor: 0,
            flags: 0,
            argon_memory: 262144,
            argon_iterations: 3,
            argon_parallelism: 2,
            salt: [0u8; 32],
            header_nonce: [0u8; 12],
            data_nonce: [0u8; 12],
        };
        assert(h@.magic =~= kdb_magic());
        assert(h@.salt =~= Seq::new(32, |i: int| 0u8));
        assert(h@.header_nonce =~= Seq::new(12, |i: int| 0u8));
        assert(h@.data_nonce =~= Seq::new(12, |i: int| 0u8));
        h
    }

    /// The seventy-eight bytes of this header.
    pub fn serialize(&self) -> (out: [u8; 78])
        ensures
            out@ == kdb_header_bytes(self@),
    {
        let mut buffer: Vec<u8> = Vec::new();
        buffer.extend_from_slice(self.magic.as_slice());
        push_le_u16(&mut buffer, self.version_major);
        push_le_u16(&mut buffer, self.version_minor);
        push_le_u16(&mut buffer, self.flags);
        push_le_u32(&mut buffer, self.argon_memory);
        push_le_u32(&mut buffer, self.argon_iterations);
        push_le_u32(&mut buffer, self.argon_parallelism);
        buffer.extend_from_slice(self.salt.as_slice());
        buffer.extend_from_slice(self.header_nonce.as_slice());
        buffer.extend_from_slice(self.data_nonce.as_slice());
        assert(buffer@ =~= kdb_header_bytes(self@));
        let mut out = [0u8; 78];
        let mut i: usize = 0;
        while i < 78
            invariant
                buffer@.len() == 78,
                i <= 78,
                forall|j: int| 0 <= j < i ==> out@[j] == buffer@[j],
            decreases 78 - i,
        {
            out[i] = buffer[i];
            i = i + 1;
        }
        assert(out@ =~= buffer@);
        out
    }
}

} // verus!
