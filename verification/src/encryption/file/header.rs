//! The header of a vault file, sixty-six bytes, integers little-endian:
//!
//! | offset | size | field             |
//! |--------|------|-------------------|
//! | 0      | 4    | magic `KDBR`      |
//! | 4      | 2    | version_major     |
//! | 6      | 2    | version_minor     |
//! | 8      | 2    | flags             |
//! | 10     | 4    | argon_memory      |
//! | 14     | 4    | argon_iterations  |
//! | 18     | 4    | argon_parallelism |
//! | 22     | 32   | salt              |
//! | 54     | 12   | nonce             |

use vstd::prelude::*;
use crate::codec::{
    le_u16, le_u32, lemma_le_u16_roundtrip, lemma_le_u32_roundtrip, lemma_u16_at_encodes,
    lemma_u32_at_encodes, push_le_u16, push_le_u32, read_u16, read_u32, u16_at, u32_at,
};
use crate::encryption::error::KdbError;
use crate::text::{decimal, push_char, push_decimal};

verus! {

/// The magic bytes `KDBR` that open every vault file.
pub open spec fn magic_bytes() -> Seq<u8> {
    seq![0x4Bu8, 0x44u8, 0x42u8, 0x52u8]
}

/// The major version that this library writes and reads.
pub const VERSION_MAJOR: u16 = 1;

/// The minor version that this library writes.
pub const VERSION_MINOR: u16 = 0;

/// The only flags that this version knows.
pub const FLAGS: u16 = 0;

/// The fields of a header, as values.
pub struct HeaderView {
    pub magic: Seq<u8>,
    pub version_major: u16,
    pub version_minor: u16,
    pub flags: u16,
    pub argon_memory: u32,
    pub argon_iterations: u32,
    pub argon_parallelism: u32,
    pub salt: Seq<u8>,
    pub nonce: Seq<u8>,
}

/// The header that `FileHeader::new` makes: the current version, no flags,
/// 256 MiB, three passes and two lanes, an all-zero salt and nonce.
pub open spec fn default_header() -> HeaderView {
    HeaderView {
        magic: magic_bytes(),
        version_major: VERSION_MAJOR,
        version_minor: VERSION_MINOR,
        flags: FLAGS,
        argon_memory: 262144,
        argon_iterations: 3,
        argon_parallelism: 2,
        salt: Seq::new(32, |i: int| 0u8),
        nonce: Seq::new(12, |i: int| 0u8),
    }
}

/// Whether a header is one that reads back: the magic, the major version and
/// the flags that this version knows, a 32-byte salt and a 12-byte nonce.
pub open spec fn header_wf(h: HeaderView) -> bool {
    &&& h.magic == magic_bytes()
    &&& h.version_major == VERSION_MAJOR
    &&& h.flags == FLAGS
    &&& h.salt.len() == 32
    &&& h.nonce.len() == 12
}

/// The sixty-six bytes of a header.
pub open spec fn header_bytes(h: HeaderView) -> Seq<u8> {
    h.magic + le_u16(h.version_major) + le_u16(h.version_minor) + le_u16(h.flags) + le_u32(
        h.argon_memory,
    ) + le_u32(h.argon_iterations) + le_u32(h.argon_parallelism) + h.salt + h.nonce
}

/// What reading a header from `b` gives.
pub open spec fn parse_header(b: Seq<u8>) -> Result<HeaderView, KdbError> {
    if b.len() != 66 {
        Err(KdbError::InvalidHeaderSize)
    } else if b.subrange(0, 4) != magic_bytes() {
        Err(KdbError::InvalidMagic)
    } else if u16_at(b, 4) != VERSION_MAJOR {
        Err(KdbError::InvalidVersion)
    } else if u16_at(b, 8) != FLAGS {
        Err(KdbError::UnknownFlags)
    } else {
        Ok(
            HeaderView {
                magic: b.subrange(0, 4),
                version_major: u16_at(b, 4),
                version_minor: u16_at(b, 6),
                flags: u16_at(b, 8),
                argon_memory: u32_at(b, 10),
                argon_iterations: u32_at(b, 14),
                argon_parallelism: u32_at(b, 18),
                salt: b.subrange(22, 54),
                nonce: b.subrange(54, 66),
            },
        )
    }
}

/// A header that reads back is read back from its bytes.
pub proof fn lemma_header_roundtrip(h: HeaderView)
    requires
        header_wf(h),
    ensures
        header_bytes(h).len() == 66,
        parse_header(header_bytes(h)) == Ok::<HeaderView, KdbError>(h),
{
    let b = header_bytes(h);
    lemma_le_u16_roundtrip(h.version_major);
    lemma_le_u16_roundtrip(h.version_minor);
    lemma_le_u16_roundtrip(h.flags);
    lemma_le_u32_roundtrip(h.argon_memory);
    lemma_le_u32_roundtrip(h.argon_iterations);
    lemma_le_u32_roundtrip(h.argon_parallelism);
    assert(b.subrange(0, 4) =~= h.magic);
    assert(b.subrange(4, 6) =~= le_u16(h.version_major));
    assert(b.subrange(6, 8) =~= le_u16(h.version_minor));
    assert(b.subrange(8, 10) =~= le_u16(h.flags));
    assert(b.subrange(10, 14) =~= le_u32(h.argon_memory));
    assert(b.subrange(14, 18) =~= le_u32(h.argon_iterations));
    assert(b.subrange(18, 22) =~= le_u32(h.argon_parallelism));
    assert(b.subrange(22, 54) =~= h.salt);
    assert(b.subrange(54, 66) =~= h.nonce);
    assert(u16_at(b, 4) == u16_at(b.subrange(4, 6), 0));
    assert(u16_at(b, 6) == u16_at(b.subrange(6, 8), 0));
    assert(u16_at(b, 8) == u16_at(b.subrange(8, 10), 0));
    assert(u32_at(b, 10) == u32_at(b.subrange(10, 14), 0));
    assert(u32_at(b, 14) == u32_at(b.subrange(14, 18), 0));
    assert(u32_at(b, 18) == u32_at(b.subrange(18, 22), 0));
}

/// What reads as a header is exactly the bytes of that header, and reads
/// back.
pub proof fn lemma_header_parse_serialize(b: Seq<u8>)
    requires
        parse_header(b) is Ok,
    ensures
        header_wf(parse_header(b)->Ok_0),
        header_bytes(parse_header(b)->Ok_0) == b,
{
    let h = parse_header(b)->Ok_0;
    lemma_u16_at_encodes(b, 4);
    lemma_u16_at_encodes(b, 6);
    lemma_u16_at_encodes(b, 8);
    lemma_u32_at_encodes(b, 10);
    lemma_u32_at_encodes(b, 14);
    lemma_u32_at_encodes(b, 18);
    assert(header_bytes(h) =~= b);
}

/// The header of a vault file: format version, the Argon2 parameters that
/// derive the key, the salt and the AES-GCM nonce.
#[derive(Debug)]
pub struct FileHeader {
    magic: [u8; 4],
    version_major: u16,
    version_minor: u16,
    flags: u16,
    argon_memory: u32,
    argon_iterations: u32,
    argon_parallelism: u32,
    salt: [u8; 32],
    nonce: [u8; 12],
}

impl View for FileHeader {
    type V = HeaderView;

    closed spec fn view(&self) -> HeaderView {
        HeaderView {
            magic: self.magic@,
            version_major: self.version_major,
            version_minor: self.version_minor,
            flags: self.flags,
            argon_memory: self.argon_memory,
            argon_iterations: self.argon_iterations,
            argon_parallelism: self.argon_parallelism,
            salt: self.salt@,
            nonce: self.nonce@,
        }
    }
}

fn copy_to_array<const N: usize>(v: &Vec<u8>, out: &mut [u8; N], len: usize)
    requires
        len <= v@.len(),
        len <= N,
    ensures
        forall|j: int| 0 <= j < len ==> final(out)@[j] == v@[j],
        forall|j: int| len <= j < N ==> final(out)@[j] == old(out)@[j],
{
    let mut i: usize = 0;
    while i < len
        invariant
            len <= v@.len(),
            len <= N,
            i <= len,
            forall|j: int| 0 <= j < i ==> out@[j] == v@[j],
            forall|j: int| len <= j < N ==> out@[j] == old(out)@[j],
        decreases len - i,
    {
        out[i] = v[i];
        i = i + 1;
    }
}

impl FileHeader {
    /// The length of a header in bytes.
    pub const SIZE: usize = 66;

    #[verifier::type_invariant]
    closed spec fn inv(self) -> bool {
        header_wf(self@)
    }

    /// A header of the current version with the default Argon2 parameters
    /// (256 MiB, three passes, two lanes) and an all-zero salt and nonce.
    pub fn new() -> (h: Self)
        ensures
            h@ == default_header(),
            header_wf(h@),
    {
        let h = Self {
            magic: [0x4B, 0x44, 0x42, 0x52],
            version_major: VERSION_MAJOR,
            version_minor: VERSION_MINOR,
            flags: FLAGS,
            argon_memory: 262144,
            argon_iterations: 3,
            argon_parallelism: 2,
            salt: [0u8; 32],
            nonce: [0u8; 12],
        };
        assert(h@.magic =~= magic_bytes());
        assert(h@.salt =~= Seq::new(32, |i: int| 0u8));
        assert(h@.nonce =~= Seq::new(12, |i: int| 0u8));
        h
    }

    /// The sixty-six bytes of this header.
    pub fn serialize(&self) -> (out: [u8; 66])
        ensures
            out@ == header_bytes(self@),
            header_wf(self@),
    {
        proof {
            use_type_invariant(self);
        }
        let mut buffer: Vec<u8> = Vec::new();
        buffer.extend_from_slice(self.magic.as_slice());
        push_le_u16(&mut buffer, self.version_major);
        push_le_u16(&mut buffer, self.version_minor);
        push_le_u16(&mut buffer, self.flags);
        push_le_u32(&mut buffer, self.argon_memory);
        push_le_u32(&mut buffer, self.argon_iterations);
        push_le_u32(&mut buffer, self.argon_parallelism);
        buffer.extend_from_slice(self.salt.as_slice());
        buffer.extend_from_slice(self.nonce.as_slice());
        assert(buffer@ =~= header_bytes(self@));
        let mut out = [0u8; 66];
        copy_to_array(&buffer, &mut out, 66);
        assert(out@ =~= buffer@);
        out
    }

    /// Reads a header from exactly `FileHeader::SIZE` bytes.
    pub fn deserialize(bytes: &[u8]) -> (res: Result<Self, KdbError>)
        ensures
            match res {
                Ok(h) => parse_header(bytes@) == Ok::<HeaderView, KdbError>(h@),
                Err(e) => parse_header(bytes@) == Err::<HeaderView, KdbError>(e),
            },
    {
        if bytes.len() != 66 {
            return Err(KdbError::InvalidHeaderSize);
        }
        if !(bytes[0] == 0x4B && bytes[1] == 0x44 && bytes[2] == 0x42 && bytes[3] == 0x52) {
            assert(bytes@.subrange(0, 4) != magic_bytes()) by {
                if bytes@.subrange(0, 4) == magic_bytes() {
                    assert(bytes@[0] == bytes@.subrange(0, 4)[0]);
                    assert(bytes@[1] == bytes@.subrange(0, 4)[1]);
                    assert(bytes@[2] == bytes@.subrange(0, 4)[2]);
                    assert(bytes@[3] == bytes@.subrange(0, 4)[3]);
                }
            }
            return Err(KdbError::InvalidMagic);
        }
        assert(bytes@.subrange(0, 4) =~= magic_bytes());
        let version_major = read_u16(bytes, 4);
        if version_major != VERSION_MAJOR {
            return Err(KdbError::InvalidVersion);
        }
        let version_minor = read_u16(bytes, 6);
        let flags = read_u16(bytes, 8);
        if flags != FLAGS {
            return Err(KdbError::UnknownFlags);
        }
        let argon_memory = read_u32(bytes, 10);
        let argon_iterations = read_u32(bytes, 14);
        let argon_parallelism = read_u32(bytes, 18);
        let mut salt = [0u8; 32];
        let mut i: usize = 0;
        while i < 32
            invariant
                bytes@.len() == 66,
                i <= 32,
                forall|j: int| 0 <= j < i ==> salt@[j] == bytes@[22 + j],
            decreases 32 - i,
        {
            salt[i] = bytes[22 + i];
            i = i + 1;
        }
        let mut nonce = [0u8; 12];
        let mut i: usize = 0;
        while i < 12
            invariant
                bytes@.len() == 66,
                i <= 12,
                forall|j: int| 0 <= j < i ==> nonce@[j] == bytes@[54 + j],
            decreases 12 - i,
        {
            nonce[i] = bytes[54 + i];
            i = i + 1;
        }
        assert(salt@ =~= bytes@.subrange(22, 54));
        assert(nonce@ =~= bytes@.subrange(54, 66));
        let h = Self {
            magic: [0x4B, 0x44, 0x42, 0x52],
            version_major,
            version_minor,
            flags,
            argon_memory,
            argon_iterations,
            argon_parallelism,
            salt,
            nonce,
        };
        assert(h@.magic =~= magic_bytes());
        Ok(h)
    }

    /// The version as `major:minor`.
    pub fn version(&self) -> (s: String)
        ensures
            s@ == decimal(self@.version_major as nat) + seq![':'] + decimal(
                self@.version_minor as nat,
            ),
    {
        let mut s = String::new();
        push_decimal(&mut s, self.version_major as u64);
        push_char(&mut s, ':');
        push_decimal(&mut s, self.version_minor as u64);
        assert(s@ =~= decimal(self@.version_major as nat) + seq![':'] + decimal(
            self@.version_minor as nat,
        ));
        s
    }

    /// The magic bytes.
    pub fn magic(&self) -> (m: [u8; 4])
        ensures
            m@ == self@.magic,
    {
        self.magic
    }

    /// The major version.
    pub fn version_major(&self) -> (v: u16)
        ensures
            v == self@.version_major,
    {
        self.version_major
    }

    /// The minor version.
    pub fn version_minor(&self) -> (v: u16)
        ensures
            v == self@.version_minor,
    {
        self.version_minor
    }

    /// The flags.
    pub fn flags(&self) -> (f: u16)
        ensures
            f == self@.flags,
    {
        self.flags
    }

    /// The Argon2 memory cost, in KiB.
    pub fn argon_memory(&self) -> (m: u32)
        ensures
            m == self@.argon_memory,
    {
        self.argon_memory
    }

    /// The Argon2 number of passes.
    pub fn argon_iterations(&self) -> (t: u32)
        ensures
            t == self@.argon_iterations,
    {
        self.argon_iterations
    }

    /// The Argon2 number of lanes.
    pub fn argon_parallelism(&self) -> (p: u32)
        ensures
            p == self@.argon_parallelism,
    {
        self.argon_parallelism
    }

    /// The salt of the key derivation.
    pub fn salt(&self) -> (s: &[u8; 32])
        ensures
            s@ == self@.salt,
    {
        &self.salt
    }

    /// The AES-GCM nonce.
    pub fn nonce(&self) -> (n: &[u8; 12])
        ensures
            n@ == self@.nonce,
    {
        &self.nonce
    }
}

} // verus!
