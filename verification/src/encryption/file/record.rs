//! Type-length-value records: a two-byte type code, a four-byte value length
//! and the value, all integers little-endian.

use vstd::prelude::*;
use crate::codec::{
    le_u16, le_u32, lemma_le_u16_roundtrip, lemma_le_u32_roundtrip, lemma_u16_at_encodes,
    lemma_u32_at_encodes, push_le_u16, push_le_u32, read_u16, read_u32, u16_at, u32_at,
};
use vstd::slice::{slice_subrange, slice_to_vec};
use crate::encryption::error::KdbError;

verus! {

/// The largest value, in bytes, that a record may carry.
pub const MAX_RECORD_SIZE: usize = 2097152;

/// What a record's value stands for.
#[derive(Debug, Clone, Copy, PartialEq, Eq, Structural)]
pub enum RecordType {
    Title,
    Username,
    Password,
    Url,
    Notes,
    Uuid,
    Created,
    Modified,
}

impl RecordType {
    /// The type code written for this record type.
    pub open spec fn spec_code(self) -> u16 {
        match self {
            RecordType::Title => 1,
            RecordType::Username => 2,
            RecordType::Password => 3,
            RecordType::Url => 4,
            RecordType::Notes => 5,
            RecordType::Uuid => 6,
            RecordType::Created => 7,
            RecordType::Modified => 8,
        }
    }

    /// The record type that a type code stands for, if any.
    pub open spec fn spec_from_code(c: u16) -> Option<RecordType> {
        if c == 1 { Some(RecordType::Title) }
        else if c == 2 { Some(RecordType::Username) }
        else if c == 3 { Some(RecordType::Password) }
        else if c == 4 { Some(RecordType::Url) }
        else if c == 5 { Some(RecordType::Notes) }
        else if c == 6 { Some(RecordType::Uuid) }
        else if c == 7 { Some(RecordType::Created) }
        else if c == 8 { Some(RecordType::Modified) }
        else { None }
    }

    /// The type code written for this record type.
    pub fn code(&self) -> (c: u16)
        ensures
            c == self.spec_code(),
    {
        match self {
            RecordType::Title => 1,
            RecordType::Username => 2,
            RecordType::Password => 3,
            RecordType::Url => 4,
            RecordType::Notes => 5,
            RecordType::Uuid => 6,
            RecordType::Created => 7,
            RecordType::Modified => 8,
        }
    }

    /// The record type that a type code stands for, if any.
    pub fn from_code(c: u16) -> (t: Option<RecordType>)
        ensures
            t == Self::spec_from_code(c),
    {
        match c {
            1 => Some(RecordType::Title),
            2 => Some(RecordType::Username),
            3 => Some(RecordType::Password),
            4 => Some(RecordType::Url),
            5 => Some(RecordType::Notes),
            6 => Some(RecordType::Uuid),
            7 => Some(RecordType::Created),
            8 => Some(RecordType::Modified),
            _ => None,
        }
    }
}

/// Reading back a type's code gives the type.
pub proof fn lemma_code_roundtrip(t: RecordType)
    ensures
        RecordType::spec_from_code(t.spec_code()) == Some(t),
{
}

/// A record: its type and its value.
pub type RecordView = (RecordType, Seq<u8>);

/// One typed value of an entry.
#[derive(Debug, Clone)]
pub struct TlvRecord {
    pub record_type: RecordType,
    pub value: Vec<u8>,
}

impl View for TlvRecord {
    type V = RecordView;

    open spec fn view(&self) -> RecordView {
        (self.record_type, self.value@)
    }
}

/// The bytes of a record: type code, value length (as the low 32 bits of
/// the length), value.
pub open spec fn record_bytes(r: RecordView) -> Seq<u8> {
    le_u16(r.0.spec_code()) + le_u32(r.1.len() as u32) + r.1
}

/// Whether a record can be written so that it reads back: its value is at
/// most `MAX_RECORD_SIZE` bytes.
pub open spec fn record_fits(r: RecordView) -> bool {
    r.1.len() <= MAX_RECORD_SIZE
}

/// What reading one record from the start of `b` gives: the record and the
/// number of bytes it takes, or why `b` holds none.
pub open spec fn parse_record(b: Seq<u8>) -> Result<(RecordView, nat), KdbError> {
    if b.len() < 6 {
        Err(KdbError::RecordTooSmall)
    } else {
        match RecordType::spec_from_code(u16_at(b, 0)) {
            None => Err(KdbError::UnknownRecordType),
            Some(t) => {
                let len = u32_at(b, 2);
                if len > MAX_RECORD_SIZE {
                    Err(KdbError::RecordTooLarge)
                } else if b.len() < 6 + len {
                    Err(KdbError::TruncatedRecord)
                } else {
                    Ok(((t, b.subrange(6, 6 + len)), (6 + len) as nat))
                }
            },
        }
    }
}

/// A record that fits reads back from its bytes, whatever follows them.
pub proof fn lemma_record_roundtrip(r: RecordView, rest: Seq<u8>)
    requires
        record_fits(r),
    ensures
        parse_record(record_bytes(r) + rest) == Ok::<(RecordView, nat), KdbError>((r, (6 + r.1.len()) as nat)),
{
    let b = record_bytes(r) + rest;
    let hdr = le_u16(r.0.spec_code()) + le_u32(r.1.len() as u32);
    lemma_le_u16_roundtrip(r.0.spec_code());
    lemma_le_u32_roundtrip(r.1.len() as u32);
    assert(b.subrange(0, 2) =~= le_u16(r.0.spec_code()));
    assert(b.subrange(2, 6) =~= le_u32(r.1.len() as u32));
    assert(u16_at(b, 0) == u16_at(le_u16(r.0.spec_code()), 0));
    assert(u32_at(b, 2) == u32_at(le_u32(r.1.len() as u32), 0));
    assert((r.1.len() as u32) as nat == r.1.len());
    assert(b.subrange(6, 6 + r.1.len() as int) =~= r.1);
}

/// What reads as a record was written as that record.
pub proof fn lemma_record_parse_serialize(b: Seq<u8>)
    requires
        parse_record(b) is Ok,
    ensures
        ({
            let (r, n) = parse_record(b)->Ok_0;
            &&& record_fits(r)
            &&& n == 6 + r.1.len()
            &&& n <= b.len()
            &&& record_bytes(r) == b.subrange(0, n as int)
        }),
{
    let (r, n) = parse_record(b)->Ok_0;
    lemma_u16_at_encodes(b, 0);
    lemma_u32_at_encodes(b, 2);
    let t = RecordType::spec_from_code(u16_at(b, 0))->Some_0;
    assert(t.spec_code() == u16_at(b, 0));
    assert(record_bytes(r) =~= b.subrange(0, n as int));
}

/// The record and length that a read gave, as values.
pub open spec fn parsed_view(res: Result<(TlvRecord, usize), KdbError>) -> Result<
    (RecordView, nat),
    KdbError,
> {
    match res {
        Ok((r, n)) => Ok((r@, n as nat)),
        Err(e) => Err(e),
    }
}

impl TlvRecord {
    /// A record of type `record_type` with value `value`.
    pub fn new(record_type: RecordType, value: Vec<u8>) -> (r: Self)
        ensures
            r@ == (record_type, value@),
    {
        Self { record_type, value }
    }

    /// The bytes of this record.
    pub fn serialize(&self) -> (out: Vec<u8>)
        ensures
            out@ == record_bytes(self@),
    {
        let mut buffer: Vec<u8> = Vec::new();
        push_le_u16(&mut buffer, self.record_type.code());
        push_le_u32(&mut buffer, self.value.len() as u32);
        buffer.extend_from_slice(self.value.as_slice());
        assert(buffer@ =~= record_bytes(self@));
        buffer
    }

    /// Reads one record from the start of `bytes`; gives the record and the
    /// number of bytes it takes.
    pub fn deserialize(bytes: &[u8]) -> (res: Result<(Self, usize), KdbError>)
        ensures
            parsed_view(res) == parse_record(bytes@),
    {
        let res = Self::deserialize_at(bytes, 0);
        assert(bytes@.subrange(0, bytes@.len() as int) =~= bytes@);
        res
    }

    /// Reads one record from `bytes` at `offset`.
    pub fn deserialize_at(bytes: &[u8], offset: usize) -> (res: Result<(Self, usize), KdbError>)
        requires
            offset <= bytes@.len(),
        ensures
            parsed_view(res) == parse_record(bytes@.subrange(offset as int, bytes@.len() as int)),
    {
        let ghost b = bytes@.subrange(offset as int, bytes@.len() as int);
        let avail = bytes.len() - offset;
        if avail < 6 {
            return Err(KdbError::RecordTooSmall);
        }
        let code = read_u16(bytes, offset);
        assert(code == u16_at(b, 0));
        let record_type = match RecordType::from_code(code) {
            Some(t) => t,
            None => {
                return Err(KdbError::UnknownRecordType);
            },
        };
        let length = read_u32(bytes, offset + 2);
        assert(length == u32_at(b, 2));
        if length as usize > MAX_RECORD_SIZE {
            return Err(KdbError::RecordTooLarge);
        }
        let length = length as usize;
        if avail < 6 + length {
            return Err(KdbError::TruncatedRecord);
        }
        let start = offset + 6;
        let value = slice_to_vec(slice_subrange(bytes, start, start + length));
        assert(value@ =~= b.subrange(6, 6 + length));
        Ok((Self { record_type, value }, 6 + length))
    }
}

} // verus!
