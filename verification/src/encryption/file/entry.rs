//! An entry: a sequence of records, written one after the other. Every entry
//! that `Entry::new` makes starts with a random UUID record.

use vstd::prelude::*;
use vstd::slice::slice_to_vec;
use vstd::string::StringSliceAdditionalSpecFns;
use crate::encryption::error::KdbError;
use crate::encryption::file::record::{
    lemma_record_parse_serialize, lemma_record_roundtrip, parse_record, parsed_view,
    record_bytes, record_fits, RecordType, RecordView, TlvRecord,
};

verus! {

/// The sixteen bytes of an entry's UUID.
#[derive(Debug, Clone, Copy, Eq)]
pub struct EntryUuid {
    bytes: [u8; 16],
}

impl PartialEq for EntryUuid {
    fn eq(&self, other: &Self) -> (same: bool) {
        let mut i: usize = 0;
        while i < 16
            invariant
                i <= 16,
                forall|j: int| 0 <= j < i ==> self.bytes@[j] == other.bytes@[j],
            decreases 16 - i,
        {
            if self.bytes[i] != other.bytes[i] {
                return false;
            }
            i = i + 1;
        }
        assert(self.bytes@ =~= other.bytes@);
        true
    }
}

impl vstd::std_specs::cmp::PartialEqSpecImpl for EntryUuid {
    open spec fn obeys_eq_spec() -> bool {
        true
    }

    open spec fn eq_spec(&self, other: &Self) -> bool {
        self@ == other@
    }
}

impl View for EntryUuid {
    type V = Seq<u8>;

    closed spec fn view(&self) -> Seq<u8> {
        self.bytes@
    }
}

impl EntryUuid {
    /// The bytes of this UUID.
    pub fn as_bytes(&self) -> (b: &[u8; 16])
        ensures
            b@ == self@,
    {
        &self.bytes
    }
}

/// Calls `uuid::Uuid::new_v4`: 128 random bits whose version nibble is set
/// to 4 and whose variant bits are set to `10`; gives its sixteen bytes. Which
/// bits come out is left to chance.
#[verifier::external_body]
fn new_v4_bytes() -> (b: [u8; 16])
    ensures
        b@[6] / 16 == 4,
        b@[8] / 64 == 2,
{
    *uuid::Uuid::new_v4().as_bytes()
}

/// Whether `b` are the bytes of a random (version 4, RFC 4122 variant) UUID.
pub open spec fn is_random_uuid(b: Seq<u8>) -> bool {
    &&& b.len() == 16
    &&& b[6] / 16 == 4
    &&& b[8] / 64 == 2
}

/// The records of an entry, one after the other.
#[verifier::opaque]
pub open spec fn entry_bytes(rs: Seq<RecordView>) -> Seq<u8>
    decreases rs.len(),
{
    if rs.len() == 0 {
        Seq::empty()
    } else {
        record_bytes(rs[0]) + entry_bytes(rs.drop_first())
    }
}

/// Whether every record of an entry fits (see `record_fits`).
pub open spec fn entry_fits(rs: Seq<RecordView>) -> bool {
    forall|i: int| 0 <= i < rs.len() ==> record_fits(#[trigger] rs[i])
}

/// What reading all of `b` as records gives.
#[verifier::opaque]
pub open spec fn parse_records(b: Seq<u8>) -> Result<Seq<RecordView>, KdbError>
    decreases b.len(),
{
    if b.len() == 0 {
        Ok(Seq::empty())
    } else {
        match parse_record(b) {
            Err(e) => Err(e),
            Ok((r, n)) => if 0 < n <= b.len() {
                match parse_records(b.subrange(n as int, b.len() as int)) {
                    Ok(rest) => Ok(seq![r] + rest),
                    Err(e) => Err(e),
                }
            } else {
                Err(KdbError::TruncatedRecord)
            },
        }
    }
}

/// No bytes read as no records.
pub proof fn lemma_parse_records_empty(b: Seq<u8>)
    requires
        b.len() == 0,
    ensures
        parse_records(b) == Ok::<Seq<RecordView>, KdbError>(Seq::empty()),
{
    reveal(parse_records);
}

/// Reading records reads the first one, then the rest.
pub proof fn lemma_parse_records_step(b: Seq<u8>)
    requires
        b.len() > 0,
    ensures
        parse_records(b) == (match parse_record(b) {
            Err(e) => Err(e),
            Ok((r, n)) => if 0 < n <= b.len() {
                match parse_records(b.subrange(n as int, b.len() as int)) {
                    Ok(rest) => Ok(seq![r] + rest),
                    Err(e) => Err(e),
                }
            } else {
                Err(KdbError::TruncatedRecord)
            },
        }),
{
    reveal(parse_records);
}

/// An entry's bytes are its first record's, then the rest's.
pub proof fn lemma_entry_bytes_step(rs: Seq<RecordView>)
    ensures
        rs.len() == 0 ==> entry_bytes(rs) == Seq::<u8>::empty(),
        rs.len() > 0 ==> entry_bytes(rs) == record_bytes(rs[0]) + entry_bytes(rs.drop_first()),
{
    reveal(entry_bytes);
}

/// Whether `i` is the first position of a record of type `t`.
pub open spec fn is_first_of_type(rs: Seq<RecordView>, t: RecordType, i: int) -> bool {
    &&& 0 <= i < rs.len()
    &&& rs[i].0 == t
    &&& forall|j: int| 0 <= j < i ==> rs[j].0 != t
}

/// The position of the first record of type `t`, if any.
pub open spec fn first_of_type(rs: Seq<RecordView>, t: RecordType) -> Option<int> {
    if exists|i: int| is_first_of_type(rs, t, i) {
        Some(choose|i: int| is_first_of_type(rs, t, i))
    } else {
        None
    }
}

/// The value of the first record of type `t`, if any.
pub open spec fn field_value(rs: Seq<RecordView>, t: RecordType) -> Option<Seq<u8>> {
    match first_of_type(rs, t) {
        Some(i) => Some(rs[i].1),
        None => None,
    }
}

/// The records after the value of the first record of type `t` becomes `v`;
/// a record is appended where there is none of that type.
pub open spec fn with_field(rs: Seq<RecordView>, t: RecordType, v: Seq<u8>) -> Seq<RecordView> {
    match first_of_type(rs, t) {
        Some(i) => rs.update(i, (t, v)),
        None => rs.push((t, v)),
    }
}

/// The UUID of an entry: the value of its first UUID record, which must be
/// sixteen bytes long.
pub open spec fn entry_uuid(rs: Seq<RecordView>) -> Result<Seq<u8>, KdbError> {
    match field_value(rs, RecordType::Uuid) {
        None => Err(KdbError::MissingUuid),
        Some(v) => if v.len() == 16 {
            Ok(v)
        } else {
            Err(KdbError::InvalidUuid)
        },
    }
}

pub proof fn lemma_first_of_type_is(rs: Seq<RecordView>, t: RecordType, i: int)
    requires
        is_first_of_type(rs, t, i),
    ensures
        first_of_type(rs, t) == Some(i),
{
    let k = choose|k: int| is_first_of_type(rs, t, k);
    assert(is_first_of_type(rs, t, k));
    if k < i {
        assert(rs[k].0 != t);
    } else if i < k {
        assert(rs[i].0 != t);
    }
}

pub proof fn lemma_first_of_type_none(rs: Seq<RecordView>, t: RecordType)
    requires
        forall|j: int| 0 <= j < rs.len() ==> rs[j].0 != t,
    ensures
        first_of_type(rs, t) is None,
{
    if exists|i: int| is_first_of_type(rs, t, i) {
        let k = choose|k: int| is_first_of_type(rs, t, k);
        assert(rs[k].0 != t);
    }
}

/// Setting a field and reading it back gives what was set: the first record
/// of that type then holds the new value.
pub proof fn lemma_with_field_reads_back(rs: Seq<RecordView>, t: RecordType, v: Seq<u8>)
    ensures
        field_value(with_field(rs, t, v), t) == Some(v),
{
    let n = with_field(rs, t, v);
    match first_of_type(rs, t) {
        Some(i) => {
            lemma_first_of_type_some(rs, t);
            assert(is_first_of_type(n, t, i));
            lemma_first_of_type_is(n, t, i);
        },
        None => {
            lemma_first_of_type_none_means(rs, t);
            assert(is_first_of_type(n, t, rs.len() as int));
            lemma_first_of_type_is(n, t, rs.len() as int);
        },
    }
}

/// Setting a field leaves the fields of every other type as they were.
pub proof fn lemma_with_field_keeps_others(
    rs: Seq<RecordView>,
    t: RecordType,
    v: Seq<u8>,
    other: RecordType,
)
    requires
        other != t,
    ensures
        field_value(with_field(rs, t, v), other) == field_value(rs, other),
{
    let n = with_field(rs, t, v);
    assert forall|j: int| 0 <= j < rs.len() implies (#[trigger] n[j]).0 == other <==> rs[j].0
        == other by {
        match first_of_type(rs, t) {
            Some(i) => {
                lemma_first_of_type_some(rs, t);
            },
            None => {},
        }
    }
    match first_of_type(rs, other) {
        Some(k) => {
            lemma_first_of_type_some(rs, other);
            match first_of_type(rs, t) {
                Some(i) => {
                    lemma_first_of_type_some(rs, t);
                    assert(k != i);
                },
                None => {},
            }
            assert(n[k] == rs[k]);
            assert(is_first_of_type(n, other, k));
            lemma_first_of_type_is(n, other, k);
        },
        None => {
            lemma_first_of_type_none_means(rs, other);
            match first_of_type(rs, t) {
                Some(i) => {
                    lemma_first_of_type_some(rs, t);
                },
                None => {},
            }
            lemma_first_of_type_none(n, other);
        },
    }
}

pub proof fn lemma_first_of_type_some(rs: Seq<RecordView>, t: RecordType)
    requires
        first_of_type(rs, t) is Some,
    ensures
        is_first_of_type(rs, t, first_of_type(rs, t)->Some_0),
{
}

proof fn lemma_first_exists(rs: Seq<RecordView>, t: RecordType, j: int)
    requires
        0 <= j < rs.len(),
        rs[j].0 == t,
    ensures
        exists|k: int| is_first_of_type(rs, t, k),
    decreases j,
{
    if exists|m: int| 0 <= m < j && rs[m].0 == t {
        let m = choose|m: int| 0 <= m < j && rs[m].0 == t;
        lemma_first_exists(rs, t, m);
    } else {
        assert(is_first_of_type(rs, t, j));
    }
}

pub proof fn lemma_first_of_type_none_means(rs: Seq<RecordView>, t: RecordType)
    requires
        first_of_type(rs, t) is None,
    ensures
        forall|j: int| 0 <= j < rs.len() ==> rs[j].0 != t,
{
    assert forall|j: int| 0 <= j < rs.len() implies rs[j].0 != t by {
        if rs[j].0 == t {
            lemma_first_exists(rs, t, j);
        }
    }
}

proof fn lemma_entry_bytes_push(rs: Seq<RecordView>, r: RecordView)
    ensures
        entry_bytes(rs.push(r)) == entry_bytes(rs) + record_bytes(r),
    decreases rs.len(),
{
    let rr = rs.push(r);
    lemma_entry_bytes_step(rr);
    lemma_entry_bytes_step(rs);
    if rs.len() == 0 {
        assert(rr.drop_first() =~= Seq::<RecordView>::empty());
        lemma_entry_bytes_step(rr.drop_first());
        assert(entry_bytes(rr) =~= entry_bytes(rs) + record_bytes(r));
    } else {
        lemma_entry_bytes_push(rs.drop_first(), r);
        assert(rr.drop_first() =~= rs.drop_first().push(r));
        assert(entry_bytes(rr) =~= entry_bytes(rs) + record_bytes(r));
    }
}

/// An entry whose records fit reads back from its bytes.
pub proof fn lemma_entry_roundtrip(rs: Seq<RecordView>)
    requires
        entry_fits(rs),
    ensures
        parse_records(entry_bytes(rs)) == Ok::<Seq<RecordView>, KdbError>(rs),
    decreases rs.len(),
{
    lemma_entry_bytes_step(rs);
    if rs.len() > 0 {
        let r = rs[0];
        let rest = rs.drop_first();
        assert(record_fits(r));
        assert(entry_fits(rest)) by {
            assert forall|i: int| 0 <= i < rest.len() implies record_fits(#[trigger] rest[i]) by {
                assert(rest[i] == rs[i + 1]);
            }
        }
        lemma_entry_roundtrip(rest);
        let b = entry_bytes(rs);
        lemma_record_roundtrip(r, entry_bytes(rest));
        let n = 6 + r.1.len();
        assert(b.subrange(n as int, b.len() as int) =~= entry_bytes(rest));
        lemma_parse_records_step(b);
        assert(seq![r] + rest =~= rs);
    } else {
        lemma_parse_records_empty(entry_bytes(rs));
        assert(rs =~= Seq::<RecordView>::empty());
    }
}

/// What reads as an entry was written as that entry.
pub proof fn lemma_entry_parse_serialize(b: Seq<u8>)
    requires
        parse_records(b) is Ok,
    ensures
        entry_fits(parse_records(b)->Ok_0),
        entry_bytes(parse_records(b)->Ok_0) == b,
    decreases b.len(),
{
    let rs = parse_records(b)->Ok_0;
    if b.len() > 0 {
        lemma_parse_records_step(b);
        let pr = parse_record(b);
        let r = pr->Ok_0.0;
        let n = pr->Ok_0.1;
        lemma_record_parse_serialize(b);
        let tail = b.subrange(n as int, b.len() as int);
        let rest = parse_records(tail)->Ok_0;
        lemma_entry_parse_serialize(tail);
        assert(rs == seq![r] + rest);
        assert(rs[0] == r);
        assert(rs.drop_first() =~= rest);
        lemma_entry_bytes_step(rs);
        assert(b =~= b.subrange(0, n as int) + tail);
        assert forall|i: int| 0 <= i < rs.len() implies record_fits(#[trigger] rs[i]) by {
            if i > 0 {
                assert(rs[i] == rest[i - 1]);
            }
        }
    } else {
        lemma_parse_records_empty(b);
        assert(rs =~= Seq::<RecordView>::empty());
        lemma_entry_bytes_step(rs);
        assert(entry_bytes(rs) =~= b);
    }
}

/// The records of `rs` as values.
pub open spec fn records_view(rs: Seq<TlvRecord>) -> Seq<RecordView> {
    rs.map_values(|r: TlvRecord| r@)
}

/// One account or secret of a vault: its records, in order.
#[derive(Debug, Clone)]
pub struct Entry {
    records: Vec<TlvRecord>,
}

impl View for Entry {
    type V = Seq<RecordView>;

    closed spec fn view(&self) -> Seq<RecordView> {
        records_view(self.records@)
    }
}

impl Entry {
    /// An entry that holds one record: a fresh random UUID.
    pub fn new() -> (e: Self)
        ensures
            e@.len() == 1,
            e@[0].0 == RecordType::Uuid,
            is_random_uuid(e@[0].1),
    {
        let uuid = new_v4_bytes();
        let mut entry = Self { records: Vec::new() };
        entry.add_record(TlvRecord::new(RecordType::Uuid, slice_to_vec(uuid.as_slice())));
        assert(entry@.len() == 1);
        entry
    }

    /// The records of this entry, in order.
    pub fn records(&self) -> (rs: &[TlvRecord])
        ensures
            records_view(rs@) == self@,
    {
        self.records.as_slice()
    }

    /// Appends a record.
    pub fn add_record(&mut self, record: TlvRecord)
        ensures
            final(self)@ == old(self)@.push(record@),
    {
        self.records.push(record);
        assert(self@ =~= old(self)@.push(record@));
    }

    /// The bytes of this entry: its records, one after the other.
    pub fn serialize(&self) -> (out: Vec<u8>)
        ensures
            out@ == entry_bytes(self@),
    {
        let mut buffer: Vec<u8> = Vec::new();
        let n = self.records.len();
        let mut i: usize = 0;
        proof {
            lemma_entry_bytes_step(self@.take(0));
        }
        while i < n
            invariant
                n == self.records@.len(),
                i <= n,
                buffer@ == entry_bytes(self@.take(i as int)),
            decreases n - i,
        {
            let bytes = self.records[i].serialize();
            proof {
                lemma_entry_bytes_push(self@.take(i as int), self@[i as int]);
                assert(self@.take(i as int).push(self@[i as int]) =~= self@.take(i + 1));
            }
            buffer.extend_from_slice(bytes.as_slice());
            i = i + 1;
        }
        assert(self@.take(n as int) =~= self@);
        buffer
    }

    /// Reads all of `bytes` as the records of an entry.
    pub fn deserialize(bytes: &[u8]) -> (res: Result<Self, KdbError>)
        ensures
            match res {
                Ok(e) => parse_records(bytes@) == Ok::<Seq<RecordView>, KdbError>(e@),
                Err(err) => parse_records(bytes@) == Err::<Seq<RecordView>, KdbError>(err),
            },
    {
        assert(bytes@.subrange(0, bytes@.len() as int) =~= bytes@);
        Self::deserialize_range(bytes, 0, bytes.len())
    }

    /// Reads `bytes[start..end]` as the records of an entry.
    pub fn deserialize_range(bytes: &[u8], start: usize, end: usize) -> (res: Result<
        Self,
        KdbError,
    >)
        requires
            start <= end <= bytes@.len(),
        ensures
            match res {
                Ok(e) => parse_records(bytes@.subrange(start as int, end as int)) == Ok::<
                    Seq<RecordView>,
                    KdbError,
                >(e@),
                Err(err) => parse_records(bytes@.subrange(start as int, end as int)) == Err::<
                    Seq<RecordView>,
                    KdbError,
                >(err),
            },
    {
        let ghost whole = bytes@.subrange(start as int, end as int);
        let window = vstd::slice::slice_subrange(bytes, start, end);
        assert(window@ == whole);
        let mut records: Vec<TlvRecord> = Vec::new();
        let mut offset: usize = 0;
        let len = window.len();
        assert(whole.subrange(0, len as int) =~= whole);
        assert(records_view(records@) =~= Seq::<RecordView>::empty());
        assert(parse_records(whole) == (match parse_records(whole.subrange(0, len as int)) {
            Ok(rest) => Ok(records_view(records@) + rest),
            Err(e) => Err(e),
        })) by {
            match parse_records(whole) {
                Ok(rest) => {
                    assert(records_view(records@) + rest =~= rest);
                },
                Err(e) => {},
            }
        }
        while offset < len
            invariant
                start <= end <= bytes@.len(),
                whole == bytes@.subrange(start as int, end as int),
                len == window@.len(),
                window@ == whole,
                offset <= len,
                parse_records(whole) == (match parse_records(
                    whole.subrange(offset as int, len as int),
                ) {
                    Ok(rest) => Ok(records_view(records@) + rest),
                    Err(e) => Err(e),
                }),
            decreases len - offset,
        {
            let ghost suffix = whole.subrange(offset as int, len as int);
            let res = TlvRecord::deserialize_at(window, offset);
            match res {
                Err(e) => {
                    assert(suffix.len() > 0);
                    proof {
                        lemma_parse_records_step(suffix);
                    }
                    assert(parse_record(suffix) == Err::<(RecordView, nat), KdbError>(e));
                    assert(parse_records(suffix) == Err::<Seq<RecordView>, KdbError>(e));
                    assert(parse_records(whole) == Err::<Seq<RecordView>, KdbError>(e));
                    return Err(e);
                },
                Ok((record, used)) => {
                    assert(parsed_view(res) == parse_record(suffix));
                    proof {
                        lemma_record_parse_serialize(suffix);
                        lemma_parse_records_step(suffix);
                    }
                    let ghost old_records = records_view(records@);
                    assert(suffix.subrange(used as int, suffix.len() as int) =~= whole.subrange(
                        offset + used,
                        len as int,
                    ));
                    records.push(record);
                    assert(records_view(records@) =~= old_records.push(record@));
                    offset = offset + used;
                    assert(parse_records(whole) == (match parse_records(
                        whole.subrange(offset as int, len as int),
                    ) {
                        Ok(rest) => Ok(records_view(records@) + rest),
                        Err(e) => Err(e),
                    })) by {
                        match parse_records(whole.subrange(offset as int, len as int)) {
                            Ok(rest) => {
                                assert(old_records + (seq![record@] + rest) =~= records_view(
                                    records@,
                                ) + rest);
                            },
                            Err(e) => {},
                        }
                    }
                },
            }
        }
        assert(whole.subrange(offset as int, len as int) =~= Seq::<u8>::empty());
        proof {
            lemma_parse_records_empty(whole.subrange(offset as int, len as int));
        }
        assert(records_view(records@) + Seq::<RecordView>::empty() =~= records_view(records@));
        Ok(Self { records })
    }

    /// The position of the first record of type `t`, if any.
    fn position_of(&self, t: RecordType) -> (p: Option<usize>)
        ensures
            match p {
                Some(i) => first_of_type(self@, t) == Some(i as int),
                None => first_of_type(self@, t) is None,
            },
    {
        let n = self.records.len();
        let mut i: usize = 0;
        while i < n
            invariant
                n == self.records@.len(),
                i <= n,
                forall|j: int| 0 <= j < i ==> self@[j].0 != t,
            decreases n - i,
        {
            if self.records[i].record_type == t {
                proof {
                    lemma_first_of_type_is(self@, t, i as int);
                }
                return Some(i);
            }
            i = i + 1;
        }
        proof {
            lemma_first_of_type_none(self@, t);
        }
        None
    }

    /// The value of the first record of type `t`, if any.
    pub fn field(&self, t: RecordType) -> (v: Option<&[u8]>)
        ensures
            match v {
                Some(s) => field_value(self@, t) == Some(s@),
                None => field_value(self@, t) is None,
            },
    {
        match self.position_of(t) {
            Some(i) => Some(self.records[i].value.as_slice()),
            None => None,
        }
    }

    /// Gives the first record of type `t` the value `value`, or appends a
    /// record of that type where there is none.
    pub fn set_field(&mut self, t: RecordType, value: Vec<u8>)
        ensures
            final(self)@ == with_field(old(self)@, t, value@),
    {
        match self.position_of(t) {
            Some(i) => {
                let ghost v = value@;
                self.records.set(i, TlvRecord::new(t, value));
                assert(self@ =~= old(self)@.update(i as int, (t, v)));
            },
            None => {
                self.add_record(TlvRecord::new(t, value));
            },
        }
    }

    /// The UUID of this entry: the value of its first UUID record.
    pub fn uuid(&self) -> (res: Result<EntryUuid, KdbError>)
        ensures
            match res {
                Ok(u) => entry_uuid(self@) == Ok::<Seq<u8>, KdbError>(u@),
                Err(e) => entry_uuid(self@) == Err::<Seq<u8>, KdbError>(e),
            },
    {
        match self.field(RecordType::Uuid) {
            None => Err(KdbError::MissingUuid),
            Some(value) => {
                if value.len() != 16 {
                    return Err(KdbError::InvalidUuid);
                }
                let mut bytes = [0u8; 16];
                let mut i: usize = 0;
                while i < 16
                    invariant
                        value@.len() == 16,
                        i <= 16,
                        forall|j: int| 0 <= j < i ==> bytes@[j] == value@[j],
                    decreases 16 - i,
                {
                    bytes[i] = value[i];
                    i = i + 1;
                }
                assert(bytes@ =~= value@);
                Ok(EntryUuid { bytes })
            },
        }
    }

    /// A new entry (a fresh UUID record) followed by a title, username,
    /// password, URL and notes record, each holding the UTF-8 bytes of its
    /// text.
    pub fn from_fields(title: &str, username: &str, password: &str, url: &str, notes: &str) -> (e:
        Self)
        ensures
            e@.len() == 6,
            e@[0].0 == RecordType::Uuid,
            is_random_uuid(e@[0].1),
            e@[1] == (RecordType::Title, title.spec_bytes()),
            e@[2] == (RecordType::Username, username.spec_bytes()),
            e@[3] == (RecordType::Password, password.spec_bytes()),
            e@[4] == (RecordType::Url, url.spec_bytes()),
            e@[5] == (RecordType::Notes, notes.spec_bytes()),
    {
        let mut entry = Self::new();
        entry.add_record(TlvRecord::new(RecordType::Title, slice_to_vec(title.as_bytes())));
        entry.add_record(TlvRecord::new(RecordType::Username, slice_to_vec(username.as_bytes())));
        entry.add_record(TlvRecord::new(RecordType::Password, slice_to_vec(password.as_bytes())));
        entry.add_record(TlvRecord::new(RecordType::Url, slice_to_vec(url.as_bytes())));
        entry.add_record(TlvRecord::new(RecordType::Notes, slice_to_vec(notes.as_bytes())));
        entry
    }

    /// The value of the first title record, if any.
    pub fn title(&self) -> (v: Option<&[u8]>)
        ensures
            match v {
                Some(s) => field_value(self@, RecordType::Title) == Some(s@),
                None => field_value(self@, RecordType::Title) is None,
            },
    {
        self.field(RecordType::Title)
    }

    /// The value of the first username record, if any.
    pub fn username(&self) -> (v: Option<&[u8]>)
        ensures
            match v {
                Some(s) => field_value(self@, RecordType::Username) == Some(s@),
                None => field_value(self@, RecordType::Username) is None,
            },
    {
        self.field(RecordType::Username)
    }

    /// The value of the first password record, if any.
    pub fn password(&self) -> (v: Option<&[u8]>)
        ensures
            match v {
                Some(s) => field_value(self@, RecordType::Password) == Some(s@),
                None => field_value(self@, RecordType::Password) is None,
            },
    {
        self.field(RecordType::Password)
    }

    /// The value of the first URL record, if any.
    pub fn url(&self) -> (v: Option<&[u8]>)
        ensures
            match v {
                Some(s) => field_value(self@, RecordType::Url) == Some(s@),
                None => field_value(self@, RecordType::Url) is None,
            },
    {
        self.field(RecordType::Url)
    }

    /// The value of the first notes record, if any.
    pub fn notes(&self) -> (v: Option<&[u8]>)
        ensures
            match v {
                Some(s) => field_value(self@, RecordType::Notes) == Some(s@),
                None => field_value(self@, RecordType::Notes) is None,
            },
    {
        self.field(RecordType::Notes)
    }

    /// Sets the title to the UTF-8 bytes of `title`.
    pub fn set_title(&mut self, title: &str)
        ensures
            final(self)@ == with_field(old(self)@, RecordType::Title, title.spec_bytes()),
    {
        self.set_field(RecordType::Title, slice_to_vec(title.as_bytes()));
    }

    /// Sets the username to the UTF-8 bytes of `username`.
    pub fn set_username(&mut self, username: &str)
        ensures
            final(self)@ == with_field(old(self)@, RecordType::Username, username.spec_bytes()),
    {
        self.set_field(RecordType::Username, slice_to_vec(username.as_bytes()));
    }

    /// Sets the password to the UTF-8 bytes of `password`.
    pub fn set_password(&mut self, password: &str)
        ensures
            final(self)@ == with_field(old(self)@, RecordType::Password, password.spec_bytes()),
    {
        self.set_field(RecordType::Password, slice_to_vec(password.as_bytes()));
    }

    /// Sets the URL to the UTF-8 bytes of `url`.
    pub fn set_url(&mut self, url: &str)
        ensures
            final(self)@ == with_field(old(self)@, RecordType::Url, url.spec_bytes()),
    {
        self.set_field(RecordType::Url, slice_to_vec(url.as_bytes()));
    }

    /// Sets the notes to the UTF-8 bytes of `notes`.
    pub fn set_notes(&mut self, notes: &str)
        ensures
            final(self)@ == with_field(old(self)@, RecordType::Notes, notes.spec_bytes()),
    {
        self.set_field(RecordType::Notes, slice_to_vec(notes.as_bytes()));
    }
}

} // verus!
