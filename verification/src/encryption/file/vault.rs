//! A vault: its entry count, then each entry's size followed by the entry,
//! all integers four little-endian bytes.

use vstd::prelude::*;
use vstd::string::StringSliceAdditionalSpecFns;
use crate::codec::{
    le_u32, lemma_le_u32_roundtrip, lemma_u32_at_encodes, push_le_u32, read_u32, u32_at,
};
use crate::encryption::error::KdbError;
use crate::encryption::file::entry::{
    entry_bytes, entry_fits, entry_uuid, field_value, is_random_uuid,
    lemma_entry_parse_serialize, lemma_entry_roundtrip, lemma_with_field_keeps_others,
    lemma_with_field_reads_back, parse_records, with_field, Entry, EntryUuid,
};
use crate::encryption::file::record::{RecordType, RecordView};

verus! {

/// An entry: its records.
pub type EntryView = Seq<RecordView>;

/// The bytes of one entry inside a vault: its size (the low 32 bits of its
/// length), then the entry.
pub open spec fn entry_chunk(e: EntryView) -> Seq<u8> {
    le_u32(entry_bytes(e).len() as u32) + entry_bytes(e)
}

/// The entries of a vault, one after the other.
#[verifier::opaque]
pub open spec fn entries_bytes(v: Seq<EntryView>) -> Seq<u8>
    decreases v.len(),
{
    if v.len() == 0 {
        Seq::empty()
    } else {
        entry_chunk(v[0]) + entries_bytes(v.drop_first())
    }
}

/// A vault's entry bytes are its first entry's chunk, then the rest's.
pub proof fn lemma_entries_bytes_step(v: Seq<EntryView>)
    ensures
        v.len() == 0 ==> entries_bytes(v) == Seq::<u8>::empty(),
        v.len() > 0 ==> entries_bytes(v) == entry_chunk(v[0]) + entries_bytes(v.drop_first()),
{
    reveal(entries_bytes);
}

/// The bytes of a vault: its entry count (the low 32 bits of it), then its
/// entries.
pub open spec fn vault_bytes(v: Seq<EntryView>) -> Seq<u8> {
    le_u32(v.len() as u32) + entries_bytes(v)
}

/// Whether a vault can be written so that it reads back: at most `u32::MAX`
/// entries, each of at most `u32::MAX` bytes, each of whose records fits.
pub open spec fn vault_fits(v: Seq<EntryView>) -> bool {
    &&& v.len() <= u32::MAX
    &&& forall|i: int| 0 <= i < v.len() ==> entry_fits(#[trigger] v[i])
    &&& forall|i: int| 0 <= i < v.len() ==> #[trigger] entry_bytes(v[i]).len() <= u32::MAX
}

/// What reading `count` entries of `b`, from `off` on, gives.
#[verifier::opaque]
pub open spec fn parse_entries(b: Seq<u8>, off: int, count: nat) -> Result<
    Seq<EntryView>,
    KdbError,
>
    decreases count,
{
    if count == 0 {
        Ok(Seq::empty())
    } else if b.len() < off + 4 {
        Err(KdbError::MissingEntrySize)
    } else {
        let size = u32_at(b, off);
        if b.len() < off + 4 + size {
            Err(KdbError::InvalidEntrySize)
        } else {
            match parse_records(b.subrange(off + 4, off + 4 + size)) {
                Err(e) => Err(e),
                Ok(e) => match parse_entries(b, off + 4 + size, (count - 1) as nat) {
                    Ok(rest) => Ok(seq![e] + rest),
                    Err(err) => Err(err),
                },
            }
        }
    }
}

/// Reading entries reads the first one, then the rest.
pub proof fn lemma_parse_entries_step(b: Seq<u8>, off: int, count: nat)
    ensures
        parse_entries(b, off, count) == (if count == 0 {
            Ok(Seq::empty())
        } else if b.len() < off + 4 {
            Err(KdbError::MissingEntrySize)
        } else {
            let size = u32_at(b, off);
            if b.len() < off + 4 + size {
                Err(KdbError::InvalidEntrySize)
            } else {
                match parse_records(b.subrange(off + 4, off + 4 + size)) {
                    Err(e) => Err(e),
                    Ok(e) => match parse_entries(b, off + 4 + size, (count - 1) as nat) {
                        Ok(rest) => Ok(seq![e] + rest),
                        Err(err) => Err(err),
                    },
                }
            }
        }),
{
    reveal(parse_entries);
}

/// What reading a vault from `b` gives. Bytes after the last entry are not
/// read.
pub open spec fn parse_vault(b: Seq<u8>) -> Result<Seq<EntryView>, KdbError> {
    if b.len() < 4 {
        Err(KdbError::VaultTooSmall)
    } else {
        parse_entries(b, 4, u32_at(b, 0) as nat)
    }
}

proof fn lemma_entries_bytes_push(v: Seq<EntryView>, e: EntryView)
    ensures
        entries_bytes(v.push(e)) == entries_bytes(v) + entry_chunk(e),
    decreases v.len(),
{
    let vv = v.push(e);
    lemma_entries_bytes_step(vv);
    lemma_entries_bytes_step(v);
    if v.len() == 0 {
        assert(vv.drop_first() =~= Seq::<EntryView>::empty());
        lemma_entries_bytes_step(vv.drop_first());
        assert(entries_bytes(vv) =~= entries_bytes(v) + entry_chunk(e));
    } else {
        lemma_entries_bytes_push(v.drop_first(), e);
        assert(vv.drop_first() =~= v.drop_first().push(e));
        assert(entries_bytes(vv) =~= entries_bytes(v) + entry_chunk(e));
    }
}

proof fn lemma_entries_roundtrip(p: Seq<u8>, v: Seq<EntryView>, t: Seq<u8>)
    requires
        vault_fits(v),
    ensures
        parse_entries(p + entries_bytes(v) + t, p.len() as int, v.len()) == Ok::<
            Seq<EntryView>,
            KdbError,
        >(v),
    decreases v.len(),
{
    let b = p + entries_bytes(v) + t;
    lemma_entries_bytes_step(v);
    lemma_parse_entries_step(b, p.len() as int, v.len());
    if v.len() > 0 {
        let e = v[0];
        let rest = v.drop_first();
        assert(entry_fits(e));
        assert(entry_bytes(e).len() <= u32::MAX);
        assert(vault_fits(rest)) by {
            assert forall|i: int| 0 <= i < rest.len() implies entry_fits(#[trigger] rest[i]) by {
                assert(rest[i] == v[i + 1]);
            }
            assert forall|i: int| 0 <= i < rest.len() implies #[trigger] entry_bytes(
                rest[i],
            ).len() <= u32::MAX by {
                assert(rest[i] == v[i + 1]);
            }
        }
        let eb = entry_bytes(e);
        let p2 = p + entry_chunk(e);
        lemma_entries_roundtrip(p2, rest, t);
        assert(b =~= p2 + entries_bytes(rest) + t);
        let off = p.len() as int;
        lemma_le_u32_roundtrip(eb.len() as u32);
        assert(b.subrange(off, off + 4) =~= le_u32(eb.len() as u32));
        assert(u32_at(b, off) == u32_at(le_u32(eb.len() as u32), 0));
        assert(u32_at(b, off) == eb.len());
        assert(b.subrange(off + 4, off + 4 + eb.len()) =~= eb);
        lemma_entry_roundtrip(e);
        assert(parse_records(b.subrange(off + 4, off + 4 + u32_at(b, off))) == Ok::<
            Seq<RecordView>,
            KdbError,
        >(e));
        assert(p2.len() == off + 4 + eb.len());
        assert(b.len() >= off + 4 + eb.len());
        assert((v.len() - 1) as nat == rest.len());
        assert(parse_entries(b, p2.len() as int, rest.len()) == Ok::<Seq<EntryView>, KdbError>(
            rest,
        ));
        assert(seq![e] + rest =~= v);
    } else {
        assert(v =~= Seq::<EntryView>::empty());
    }
}

/// A vault that fits reads back from its bytes, whatever follows them.
pub proof fn lemma_vault_roundtrip(v: Seq<EntryView>, trailing: Seq<u8>)
    requires
        vault_fits(v),
    ensures
        parse_vault(vault_bytes(v) + trailing) == Ok::<Seq<EntryView>, KdbError>(v),
{
    let p = le_u32(v.len() as u32);
    lemma_entries_roundtrip(p, v, trailing);
    let b = vault_bytes(v) + trailing;
    assert(b =~= p + entries_bytes(v) + trailing);
    lemma_le_u32_roundtrip(v.len() as u32);
    assert(b.subrange(0, 4) =~= p);
    assert(u32_at(b, 0) == u32_at(p, 0));
}

proof fn lemma_entries_parse_serialize(b: Seq<u8>, off: int, count: nat)
    requires
        0 <= off <= b.len(),
        parse_entries(b, off, count) is Ok,
    ensures
        ({
            let v = parse_entries(b, off, count)->Ok_0;
            &&& v.len() == count
            &&& forall|i: int| 0 <= i < v.len() ==> entry_fits(#[trigger] v[i])
            &&& forall|i: int| 0 <= i < v.len() ==> #[trigger] entry_bytes(v[i]).len()
                <= u32::MAX
            &&& off + entries_bytes(v).len() <= b.len()
            &&& entries_bytes(v) == b.subrange(off, off + entries_bytes(v).len())
        }),
    decreases count,
{
    let v = parse_entries(b, off, count)->Ok_0;
    lemma_parse_entries_step(b, off, count);
    lemma_entries_bytes_step(v);
    if count == 0 {
        assert(v =~= Seq::<EntryView>::empty());
        assert(entries_bytes(v) =~= b.subrange(off, off));
    } else {
        let size = u32_at(b, off);
        let eb = b.subrange(off + 4, off + 4 + size);
        let e = parse_records(eb)->Ok_0;
        lemma_entry_parse_serialize(eb);
        let next = off + 4 + size;
        lemma_entries_parse_serialize(b, next, (count - 1) as nat);
        let rest = parse_entries(b, next, (count - 1) as nat)->Ok_0;
        assert(v == seq![e] + rest);
        assert(v[0] == e);
        assert(v.drop_first() =~= rest);
        lemma_u32_at_encodes(b, off);
        assert(entry_bytes(e) == eb);
        assert(entry_chunk(e) =~= b.subrange(off, next));
        assert(entries_bytes(v) == entry_chunk(e) + entries_bytes(rest));
        assert(entries_bytes(v) =~= b.subrange(off, off + entries_bytes(v).len()));
        assert forall|i: int| 0 <= i < v.len() implies entry_fits(#[trigger] v[i]) by {
            if i > 0 {
                assert(v[i] == rest[i - 1]);
            }
        }
        assert forall|i: int| 0 <= i < v.len() implies #[trigger] entry_bytes(v[i]).len()
            <= u32::MAX by {
            if i > 0 {
                assert(v[i] == rest[i - 1]);
            }
        }
    }
}

/// What reads as a vault was written as that vault: its bytes are a prefix
/// of what was read.
pub proof fn lemma_vault_parse_serialize(b: Seq<u8>)
    requires
        parse_vault(b) is Ok,
    ensures
        vault_fits(parse_vault(b)->Ok_0),
        vault_bytes(parse_vault(b)->Ok_0) == b.subrange(
            0,
            vault_bytes(parse_vault(b)->Ok_0).len() as int,
        ),
{
    let v = parse_vault(b)->Ok_0;
    lemma_entries_parse_serialize(b, 4, u32_at(b, 0) as nat);
    lemma_u32_at_encodes(b, 0);
    assert(vault_bytes(v) =~= b.subrange(0, vault_bytes(v).len() as int));
}

/// The entries of `es` as values.
pub open spec fn entries_view(es: Seq<Entry>) -> Seq<EntryView> {
    es.map_values(|e: Entry| e@)
}

/// Where the first entry whose UUID is `u` stands, looking from `i` on; an
/// entry without a valid UUID before it stops the search with its error.
pub open spec fn find_uuid_from(v: Seq<EntryView>, u: Seq<u8>, i: int) -> Result<
    Option<int>,
    KdbError,
>
    decreases v.len() - i,
{
    if i < 0 || i >= v.len() {
        Ok(None)
    } else {
        match entry_uuid(v[i]) {
            Err(e) => Err(e),
            Ok(x) => if x == u {
                Ok(Some(i))
            } else {
                find_uuid_from(v, u, i + 1)
            },
        }
    }
}

/// Where the first entry whose UUID is `u` stands.
pub open spec fn find_uuid(v: Seq<EntryView>, u: Seq<u8>) -> Result<Option<int>, KdbError> {
    find_uuid_from(v, u, 0)
}

pub proof fn lemma_find_uuid_in_range(v: Seq<EntryView>, u: Seq<u8>, i: int)
    requires
        0 <= i,
    ensures
        find_uuid_from(v, u, i) matches Ok(Some(k)) ==> i <= k < v.len(),
    decreases v.len() - i,
{
    if i < v.len() {
        lemma_find_uuid_in_range(v, u, i + 1);
    }
}

/// An entry after its five text fields are set.
pub open spec fn with_text_fields(
    e: EntryView,
    title: Seq<u8>,
    username: Seq<u8>,
    password: Seq<u8>,
    url: Seq<u8>,
    notes: Seq<u8>,
) -> EntryView {
    with_field(
        with_field(
            with_field(
                with_field(with_field(e, RecordType::Title, title), RecordType::Username, username),
                RecordType::Password,
                password,
            ),
            RecordType::Url,
            url,
        ),
        RecordType::Notes,
        notes,
    )
}

/// Setting an entry's five texts and reading them back gives those texts,
/// and leaves its UUID as it was.
pub proof fn lemma_text_fields_read_back(
    e: EntryView,
    title: Seq<u8>,
    username: Seq<u8>,
    password: Seq<u8>,
    url: Seq<u8>,
    notes: Seq<u8>,
)
    ensures
        ({
            let n = with_text_fields(e, title, username, password, url, notes);
            &&& field_value(n, RecordType::Title) == Some(title)
            &&& field_value(n, RecordType::Username) == Some(username)
            &&& field_value(n, RecordType::Password) == Some(password)
            &&& field_value(n, RecordType::Url) == Some(url)
            &&& field_value(n, RecordType::Notes) == Some(notes)
            &&& entry_uuid(n) == entry_uuid(e)
        }),
{
    let e1 = with_field(e, RecordType::Title, title);
    let e2 = with_field(e1, RecordType::Username, username);
    let e3 = with_field(e2, RecordType::Password, password);
    let e4 = with_field(e3, RecordType::Url, url);
    let e5 = with_field(e4, RecordType::Notes, notes);
    lemma_with_field_reads_back(e, RecordType::Title, title);
    lemma_with_field_reads_back(e1, RecordType::Username, username);
    lemma_with_field_reads_back(e2, RecordType::Password, password);
    lemma_with_field_reads_back(e3, RecordType::Url, url);
    lemma_with_field_reads_back(e4, RecordType::Notes, notes);
    lemma_with_field_keeps_others(e1, RecordType::Username, username, RecordType::Title);
    lemma_with_field_keeps_others(e2, RecordType::Password, password, RecordType::Title);
    lemma_with_field_keeps_others(e3, RecordType::Url, url, RecordType::Title);
    lemma_with_field_keeps_others(e4, RecordType::Notes, notes, RecordType::Title);
    lemma_with_field_keeps_others(e2, RecordType::Password, password, RecordType::Username);
    lemma_with_field_keeps_others(e3, RecordType::Url, url, RecordType::Username);
    lemma_with_field_keeps_others(e4, RecordType::Notes, notes, RecordType::Username);
    lemma_with_field_keeps_others(e3, RecordType::Url, url, RecordType::Password);
    lemma_with_field_keeps_others(e4, RecordType::Notes, notes, RecordType::Password);
    lemma_with_field_keeps_others(e4, RecordType::Notes, notes, RecordType::Url);
    lemma_with_field_keeps_others(e, RecordType::Title, title, RecordType::Uuid);
    lemma_with_field_keeps_others(e1, RecordType::Username, username, RecordType::Uuid);
    lemma_with_field_keeps_others(e2, RecordType::Password, password, RecordType::Uuid);
    lemma_with_field_keeps_others(e3, RecordType::Url, url, RecordType::Uuid);
    lemma_with_field_keeps_others(e4, RecordType::Notes, notes, RecordType::Uuid);
}

proof fn lemma_find_uuid_from_same_uuids(v: Seq<EntryView>, w: Seq<EntryView>, u: Seq<u8>, k: int)
    requires
        0 <= k,
        v.len() == w.len(),
        forall|j: int| 0 <= j < v.len() ==> entry_uuid(#[trigger] w[j]) == entry_uuid(v[j]),
    ensures
        find_uuid_from(w, u, k) == find_uuid_from(v, u, k),
    decreases v.len() - k,
{
    if k < v.len() {
        lemma_find_uuid_from_same_uuids(v, w, u, k + 1);
        assert(entry_uuid(w[k]) == entry_uuid(v[k]));
    }
}

/// Setting the texts of the entry that a UUID finds leaves it found by that
/// UUID, at the same place, holding the new texts.
pub proof fn lemma_updated_entry_found(
    v: Seq<EntryView>,
    u: Seq<u8>,
    i: int,
    title: Seq<u8>,
    username: Seq<u8>,
    password: Seq<u8>,
    url: Seq<u8>,
    notes: Seq<u8>,
)
    requires
        find_uuid(v, u) == Ok::<Option<int>, KdbError>(Some(i)),
    ensures
        ({
            let w = v.update(i, with_text_fields(v[i], title, username, password, url, notes));
            &&& find_uuid(w, u) == Ok::<Option<int>, KdbError>(Some(i))
            &&& field_value(w[i], RecordType::Title) == Some(title)
            &&& field_value(w[i], RecordType::Username) == Some(username)
            &&& field_value(w[i], RecordType::Password) == Some(password)
            &&& field_value(w[i], RecordType::Url) == Some(url)
            &&& field_value(w[i], RecordType::Notes) == Some(notes)
        }),
{
    lemma_find_uuid_in_range(v, u, 0);
    let w = v.update(i, with_text_fields(v[i], title, username, password, url, notes));
    lemma_text_fields_read_back(v[i], title, username, password, url, notes);
    assert forall|j: int| 0 <= j < v.len() implies entry_uuid(#[trigger] w[j]) == entry_uuid(
        v[j],
    ) by {}
    lemma_find_uuid_from_same_uuids(v, w, u, 0);
}

/// The entries of a vault, in order.
#[derive(Debug, Clone)]
pub struct Vault {
    entries: Vec<Entry>,
}

impl View for Vault {
    type V = Seq<EntryView>;

    closed spec fn view(&self) -> Seq<EntryView> {
        entries_view(self.entries@)
    }
}

impl Vault {
    /// A vault without entries.
    pub fn new() -> (v: Self)
        ensures
            v@ == Seq::<EntryView>::empty(),
    {
        let v = Self { entries: Vec::new() };
        assert(v@ =~= Seq::<EntryView>::empty());
        v
    }

    /// Appends an entry.
    pub fn add_entry(&mut self, entry: Entry)
        ensures
            final(self)@ == old(self)@.push(entry@),
    {
        self.entries.push(entry);
        assert(self@ =~= old(self)@.push(entry@));
    }

    /// The entries of this vault, in order.
    pub fn entries(&self) -> (es: &[Entry])
        ensures
            entries_view(es@) == self@,
    {
        self.entries.as_slice()
    }

    /// The bytes of this vault.
    pub fn serialize(&self) -> (out: Vec<u8>)
        ensures
            out@ == vault_bytes(self@),
    {
        let mut buffer: Vec<u8> = Vec::new();
        let n = self.entries.len();
        push_le_u32(&mut buffer, n as u32);
        let mut i: usize = 0;
        proof {
            lemma_entries_bytes_step(self@.take(0));
        }
        assert(buffer@ =~= le_u32(n as u32) + entries_bytes(self@.take(0)));
        while i < n
            invariant
                n == self.entries@.len(),
                n == self@.len(),
                i <= n,
                buffer@ == le_u32(n as u32) + entries_bytes(self@.take(i as int)),
            decreases n - i,
        {
            let data = self.entries[i].serialize();
            proof {
                lemma_entries_bytes_push(self@.take(i as int), self@[i as int]);
                assert(self@.take(i as int).push(self@[i as int]) =~= self@.take(i + 1));
                assert(self.entries@[i as int]@ == self@[i as int]);
            }
            let ghost before = buffer@;
            push_le_u32(&mut buffer, data.len() as u32);
            buffer.extend_from_slice(data.as_slice());
            assert(buffer@ =~= before + entry_chunk(self@[i as int]));
            i = i + 1;
        }
        assert(self@.take(n as int) =~= self@);
        buffer
    }

    /// Reads a vault from the start of `bytes`.
    pub fn deserialize(bytes: &[u8]) -> (res: Result<Self, KdbError>)
        ensures
            match res {
                Ok(v) => parse_vault(bytes@) == Ok::<Seq<EntryView>, KdbError>(v@),
                Err(e) => parse_vault(bytes@) == Err::<Seq<EntryView>, KdbError>(e),
            },
    {
        if bytes.len() < 4 {
            return Err(KdbError::VaultTooSmall);
        }
        let entry_count = read_u32(bytes, 0);
        let ghost b = bytes@;
        let ghost count = entry_count as nat;
        let mut offset: usize = 4;
        let mut entries: Vec<Entry> = Vec::new();
        let mut i: u32 = 0;
        assert(entries_view(entries@) =~= Seq::<EntryView>::empty());
        assert(b.len() >= 4);
        assert(parse_vault(b) == (match parse_entries(b, 4, count) {
            Ok(rest) => Ok(entries_view(entries@) + rest),
            Err(e) => Err(e),
        })) by {
            match parse_entries(b, 4, count) {
                Ok(rest) => {
                    assert(entries_view(entries@) + rest =~= rest);
                },
                Err(e) => {},
            }
        }
        while i < entry_count
            invariant
                b == bytes@,
                count == entry_count,
                i <= entry_count,
                4 <= offset <= bytes@.len(),
                parse_vault(b) == (match parse_entries(b, offset as int, (count - i) as nat) {
                    Ok(rest) => Ok(entries_view(entries@) + rest),
                    Err(e) => Err(e),
                }),
            decreases entry_count - i,
        {
            let ghost left = (count - i) as nat;
            proof {
                lemma_parse_entries_step(b, offset as int, left);
            }
            if bytes.len() - offset < 4 {
                return Err(KdbError::MissingEntrySize);
            }
            let entry_size = read_u32(bytes, offset);
            if bytes.len() - offset - 4 < entry_size as usize {
                return Err(KdbError::InvalidEntrySize);
            }
            let entry_size = entry_size as usize;
            let start = offset + 4;
            let res = Entry::deserialize_range(bytes, start, start + entry_size);
            match res {
                Err(e) => {
                    return Err(e);
                },
                Ok(entry) => {
                    let ghost old_entries = entries_view(entries@);
                    let ghost e = entry@;
                    entries.push(entry);
                    assert(entries_view(entries@) =~= old_entries.push(e));
                    offset = start + entry_size;
                    i = i + 1;
                    assert(parse_vault(b) == (match parse_entries(
                        b,
                        offset as int,
                        (count - i) as nat,
                    ) {
                        Ok(rest) => Ok(entries_view(entries@) + rest),
                        Err(er) => Err(er),
                    })) by {
                        assert((count - i) as nat == (left - 1) as nat);
                        match parse_entries(b, offset as int, (count - i) as nat) {
                            Ok(rest) => {
                                assert(old_entries + (seq![e] + rest) =~= entries_view(entries@)
                                    + rest);
                            },
                            Err(er) => {},
                        }
                    }
                },
            }
        }
        proof {
            lemma_parse_entries_step(b, offset as int, 0);
        }
        assert(entries_view(entries@) + Seq::<EntryView>::empty() =~= entries_view(entries@));
        let v = Self { entries };
        assert(v@ == entries_view(entries@));
        Ok(v)
    }

    /// Appends a new entry made from five texts (see `Entry::from_fields`).
    pub fn add_entry_from_fields(
        &mut self,
        title: &str,
        username: &str,
        password: &str,
        url: &str,
        notes: &str,
    )
        ensures
            final(self)@.len() == old(self)@.len() + 1,
            final(self)@.drop_last() == old(self)@,
            ({
                let e = final(self)@.last();
                &&& e.len() == 6
                &&& e[0].0 == RecordType::Uuid
                &&& is_random_uuid(e[0].1)
                &&& e[1] == (RecordType::Title, title.spec_bytes())
                &&& e[2] == (RecordType::Username, username.spec_bytes())
                &&& e[3] == (RecordType::Password, password.spec_bytes())
                &&& e[4] == (RecordType::Url, url.spec_bytes())
                &&& e[5] == (RecordType::Notes, notes.spec_bytes())
            }),
    {
        let entry = Entry::from_fields(title, username, password, url, notes);
        self.add_entry(entry);
        assert(self@.drop_last() =~= old(self)@);
    }

    /// The position of the first entry whose UUID is `uuid`; the first entry
    /// before it without a valid UUID gives its error.
    pub fn find_position(&self, uuid: &EntryUuid) -> (res: Result<Option<usize>, KdbError>)
        ensures
            match res {
                Ok(Some(i)) => find_uuid(self@, uuid@) == Ok::<Option<int>, KdbError>(
                    Some(i as int),
                ),
                Ok(None) => find_uuid(self@, uuid@) == Ok::<Option<int>, KdbError>(None),
                Err(e) => find_uuid(self@, uuid@) == Err::<Option<int>, KdbError>(e),
            },
    {
        let n = self.entries.len();
        let mut i: usize = 0;
        while i < n
            invariant
                n == self.entries@.len(),
                n == self@.len(),
                i <= n,
                find_uuid(self@, uuid@) == find_uuid_from(self@, uuid@, i as int),
            decreases n - i,
        {
            assert(self.entries@[i as int]@ == self@[i as int]);
            match self.entries[i].uuid() {
                Err(e) => {
                    return Err(e);
                },
                Ok(u) => {
                    if u == *uuid {
                        return Ok(Some(i));
                    }
                },
            }
            i = i + 1;
        }
        Ok(None)
    }

    /// The first entry whose UUID is `uuid`, if any; the first entry before
    /// it without a valid UUID gives its error.
    pub fn find_entry(&self, uuid: &EntryUuid) -> (res: Result<Option<&Entry>, KdbError>)
        ensures
            match res {
                Ok(Some(e)) => exists|i: int|
                    find_uuid(self@, uuid@) == Ok::<Option<int>, KdbError>(Some(i)) && 0 <= i
                        < self@.len() && #[trigger] self@[i] == e@,
                Ok(None) => find_uuid(self@, uuid@) == Ok::<Option<int>, KdbError>(None),
                Err(e) => find_uuid(self@, uuid@) == Err::<Option<int>, KdbError>(e),
            },
    {
        match self.find_position(uuid) {
            Err(e) => Err(e),
            Ok(None) => Ok(None),
            Ok(Some(i)) => {
                proof {
                    lemma_find_uuid_in_range(self@, uuid@, 0);
                }
                assert(self.entries@[i as int]@ == self@[i as int]);
                Ok(Some(&self.entries[i]))
            },
        }
    }

    /// Removes the first entry whose UUID is `uuid`; fails with
    /// `EntryNotFound` where there is none.
    pub fn delete_entry(&mut self, uuid: &EntryUuid) -> (res: Result<(), KdbError>)
        ensures
            match find_uuid(old(self)@, uuid@) {
                Ok(Some(i)) => res is Ok && final(self)@ == old(self)@.remove(i),
                Ok(None) => res == Err::<(), KdbError>(KdbError::EntryNotFound) && final(self)@
                    == old(self)@,
                Err(e) => res == Err::<(), KdbError>(e) && final(self)@ == old(self)@,
            },
    {
        match self.find_position(uuid) {
            Err(e) => Err(e),
            Ok(None) => Err(KdbError::EntryNotFound),
            Ok(Some(i)) => {
                proof {
                    lemma_find_uuid_in_range(self@, uuid@, 0);
                }
                self.entries.remove(i);
                assert(self@ =~= old(self)@.remove(i as int));
                Ok(())
            },
        }
    }

    /// Sets the five text fields of the first entry whose UUID is `uuid`;
    /// fails with `EntryNotFound` where there is none.
    pub fn update_entry(
        &mut self,
        uuid: &EntryUuid,
        title: &str,
        username: &str,
        password: &str,
        url: &str,
        notes: &str,
    ) -> (res: Result<(), KdbError>)
        ensures
            match find_uuid(old(self)@, uuid@) {
                Ok(Some(i)) => res is Ok && final(self)@ == old(self)@.update(
                    i,
                    with_text_fields(
                        old(self)@[i],
                        title.spec_bytes(),
                        username.spec_bytes(),
                        password.spec_bytes(),
                        url.spec_bytes(),
                        notes.spec_bytes(),
                    ),
                ),
                Ok(None) => res == Err::<(), KdbError>(KdbError::EntryNotFound) && final(self)@
                    == old(self)@,
                Err(e) => res == Err::<(), KdbError>(e) && final(self)@ == old(self)@,
            },
    {
        match self.find_position(uuid) {
            Err(e) => Err(e),
            Ok(None) => Err(KdbError::EntryNotFound),
            Ok(Some(i)) => {
                proof {
                    lemma_find_uuid_in_range(self@, uuid@, 0);
                }
                let mut entry = self.entries.remove(i);
                assert(entry@ == old(self)@[i as int]);
                entry.set_title(title);
                entry.set_username(username);
                entry.set_password(password);
                entry.set_url(url);
                entry.set_notes(notes);
                let ghost e = entry@;
                self.entries.insert(i, entry);
                assert(self@ =~= old(self)@.update(i as int, e));
                Ok(())
            },
        }
    }
}

} // verus!
