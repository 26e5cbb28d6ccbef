use kelidban::encryption::error::KdbError;
use kelidban::encryption::file::entry::Entry;
use kelidban::encryption::file::record::{RecordType, TlvRecord};

#[test]
fn entry_roundtrip() {
    let mut entry = Entry::new();

    entry.add_record(TlvRecord::new(RecordType::Title, b"GitHub".to_vec()));

    entry.add_record(TlvRecord::new(RecordType::Username, b"user123".to_vec()));

    let uuid = entry.uuid().unwrap();

    let bytes = entry.serialize();

    let decoded = Entry::deserialize(&bytes).unwrap();

    assert_eq!(decoded.records().len(), 3);
    assert_eq!(decoded.records()[0].record_type, RecordType::Uuid);
    assert_eq!(decoded.records()[1].record_type, RecordType::Title);
    assert_eq!(decoded.records()[2].record_type, RecordType::Username);

    assert_eq!(decoded.uuid().unwrap(), uuid);
}

#[test]
fn entry_has_uuid() {
    let entry = Entry::new();

    let uuid_record = entry
        .records()
        .iter()
        .find(|record| record.record_type == RecordType::Uuid);

    assert!(uuid_record.is_some());

    let uuid_record = uuid_record.unwrap();

    assert_eq!(uuid_record.value.len(), 16);
}

#[test]
fn entry_uuid_is_unique() {
    let entry1 = Entry::new();
    let entry2 = Entry::new();

    let uuid1 = entry1.uuid().unwrap();
    let uuid2 = entry2.uuid().unwrap();

    assert_ne!(uuid1, uuid2);
}

#[test]
fn new_uuid_is_version_4() {
    let entry = Entry::new();
    let uuid = entry.uuid().unwrap();
    assert_eq!(uuid.as_bytes()[6] >> 4, 4);
    assert_eq!(uuid.as_bytes()[8] >> 6, 2);
}

#[test]
fn empty_bytes_read_as_empty_entry() {
    let decoded = Entry::deserialize(&[]).unwrap();
    assert_eq!(decoded.records().len(), 0);
    assert_eq!(decoded.uuid().unwrap_err(), KdbError::MissingUuid);
}

#[test]
fn entry_rejects_trailing_garbage() {
    let mut bytes = Entry::new().serialize();
    bytes.push(1);
    assert_eq!(Entry::deserialize(&bytes).unwrap_err(), KdbError::RecordTooSmall);
}

#[test]
fn short_uuid_is_invalid() {
    let mut entry = Entry::deserialize(&[]).unwrap();
    entry.add_record(TlvRecord::new(RecordType::Uuid, vec![1, 2, 3]));
    assert_eq!(entry.uuid().unwrap_err(), KdbError::InvalidUuid);
}

#[test]
fn from_fields_and_getters() {
    let entry = Entry::from_fields("T", "U", "P", "https://x", "N");
    assert_eq!(entry.records().len(), 6);
    assert_eq!(entry.title(), Some(b"T".as_slice()));
    assert_eq!(entry.username(), Some(b"U".as_slice()));
    assert_eq!(entry.password(), Some(b"P".as_slice()));
    assert_eq!(entry.url(), Some(b"https://x".as_slice()));
    assert_eq!(entry.notes(), Some(b"N".as_slice()));
}

#[test]
fn setters_replace_first_or_append() {
    let mut entry = Entry::new();
    assert_eq!(entry.title(), None);
    entry.set_title("first");
    assert_eq!(entry.records().len(), 2);
    entry.set_title("second");
    assert_eq!(entry.records().len(), 2);
    assert_eq!(entry.title(), Some(b"second".as_slice()));
    entry.add_record(TlvRecord::new(RecordType::Title, b"third".to_vec()));
    assert_eq!(entry.title(), Some(b"second".as_slice()));
}
