use kelidban::encryption::error::KdbError;
use kelidban::encryption::file::entry::Entry;
use kelidban::encryption::file::record::{RecordType, TlvRecord};
use kelidban::encryption::file::vault::Vault;

#[test]
fn vault_roundtrip() {
    let mut vault = Vault::new();

    let mut entry = Entry::new();
    entry.add_record(TlvRecord::new(RecordType::Title, b"GitHub".to_vec()));

    vault.add_entry(entry);

    let bytes = vault.serialize();

    let decoded = Vault::deserialize(&bytes).unwrap();

    assert_eq!(decoded.entries().len(), 1);
}

#[test]
fn vault_multiple_entries_roundtrip() {
    let mut vault = Vault::new();

    let mut entry1 = Entry::new();
    entry1.add_record(TlvRecord::new(RecordType::Title, b"GitHub".to_vec()));

    let mut entry2 = Entry::new();
    entry2.add_record(TlvRecord::new(RecordType::Title, b"Bank".to_vec()));

    vault.add_entry(entry1);
    vault.add_entry(entry2);

    let bytes = vault.serialize();

    let decoded = Vault::deserialize(&bytes).unwrap();

    assert_eq!(decoded.entries().len(), 2);
}

#[test]
fn empty_vault_bytes() {
    assert_eq!(Vault::new().serialize(), vec![0, 0, 0, 0]);
    assert_eq!(Vault::deserialize(&[0, 0, 0, 0, 7, 7]).unwrap().entries().len(), 0);
}

#[test]
fn vault_roundtrip_keeps_contents() {
    let mut vault = Vault::new();
    vault.add_entry_from_fields("GitHub", "user", "pw", "u", "n");
    vault.add_entry_from_fields("Bank", "b", "p", "", "");
    let decoded = Vault::deserialize(&vault.serialize()).unwrap();
    assert_eq!(decoded.entries()[1].title(), Some(b"Bank".as_slice()));
    assert_eq!(decoded.entries()[0].password(), Some(b"pw".as_slice()));
    assert_eq!(decoded.entries()[0].uuid().unwrap(), vault.entries()[0].uuid().unwrap());
}

#[test]
fn vault_errors() {
    assert_eq!(Vault::deserialize(&[1, 0, 0]).unwrap_err(), KdbError::VaultTooSmall);
    assert_eq!(Vault::deserialize(&[1, 0, 0, 0, 5]).unwrap_err(), KdbError::MissingEntrySize);
    assert_eq!(
        Vault::deserialize(&[1, 0, 0, 0, 5, 0, 0, 0, 1]).unwrap_err(),
        KdbError::InvalidEntrySize
    );
    assert_eq!(
        Vault::deserialize(&[1, 0, 0, 0, 1, 0, 0, 0, 1]).unwrap_err(),
        KdbError::RecordTooSmall
    );
}

#[test]
fn find_delete_update() {
    let mut vault = Vault::new();
    vault.add_entry_from_fields("A", "a", "1", "", "");
    vault.add_entry_from_fields("B", "b", "2", "", "");
    let ua = vault.entries()[0].uuid().unwrap();
    let ub = vault.entries()[1].uuid().unwrap();
    assert_eq!(vault.find_position(&ub).unwrap(), Some(1));
    vault.update_entry(&ub, "B2", "b2", "22", "url", "notes").unwrap();
    assert_eq!(vault.entries()[1].title(), Some(b"B2".as_slice()));
    vault.delete_entry(&ua).unwrap();
    assert_eq!(vault.entries().len(), 1);
    assert_eq!(vault.delete_entry(&ua).unwrap_err(), KdbError::EntryNotFound);
    assert_eq!(
        vault.update_entry(&ua, "", "", "", "", "").unwrap_err(),
        KdbError::EntryNotFound
    );
    assert!(vault.find_entry(&ua).unwrap().is_none());
}
