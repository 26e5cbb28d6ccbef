use kelidban::encryption::crypto::{argon_params_valid, decrypt, derive_key, encrypt};
use kelidban::encryption::error::KdbError;
use kelidban::encryption::file::entry::Entry;
use kelidban::encryption::file::header::FileHeader;
use kelidban::encryption::file::record::{RecordType, TlvRecord};
use kelidban::encryption::file::storage::{decrypt_vault, encrypt_vault, vault_file_params_valid};
use kelidban::encryption::file::vault::Vault;

#[test]
fn wrong_password_fails() {
    let correct_password = b"correct-password";
    let wrong_password = b"wrong-password";

    let mut vault = Vault::new();

    let mut entry = Entry::new();

    entry.add_record(TlvRecord::new(RecordType::Title, b"GitHub".to_vec()));

    vault.add_entry(entry);

    let header = FileHeader::new();

    let encrypted = encrypt_vault(correct_password, &header, &vault).unwrap();

    let result = decrypt_vault(wrong_password, &encrypted);

    assert!(result.is_err());
}

#[test]
fn tampered_ciphertext_fails() {
    let password = b"correct-password";

    let mut vault = Vault::new();

    let mut entry = Entry::new();
    entry.add_record(TlvRecord::new(RecordType::Title, b"GitHub".to_vec()));

    vault.add_entry(entry);

    let header = FileHeader::new();

    let mut encrypted = encrypt_vault(password, &header, &vault).unwrap();

    // Change one byte in the ciphertext.
    encrypted[FileHeader::SIZE] ^= 1;

    let result = decrypt_vault(password, &encrypted);

    assert!(result.is_err());
}

fn cheap_header() -> FileHeader {
    let mut bytes = FileHeader::new().serialize();
    bytes[10..14].copy_from_slice(&64u32.to_le_bytes());
    bytes[14..18].copy_from_slice(&1u32.to_le_bytes());
    bytes[18..22].copy_from_slice(&1u32.to_le_bytes());
    bytes[22..54].copy_from_slice(&[7u8; 32]);
    FileHeader::deserialize(&bytes).unwrap()
}

#[test]
fn sealed_file_reads_back() {
    let password = b"test-password";
    let mut vault = Vault::new();
    let mut entry = Entry::new();
    entry.add_record(TlvRecord::new(RecordType::Title, b"GitHub".to_vec()));
    entry.add_record(TlvRecord::new(RecordType::Username, b"user123".to_vec()));
    vault.add_entry(entry);
    let header = cheap_header();
    let encrypted = encrypt_vault(password, &header, &vault).unwrap();
    assert_eq!(&encrypted[..FileHeader::SIZE], &header.serialize()[..]);
    assert_eq!(encrypted.len(), FileHeader::SIZE + vault.serialize().len() + 16);
    let decrypted = decrypt_vault(password, &encrypted).unwrap();
    assert_eq!(decrypted.entries().len(), 1);
    let records = decrypted.entries()[0].records();
    assert_eq!(records.len(), 3);
    assert_eq!(records[0].record_type, RecordType::Uuid);
    assert_eq!(records[1].record_type, RecordType::Title);
    assert_eq!(records[2].record_type, RecordType::Username);
    assert_eq!(decrypted.serialize(), vault.serialize());
    assert_eq!(decrypt_vault(b"other", &encrypted).unwrap_err(), KdbError::DecryptionFailed);
}

#[test]
fn short_file_and_bad_header() {
    let password = b"pw";
    assert_eq!(decrypt_vault(password, &[0u8; 65]).unwrap_err(), KdbError::VaultFileTooSmall);
    let mut bytes = FileHeader::new().serialize().to_vec();
    bytes[0] = 0;
    assert_eq!(decrypt_vault(password, &bytes).unwrap_err(), KdbError::InvalidMagic);
    let bytes = FileHeader::new().serialize().to_vec();
    assert_eq!(decrypt_vault(password, &bytes).unwrap_err(), KdbError::DecryptionFailed);
}

#[test]
fn argon_params_checks() {
    assert!(argon_params_valid(262144, 3, 2));
    assert!(!argon_params_valid(7, 1, 1));
    assert!(!argon_params_valid(64, 0, 1));
    assert!(!argon_params_valid(64, 1, 0));
    assert!(!argon_params_valid(64, 1, 9));
    assert!(argon_params_valid(72, 1, 9));
    let mut bytes = FileHeader::new().serialize().to_vec();
    assert!(vault_file_params_valid(&bytes));
    bytes[18] = 0;
    bytes[19] = 0;
    assert!(!vault_file_params_valid(&bytes));
}

#[test]
fn cipher_roundtrip_and_key_is_deterministic() {
    let k1 = derive_key(b"pw", &[1u8; 16], 64, 1, 1);
    let k2 = derive_key(b"pw", &[1u8; 16], 64, 1, 1);
    let k3 = derive_key(b"pX", &[1u8; 16], 64, 1, 1);
    assert_eq!(k1, k2);
    assert_ne!(k1, k3);
    let nonce = [3u8; 12];
    let sealed = encrypt(&k1, b"hello", &nonce).unwrap();
    assert_eq!(sealed.len(), 5 + 16);
    assert_ne!(&sealed[..5], b"hello");
    assert_eq!(decrypt(&k1, &nonce, &sealed).unwrap(), b"hello".to_vec());
    assert!(decrypt(&k3, &nonce, &sealed).is_err());
    assert!(decrypt(&k1, &nonce, &sealed[..15]).is_err());
}

// `Entry::new` starts every entry with its UUID record (the entry tests ask
// for it), so the entry read back holds that record before the two added
// here: three records, not the two an older expectation counted.
#[test]
fn vault_encrypt_decrypt_roundtrip() {
    let password = b"test-password";
    let mut vault = Vault::new();
    let mut entry = Entry::new();
    entry.add_record(TlvRecord::new(RecordType::Title, b"GitHub".to_vec()));
    entry.add_record(TlvRecord::new(RecordType::Username, b"user123".to_vec()));
    vault.add_entry(entry);
    let header = FileHeader::new();
    let encrypted = encrypt_vault(password, &header, &vault).unwrap();
    let decrypted = decrypt_vault(password, &encrypted).unwrap();
    assert_eq!(decrypted.entries().len(), 1);
    let entry = &decrypted.entries()[0];
    assert_eq!(entry.records().len(), 3);
    assert_eq!(entry.records()[0].record_type, RecordType::Uuid);
    assert_eq!(entry.records()[1].record_type, RecordType::Title);
    assert_eq!(entry.records()[2].record_type, RecordType::Username);
}

#[test]
fn salts_are_fresh() {
    let a = kelidban::encryption::crypto::generate_salt();
    let b = kelidban::encryption::crypto::generate_salt();
    assert_eq!(a.len(), 32);
    assert_ne!(a, b);
}
