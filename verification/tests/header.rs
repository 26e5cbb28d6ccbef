use kelidban::encryption::error::KdbError;
use kelidban::encryption::file::header::FileHeader;
use kelidban::encryption::kdb;

#[test]
fn test_header_size() {
    let header = FileHeader::new();

    let bytes = header.serialize();

    assert_eq!(bytes.len(), FileHeader::SIZE);
}

#[test]
fn test_header_conversion() {
    let header = FileHeader::new();

    let bytes = header.serialize();

    let decoded = FileHeader::deserialize(&bytes).expect("failed to deserialize header");

    assert_eq!(decoded.magic(), header.magic());
    assert_eq!(decoded.version_major(), header.version_major());
    assert_eq!(decoded.version_minor(), header.version_minor());
    assert_eq!(decoded.flags(), header.flags());

    assert_eq!(decoded.argon_memory(), header.argon_memory());
    assert_eq!(decoded.argon_iterations(), header.argon_iterations());
    assert_eq!(decoded.argon_parallelism(), header.argon_parallelism());

    assert_eq!(decoded.salt(), header.salt());
    assert_eq!(decoded.nonce(), header.nonce());
}

#[test]
fn test_invalid_magic() {
    let mut bytes = FileHeader::new().serialize();

    bytes[0] = b'X';

    let result = FileHeader::deserialize(&bytes);

    assert!(result.is_err());
}

#[test]
fn test_invalid_version() {
    let mut bytes = FileHeader::new().serialize();

    // version_major is at offset 4
    bytes[4] = 2;

    let result = FileHeader::deserialize(&bytes);

    assert!(result.is_err());
}

#[test]
fn test_invalid_flags() {
    let mut bytes = FileHeader::new().serialize();

    // flags are at offset 8
    bytes[8] = 1;

    let result = FileHeader::deserialize(&bytes);

    assert!(result.is_err());
}

#[test]
fn test_version_string() {
    let header = FileHeader::new();

    assert_eq!(header.version(), "1:0");
}

#[test]
fn header_layout() {
    let bytes = FileHeader::new().serialize();
    assert_eq!(&bytes[0..4], b"KDBR");
    assert_eq!(&bytes[4..10], &[1, 0, 0, 0, 0, 0]);
    assert_eq!(&bytes[10..14], &262144u32.to_le_bytes());
    assert_eq!(&bytes[14..18], &3u32.to_le_bytes());
    assert_eq!(&bytes[18..22], &2u32.to_le_bytes());
    assert!(bytes[22..].iter().all(|b| *b == 0));
}

#[test]
fn header_errors_and_fields() {
    let bytes = FileHeader::new().serialize();
    assert_eq!(FileHeader::deserialize(&bytes[..65]).unwrap_err(), KdbError::InvalidHeaderSize);
    let mut b = bytes;
    b[0] = b'X';
    assert_eq!(FileHeader::deserialize(&b).unwrap_err(), KdbError::InvalidMagic);
    let mut b = bytes;
    b[5] = 1;
    assert_eq!(FileHeader::deserialize(&b).unwrap_err(), KdbError::InvalidVersion);
    let mut b = bytes;
    b[9] = 1;
    assert_eq!(FileHeader::deserialize(&b).unwrap_err(), KdbError::UnknownFlags);
    let mut b = bytes;
    b[6] = 7;
    b[10] = 9;
    b[30] = 5;
    b[60] = 4;
    let h = FileHeader::deserialize(&b).unwrap();
    assert_eq!(h.version(), "1:7");
    assert_eq!(h.argon_memory(), 262144 + 9);
    assert_eq!(h.salt()[8], 5);
    assert_eq!(h.nonce()[6], 4);
    assert_eq!(h.serialize(), b);
}

#[test]
fn kdb_header_layout() {
    let bytes = kdb::FileHeader::new().serialize();
    assert_eq!(bytes.len(), kdb::FileHeader::SIZE);
    assert_eq!(&bytes[0..4], b"KDPR");
    assert_eq!(&bytes[4..6], &[1, 0]);
    assert_eq!(&bytes[10..14], &262144u32.to_le_bytes());
    assert!(bytes[22..].iter().all(|b| *b == 0));
}
