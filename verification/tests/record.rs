use kelidban::encryption::error::KdbError;
use kelidban::encryption::file::record::{RecordType, TlvRecord, MAX_RECORD_SIZE};

#[test]
fn tlv_conversion() {
    let record = TlvRecord::new(RecordType::Password, b"secret".to_vec());

    let bytes = record.serialize();

    let (decoded, _) = TlvRecord::deserialize(&bytes).unwrap();

    assert_eq!(decoded.record_type, RecordType::Password);
    assert_eq!(decoded.value, b"secret");
}

#[test]
fn reject_invalid_length() {
    let bytes = [
        0x04, 0x00, // Password
        0x05, 0x00, 0x00, 0x00, // claims 5 bytes
        b'a', b'b',
    ];

    assert!(TlvRecord::deserialize(&bytes).is_err());
}

#[test]
fn all_record_types_roundtrip() {
    let types = [
        RecordType::Title,
        RecordType::Username,
        RecordType::Password,
        RecordType::Url,
        RecordType::Notes,
        RecordType::Uuid,
        RecordType::Created,
        RecordType::Modified,
    ];

    for record_type in types {
        let record = TlvRecord::new(record_type, vec![1, 2, 3]);

        let bytes = record.serialize();

        let (decoded, _) = TlvRecord::deserialize(&bytes).unwrap();

        assert_eq!(decoded.record_type, record_type);
        assert_eq!(decoded.value, vec![1, 2, 3]);
    }
}

#[test]
fn record_bytes_layout() {
    let record = TlvRecord::new(RecordType::Notes, vec![0xAA, 0xBB]);
    assert_eq!(record.serialize(), vec![0x05, 0x00, 0x02, 0x00, 0x00, 0x00, 0xAA, 0xBB]);
}

#[test]
fn record_length_counts_header_and_value() {
    let mut bytes = TlvRecord::new(RecordType::Url, b"abc".to_vec()).serialize();
    bytes.extend_from_slice(&[9, 9, 9]);
    let (decoded, used) = TlvRecord::deserialize(&bytes).unwrap();
    assert_eq!(used, 9);
    assert_eq!(decoded.value, b"abc");
}

#[test]
fn record_errors() {
    assert_eq!(TlvRecord::deserialize(&[1, 0, 0, 0, 0]).unwrap_err(), KdbError::RecordTooSmall);
    assert_eq!(
        TlvRecord::deserialize(&[9, 0, 0, 0, 0, 0]).unwrap_err(),
        KdbError::UnknownRecordType
    );
    assert_eq!(
        TlvRecord::deserialize(&[0, 0, 0, 0, 0, 0]).unwrap_err(),
        KdbError::UnknownRecordType
    );
    let too_large = (MAX_RECORD_SIZE as u32 + 1).to_le_bytes();
    let bytes = [1, 0, too_large[0], too_large[1], too_large[2], too_large[3]];
    assert_eq!(TlvRecord::deserialize(&bytes).unwrap_err(), KdbError::RecordTooLarge);
    assert_eq!(
        TlvRecord::deserialize(&[1, 0, 2, 0, 0, 0, 7]).unwrap_err(),
        KdbError::TruncatedRecord
    );
}

#[test]
fn record_type_codes() {
    assert_eq!(RecordType::Title.code(), 1);
    assert_eq!(RecordType::Modified.code(), 8);
    assert_eq!(RecordType::from_code(6), Some(RecordType::Uuid));
    assert_eq!(RecordType::from_code(0), None);
}
