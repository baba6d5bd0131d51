use northstar_master_server::id::{IdError, UniqueId};

#[test]
fn hex_round_trip_known_bytes() {
    let bytes: [u8; 16] = [
        0x00, 0x01, 0x0a, 0x0f, 0x10, 0x7f, 0x80, 0xff, 0x12, 0x34, 0x56, 0x78, 0x9a, 0xbc, 0xde,
        0xf0,
    ];
    let id = UniqueId::existing(bytes);
    let text = id.to_hex();
    assert_eq!(text, "00010a0f107f80ff123456789abcdef0");
    let back = UniqueId::parse_hex(&text).unwrap();
    assert_eq!(back, id);
    assert_eq!(back.bytes(), &bytes);
}

#[test]
fn hex_matches_reference_encoder() {
    let bytes: [u8; 16] = [7, 42, 0, 255, 1, 2, 3, 4, 5, 6, 99, 200, 150, 30, 61, 9];
    let id = UniqueId::existing(bytes);
    assert_eq!(id.to_hex(), hex::encode(bytes));
    let mut decoded = [0u8; 16];
    hex::decode_to_slice(id.to_hex(), &mut decoded).unwrap();
    assert_eq!(&decoded, id.bytes());
}

#[test]
fn parse_accepts_uppercase() {
    let id = UniqueId::parse_hex("00010A0F107F80FF123456789ABCDEF0").unwrap();
    assert_eq!(id.to_hex(), "00010a0f107f80ff123456789abcdef0");
}

#[test]
fn parse_rejects_wrong_length() {
    assert_eq!(UniqueId::parse_hex("abc"), Err(IdError::InvalidLength));
    assert_eq!(
        UniqueId::parse_hex("00010a0f107f80ff123456789abcdef000"),
        Err(IdError::InvalidLength)
    );
    assert_eq!(UniqueId::parse_hex(""), Err(IdError::InvalidLength));
}

#[test]
fn parse_rejects_non_hex() {
    assert_eq!(
        UniqueId::parse_hex("z0010a0f107f80ff123456789abcdef0"),
        Err(IdError::NotHex)
    );
    assert_eq!(
        UniqueId::parse_hex("00010a0f107f80ff123456789abcdeg0"),
        Err(IdError::NotHex)
    );
}

#[test]
fn fresh_ids_have_hex_form() {
    let a = northstar_master_server::id::UniqueId::new();
    let text = a.to_hex();
    assert_eq!(text.len(), 32);
    assert!(text.chars().all(|c| c.is_ascii_hexdigit()));
    let back = UniqueId::parse_hex(&text).unwrap();
    assert_eq!(back, a);
}
