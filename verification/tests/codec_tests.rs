use northstar_master_server::codec::{FixedString, Ty, Value};
use northstar_master_server::de::{decode, Deserializer, Error};
use northstar_master_server::enc::{default_value, encode};
use northstar_master_server::pdata::from_u8;
use northstar_master_server::schema::player_data_schema;

fn record() -> Ty {
    // A record: flag, level, score, ratio bits, mode tag, eight-byte name,
    // three counters.
    Ty::Struct(vec![
        Ty::Bool,
        Ty::U8,
        Ty::I32,
        Ty::F32,
        Ty::Enum(3),
        Ty::Str(8),
        Ty::Array(Box::new(Ty::I32), 3),
    ])
}

fn sample_bytes() -> Vec<u8> {
    let mut b: Vec<u8> = Vec::new();
    b.push(2); // bool: any non-zero byte reads as true
    b.push(7); // u8
    b.extend_from_slice(&(-2i32).to_le_bytes()); // i32, little endian
    b.extend_from_slice(&1.5f32.to_bits().to_le_bytes()); // f32 raw bits
    b.push(1); // enum variant index
    b.extend_from_slice(b"abc\0zzzz"); // live prefix "abc", padding discarded
    b.extend_from_slice(&10i32.to_le_bytes());
    b.extend_from_slice(&20i32.to_le_bytes());
    b.extend_from_slice(&(-30i32).to_le_bytes());
    b
}

#[test]
fn decodes_each_primitive_exactly() {
    let t = record();
    let v = decode(&t, &sample_bytes()).unwrap();
    match v {
        Value::Struct(fields) => {
            assert!(matches!(fields[0], Value::Bool(true)));
            assert!(matches!(fields[1], Value::U8(7)));
            assert!(matches!(fields[2], Value::I32(-2)));
            assert!(matches!(fields[3], Value::F32(bits) if bits == 1.5f32.to_bits()));
            assert!(matches!(fields[4], Value::Enum(1)));
            match &fields[5] {
                Value::Str(s) => assert_eq!(s.bytes, b"abc".to_vec()),
                _ => panic!("string field has wrong shape"),
            }
            match &fields[6] {
                Value::Array(items) => {
                    assert!(matches!(items[0], Value::I32(10)));
                    assert!(matches!(items[1], Value::I32(20)));
                    assert!(matches!(items[2], Value::I32(-30)));
                }
                _ => panic!("array field has wrong shape"),
            }
        }
        _ => panic!("record has wrong shape"),
    }
}

#[test]
fn rejects_short_input() {
    let t = record();
    let mut b = sample_bytes();
    b.pop();
    assert!(matches!(decode(&t, &b), Err(Error::Eof)));
    assert!(matches!(decode(&t, &[]), Err(Error::Eof)));
}

#[test]
fn rejects_trailing_bytes() {
    let t = record();
    let mut b = sample_bytes();
    b.push(0);
    b.push(0);
    assert!(matches!(decode(&t, &b), Err(Error::TrailingBytes(2))));
}

#[test]
fn rejects_out_of_range_enum() {
    let t = record();
    let mut b = sample_bytes();
    b[10] = 3; // the enum byte; the variant list has three entries: 0, 1, 2
    assert!(matches!(decode(&t, &b), Err(Error::InvalidEnum)));
}

#[test]
fn rejects_invalid_utf8_in_live_prefix() {
    let t = record();
    let mut b = sample_bytes();
    b[11] = 0xff; // first byte of the string field's live prefix
    assert!(matches!(decode(&t, &b), Err(Error::Message(_))));
}

#[test]
fn failures_are_classified_in_reading_order() {
    // The enum byte is read before the input runs short, so the out-of-range
    // byte decides the error kind.
    let t = Ty::Struct(vec![Ty::Enum(3), Ty::I32]);
    assert!(matches!(decode(&t, &[5]), Err(Error::InvalidEnum)));
    // With a valid enum byte the same truncated input runs short instead.
    assert!(matches!(decode(&t, &[1]), Err(Error::Eof)));
}

#[test]
fn bool_byte_is_canonicalised_on_reencode() {
    // The wire form 2 reads as true; re-encoding writes the canonical 1.
    let t = record();
    let v = decode(&t, &sample_bytes()).unwrap();
    let out = encode(&t, &v);
    let mut expected = sample_bytes();
    expected[0] = 1;
    // The string padding after the terminator is not kept either.
    expected[15] = 0;
    expected[16] = 0;
    expected[17] = 0;
    expected[18] = 0;
    assert_eq!(out, expected);
}

#[test]
fn encode_then_decode_is_identity() {
    let t = record();
    let v = Value::Struct(vec![
        Value::Bool(false),
        Value::U8(255),
        Value::I32(i32::MIN),
        Value::F32(0),
        Value::Enum(2),
        Value::Str(FixedString { bytes: b"abcdefgh".to_vec() }),
        Value::Array(vec![Value::I32(1), Value::I32(2), Value::I32(3)]),
    ]);
    let bytes = encode(&t, &v);
    let back = decode(&t, &bytes).unwrap();
    let again = encode(&t, &back);
    assert_eq!(bytes, again);
}

#[test]
fn default_record_encodes_to_zero_bytes_and_round_trips() {
    let t = record();
    let v = default_value(&t);
    let bytes = encode(&t, &v);
    assert!(bytes.iter().all(|&b| b == 0));
    let back = decode(&t, &bytes).unwrap();
    assert_eq!(encode(&t, &back), bytes);
}

#[test]
fn progression_schema_decodes_the_default_blob() {
    let t = player_data_schema();
    let v = default_value(&t);
    let blob = encode(&t, &v);
    assert_eq!(blob.len(), 56169);
    assert!(blob.iter().all(|&b| b == 0));
    let pd = from_u8(&blob).unwrap();
    assert_eq!(pd.xp(), 0);
    assert_eq!(pd.gen(), 0);
    assert_eq!(pd.net_worth(), 0);
}

#[test]
fn progression_blob_surfaces_typed_fields() {
    let t = player_data_schema();
    let mut blob = encode(&t, &default_value(&t));
    blob[8..12].copy_from_slice(&258i32.to_le_bytes()); // xp
    blob[180..184].copy_from_slice(&(-5i32).to_le_bytes()); // net worth
    blob[3212..3216].copy_from_slice(&11i32.to_le_bytes()); // calling card
    blob[3216..3220].copy_from_slice(&12i32.to_le_bytes()); // callsign icon
    blob[3220..3224].copy_from_slice(&13i32.to_le_bytes()); // callsign style
    blob[3224..3228].copy_from_slice(&6i32.to_le_bytes()); // gen
    let pd = from_u8(&blob).unwrap();
    assert_eq!(pd.xp(), 258);
    assert_eq!(pd.net_worth(), -5);
    assert_eq!(pd.active_calling_card_index(), 11);
    assert_eq!(pd.active_callsign_icon_index(), 12);
    assert_eq!(pd.active_callsign_icon_style_index(), 13);
    assert_eq!(pd.gen(), 6);
}

#[test]
fn progression_blob_rejects_wrong_lengths() {
    assert!(matches!(from_u8(&vec![0u8; 56168]), Err(Error::Eof)));
    assert!(matches!(
        from_u8(&vec![0u8; 56170]),
        Err(Error::TrailingBytes(1))
    ));
}

#[test]
fn progression_blob_reencodes_to_itself() {
    let t = player_data_schema();
    let blob = vec![0u8; 56169];
    let pd = from_u8(&blob).unwrap();
    let again = encode(&t, pd.value());
    assert_eq!(again, blob);
}

#[test]
fn deserializer_reports_remaining_input() {
    let mut de = Deserializer::from_u8(&[1, 2, 3]);
    assert_eq!(de.remaining(), 3);
    de.decode_value(&Ty::U8).unwrap();
    assert_eq!(de.remaining(), 2);
}
