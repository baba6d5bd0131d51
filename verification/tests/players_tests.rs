use northstar_master_server::account::{AccountId, AccountRepository};
use northstar_master_server::enc::{default_value, encode};
use northstar_master_server::players::{player_info, PlayerError};
use northstar_master_server::schema::player_data_schema;

#[test]
fn player_projection_reads_the_stored_record() {
    let t = player_data_schema();
    let default_blob = encode(&t, &default_value(&t));
    let mut table = AccountRepository::new(default_blob.clone());
    table.create(AccountId(3)).unwrap();

    // Without an uploaded record the default record is projected.
    let resp = player_info(&table, AccountId(3)).unwrap();
    assert_eq!(resp.id, AccountId(3));
    assert_eq!(resp.name, None);
    assert_eq!(resp.xp, 0);
    assert_eq!(resp.gen, 0);

    // An uploaded record is projected field by field.
    let mut blob = default_blob;
    blob[8..12].copy_from_slice(&4242i32.to_le_bytes()); // xp
    blob[180..184].copy_from_slice(&90000i32.to_le_bytes()); // net worth
    blob[3224..3228].copy_from_slice(&3i32.to_le_bytes()); // gen
    table.set_data(AccountId(3), blob);
    let resp = player_info(&table, AccountId(3)).unwrap();
    assert_eq!(resp.xp, 4242);
    assert_eq!(resp.net_worth, 90000);
    assert_eq!(resp.gen, 3);
}

#[test]
fn unknown_players_and_unreadable_records_are_not_found() {
    let t = player_data_schema();
    let default_blob = encode(&t, &default_value(&t));
    let mut table = AccountRepository::new(default_blob);
    assert!(matches!(
        player_info(&table, AccountId(3)),
        Err(PlayerError::NotFound)
    ));
    table.create(AccountId(3)).unwrap();
    // A stored record of the wrong length does not decode.
    table.set_data(AccountId(3), vec![0u8; 10]);
    assert!(matches!(
        player_info(&table, AccountId(3)),
        Err(PlayerError::NotFound)
    ));
}
