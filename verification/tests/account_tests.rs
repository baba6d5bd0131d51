use northstar_master_server::account::{AccountId, AccountRepository, StoreError};

const IP: u128 = 0xc633_6405;

fn table() -> AccountRepository {
    AccountRepository::new(vec![0u8; 8])
}

#[test]
fn create_is_unique_per_identity() {
    let mut t = table();
    assert!(!t.account_exists(AccountId(42)));
    t.create(AccountId(42)).unwrap();
    assert!(t.account_exists(AccountId(42)));
    assert_eq!(t.create(AccountId(42)), Err(StoreError::Duplicate));
    t.create(AccountId(43)).unwrap();
}

#[test]
fn token_expires_after_a_day() {
    let mut t = table();
    t.create(AccountId(42)).unwrap();
    let issued_at = 1000;
    let tok = t.create_token(AccountId(42), IP, issued_at);
    assert!(t.authenticate(AccountId(42), &tok, issued_at));
    // 23 hours 59 minutes later.
    assert!(t.authenticate(AccountId(42), &tok, issued_at + 86340));
    // One second before the lifetime ends.
    assert!(t.authenticate(AccountId(42), &tok, issued_at + 86399));
    // 24 hours 1 minute later.
    assert!(!t.authenticate(AccountId(42), &tok, issued_at + 86460));
}

#[test]
fn only_the_latest_token_authenticates() {
    let mut t = table();
    t.create(AccountId(42)).unwrap();
    let first = t.create_token(AccountId(42), IP, 0);
    let second = t.create_token(AccountId(42), IP, 10);
    assert!(!t.authenticate(AccountId(42), &first, 20));
    assert!(t.authenticate(AccountId(42), &second, 20));
    // Tokens do not leak across accounts.
    t.create(AccountId(1)).unwrap();
    assert!(!t.authenticate(AccountId(1), &second, 20));
}

#[test]
fn data_falls_back_to_the_default_blob() {
    let mut t = table();
    t.create(AccountId(7)).unwrap();
    assert_eq!(t.get_data(AccountId(7)).unwrap(), vec![0u8; 8]);
    t.set_data(AccountId(7), vec![1, 2, 3, 4, 5, 6, 7, 8]);
    assert_eq!(t.get_data(AccountId(7)).unwrap(), vec![1, 2, 3, 4, 5, 6, 7, 8]);
    assert_eq!(t.get_data(AccountId(8)), Err(StoreError::NotFound));
}

#[test]
fn auth_data_requires_an_issuing_host() {
    let mut t = table();
    t.create(AccountId(7)).unwrap();
    // Before any token is issued there is no authentication host on record.
    assert!(t.get_auth(AccountId(7)).is_err());
    t.create_token(AccountId(7), IP, 0);
    let auth = t.get_auth(AccountId(7)).unwrap();
    assert_eq!(auth.last_auth_ip, IP);
    assert!(auth.current_server.is_none());
    assert!(t.get_auth(AccountId(9)).is_err());
}

#[test]
fn joining_records_the_current_server() {
    let mut t = table();
    t.create(AccountId(7)).unwrap();
    t.create_token(AccountId(7), IP, 0);
    let sid = northstar_master_server::id::UniqueId::existing([9u8; 16]);
    t.join_server(AccountId(7), &sid);
    let auth = t.get_auth(AccountId(7)).unwrap();
    assert_eq!(auth.current_server.unwrap(), sid);
}

#[test]
fn names_are_empty_until_set_externally() {
    let mut t = table();
    t.create(AccountId(7)).unwrap();
    assert_eq!(t.get_name(AccountId(7)).unwrap(), None);
    assert_eq!(t.get_name(AccountId(8)), Err(StoreError::NotFound));
}
