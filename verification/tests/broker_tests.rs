use northstar_master_server::account::{AccountId, AccountRepository};
use northstar_master_server::broker::{
    auth_with_server_begin, auth_with_server_finish, authenticate_self, origin_auth_finish,
    register_server, stryder_params, u32_decimal, upper_hex_of_u64, write_persistence,
    AuthenticateError, AuthenticateSelfError, CreateServerError, GameServerOutcome, OracleOutcome,
    OriginAuthenticationError, WritePersistenceError,
};
use northstar_master_server::envelope::{api_error_of, ApiErrorKind};
use northstar_master_server::probe::VerifyServerError;
use northstar_master_server::registry::{Server, ServerList, ServerSettings};

const CLIENT_IP: u128 = 0xc633_6405;
const SERVER_IP: u128 = 0xcb00_7107;

fn settings(port: u16, auth_port: u16, password: Option<&str>) -> ServerSettings {
    ServerSettings {
        port,
        auth_port,
        name: "X".to_string(),
        description: "Y".to_string(),
        map: "mp_eden".to_string(),
        playlist: "tdm".to_string(),
        max_players: 8,
        password: password.map(|p| p.to_string()),
    }
}

fn blob_len() -> usize {
    16
}

fn table() -> AccountRepository {
    AccountRepository::new(vec![0u8; blob_len()])
}

#[test]
fn decimal_and_upper_hex_render_exactly() {
    assert_eq!(u32_decimal(0), "0");
    assert_eq!(u32_decimal(12345), "12345");
    assert_eq!(u32_decimal(u32::MAX), "4294967295");
    assert_eq!(upper_hex_of_u64(0), "0000000000000000");
    assert_eq!(upper_hex_of_u64(0xdead_beef), "00000000DEADBEEF");
    // The reference encoder renders the same eight big-endian bytes.
    assert_eq!(
        upper_hex_of_u64(987654321),
        hex::encode_upper(987654321u64.to_be_bytes())
    );
}

#[test]
fn oracle_request_has_the_canonical_shape() {
    let p = stryder_params(AccountId(1001011), "code123".to_string());
    assert_eq!(p.qt, "origin-requesttoken");
    assert_eq!(p.kind, "server_token");
    assert_eq!(p.code, "code123");
    assert_eq!(p.force_trial, 0);
    assert_eq!(p.proto, 0);
    assert_eq!(p.json, 1);
    assert_eq!(p.env, "production");
    assert_eq!(p.user_id, hex::encode_upper(1001011u64.to_be_bytes()));
}

#[test]
fn platform_auth_accepts_owners_and_rejects_the_rest() {
    let mut t = table();
    let attested = OracleOutcome::Response {
        has_online_access: '1',
        store_uri: "https://store.example/titanfall-2/standard".to_string(),
    };
    let tok = origin_auth_finish(&mut t, AccountId(5), CLIENT_IP, 100, &attested).unwrap();
    assert!(t.account_exists(AccountId(5)));
    assert!(t.authenticate(AccountId(5), &tok, 150));

    let no_access = OracleOutcome::Response {
        has_online_access: '0',
        store_uri: "https://store.example/titanfall-2/standard".to_string(),
    };
    assert!(matches!(
        origin_auth_finish(&mut t, AccountId(6), CLIENT_IP, 100, &no_access),
        Err(OriginAuthenticationError::NoGame)
    ));
    let other_game = OracleOutcome::Response {
        has_online_access: '1',
        store_uri: "https://store.example/apex".to_string(),
    };
    assert!(matches!(
        origin_auth_finish(&mut t, AccountId(6), CLIENT_IP, 100, &other_game),
        Err(OriginAuthenticationError::NoGame)
    ));
    assert!(!t.account_exists(AccountId(6)));
    assert!(matches!(
        origin_auth_finish(&mut t, AccountId(6), CLIENT_IP, 100, &OracleOutcome::NetworkError),
        Err(OriginAuthenticationError::StryderError)
    ));
}

#[test]
fn re_auth_replaces_the_token_without_duplicating_the_account() {
    let mut t = table();
    let attested = OracleOutcome::Response {
        has_online_access: '1',
        store_uri: "x/titanfall-2".to_string(),
    };
    let first = origin_auth_finish(&mut t, AccountId(5), CLIENT_IP, 100, &attested).unwrap();
    let second = origin_auth_finish(&mut t, AccountId(5), CLIENT_IP, 200, &attested).unwrap();
    assert!(!t.authenticate(AccountId(5), &first, 250));
    assert!(t.authenticate(AccountId(5), &second, 250));
    assert_eq!(t.rows.len(), 1);
}

#[test]
fn self_auth_returns_identity_and_blob() {
    let mut t = table();
    t.create(AccountId(77)).unwrap();
    let tok = t.create_token(AccountId(77), CLIENT_IP, 0);
    let resp = authenticate_self(&t, AccountId(77), &tok, 10).unwrap();
    assert_eq!(resp.id, "77");
    assert_eq!(resp.persistent_data, vec![0u8; blob_len()]);
    let wrong = northstar_master_server::id::UniqueId::existing([1u8; 16]);
    assert!(matches!(
        authenticate_self(&t, AccountId(77), &wrong, 10),
        Err(AuthenticateSelfError::InvalidToken)
    ));
}

#[test]
fn join_flow_happy_path() {
    let mut t = table();
    t.create(AccountId(7)).unwrap();
    let tok = t.create_token(AccountId(7), CLIENT_IP, 0);
    let mut reg = ServerList::new(10);
    let s = Server::new(SERVER_IP, settings(37015, 8081, None), None, 0);
    let sid = s.id;
    reg.push(s).unwrap();

    let begin = auth_with_server_begin(&t, &reg, AccountId(7), &tok, &sid, None, 5).unwrap();
    assert_eq!(begin.server_ip, SERVER_IP);
    assert_eq!(begin.game_port, 37015);
    assert_eq!(begin.auth_port, 8081);
    assert_eq!(begin.auth_token.len(), 20);
    assert!(begin.auth_token.chars().all(|c| c.is_ascii_hexdigit()));
    assert_eq!(begin.username, "");
    assert_eq!(begin.persistent_data, vec![0u8; blob_len()]);

    let token_text = begin.auth_token.clone();
    let resp =
        auth_with_server_finish(&mut t, begin, &GameServerOutcome::Responded { success: true })
            .unwrap();
    assert_eq!(resp.ip, SERVER_IP);
    assert_eq!(resp.port, 37015);
    assert_eq!(resp.auth_token, token_text);
    let auth = t.get_auth(AccountId(7)).unwrap();
    assert_eq!(auth.current_server.unwrap(), sid);
}

#[test]
fn join_flow_rejections() {
    let mut t = table();
    t.create(AccountId(7)).unwrap();
    let tok = t.create_token(AccountId(7), CLIENT_IP, 0);
    let mut reg = ServerList::new(10);
    let s = Server::new(SERVER_IP, settings(37015, 8081, Some("pw")), None, 0);
    let sid = s.id;
    reg.push(s).unwrap();

    let wrong_tok = northstar_master_server::id::UniqueId::existing([3u8; 16]);
    assert!(matches!(
        auth_with_server_begin(&t, &reg, AccountId(7), &wrong_tok, &sid, Some("pw"), 5),
        Err(AuthenticateError::InvalidToken)
    ));
    let missing = northstar_master_server::id::UniqueId::existing([4u8; 16]);
    assert!(matches!(
        auth_with_server_begin(&t, &reg, AccountId(7), &tok, &missing, Some("pw"), 5),
        Err(AuthenticateError::NoServer)
    ));
    assert!(matches!(
        auth_with_server_begin(&t, &reg, AccountId(7), &tok, &sid, Some("nope"), 5),
        Err(AuthenticateError::WrongPassword)
    ));
    assert!(matches!(
        auth_with_server_begin(&t, &reg, AccountId(7), &tok, &sid, None, 5),
        Err(AuthenticateError::WrongPassword)
    ));
    let begin = auth_with_server_begin(&t, &reg, AccountId(7), &tok, &sid, Some("pw"), 5).unwrap();
    assert!(matches!(
        auth_with_server_finish(&mut t, begin, &GameServerOutcome::ConnectionError),
        Err(AuthenticateError::Connection)
    ));
    let begin = auth_with_server_begin(&t, &reg, AccountId(7), &tok, &sid, Some("pw"), 5).unwrap();
    assert!(matches!(
        auth_with_server_finish(&mut t, begin, &GameServerOutcome::Responded { success: false }),
        Err(AuthenticateError::WrongResponse)
    ));
}

#[test]
fn persistence_upload_authorisation() {
    let mut t = table();
    t.create(AccountId(42)).unwrap();
    t.create_token(AccountId(42), CLIENT_IP, 0);
    let mut reg = ServerList::new(10);
    let s = Server::new(SERVER_IP, settings(37015, 8081, None), None, 0);
    let sid = s.id;
    reg.push(s).unwrap();

    let blob = vec![7u8; blob_len()];
    // From the host the token was issued to: accepted.
    write_persistence(&mut t, &reg, AccountId(42), &sid, CLIENT_IP, Some(blob.clone())).unwrap();
    assert_eq!(t.get_data(AccountId(42)).unwrap(), blob);
    // From an unrelated host: rejected.
    let e = write_persistence(&mut t, &reg, AccountId(42), &sid, CLIENT_IP + 1, Some(blob.clone()))
        .unwrap_err();
    assert!(matches!(e, WritePersistenceError::NotPermitted));
    assert_eq!(e.kind(), "UNAUTHORIZED_GAMESERVER");
    // From the host of the account's current server: accepted.
    t.join_server(AccountId(42), &sid);
    write_persistence(&mut t, &reg, AccountId(42), &sid, SERVER_IP, Some(blob)).unwrap();
    // Unknown accounts are reported as such.
    assert!(matches!(
        write_persistence(&mut t, &reg, AccountId(9), &sid, CLIENT_IP, Some(vec![0; blob_len()])),
        Err(WritePersistenceError::InvalidAccount)
    ));
}

#[test]
fn persistence_upload_length_rules() {
    let mut t = table();
    t.create(AccountId(42)).unwrap();
    t.create_token(AccountId(42), CLIENT_IP, 0);
    let reg = ServerList::new(10);
    let sid = northstar_master_server::id::UniqueId::existing([8u8; 16]);
    // One byte short of the canonical length.
    let e = write_persistence(
        &mut t,
        &reg,
        AccountId(42),
        &sid,
        CLIENT_IP,
        Some(vec![0u8; blob_len() - 1]),
    )
    .unwrap_err();
    assert!(matches!(e, WritePersistenceError::InvalidData));
    assert_eq!(e.kind(), "INVALID_PERSISTENT_DATA");
    assert!(matches!(
        write_persistence(
            &mut t,
            &reg,
            AccountId(42),
            &sid,
            CLIENT_IP,
            Some(vec![0u8; blob_len() + 1])
        ),
        Err(WritePersistenceError::InvalidData)
    ));
    assert!(matches!(
        write_persistence(&mut t, &reg, AccountId(42), &sid, CLIENT_IP, None),
        Err(WritePersistenceError::MissingData)
    ));
    // The stored blob is untouched by rejected uploads.
    assert_eq!(t.get_data(AccountId(42)).unwrap(), vec![0u8; blob_len()]);
}

#[test]
fn persistence_upload_leaves_other_accounts_alone() {
    let mut t = table();
    t.create(AccountId(42)).unwrap();
    t.create_token(AccountId(42), CLIENT_IP, 0);
    t.create(AccountId(43)).unwrap();
    t.set_data(AccountId(43), vec![9u8; blob_len()]);
    let reg = ServerList::new(10);
    let sid = northstar_master_server::id::UniqueId::existing([8u8; 16]);
    write_persistence(&mut t, &reg, AccountId(42), &sid, CLIENT_IP, Some(vec![1u8; blob_len()]))
        .unwrap();
    assert_eq!(t.get_data(AccountId(42)).unwrap(), vec![1u8; blob_len()]);
    assert_eq!(t.get_data(AccountId(43)).unwrap(), vec![9u8; blob_len()]);
    assert_eq!(t.rows.len(), 2);
}

#[test]
fn registration_maps_failures_to_their_kinds() {
    let mut reg = ServerList::new(1);
    let probe_failed = register_server(
        &mut reg,
        SERVER_IP,
        settings(37015, 8081, None),
        Ok(None),
        Err(VerifyServerError::WrongResponse),
        0,
    )
    .unwrap_err();
    assert_eq!(probe_failed.kind(), "BAD_GAMESERVER_RESPONSE");
    let bad_mods = register_server(
        &mut reg,
        SERVER_IP,
        settings(37015, 8081, None),
        Err(()),
        Ok(()),
        0,
    )
    .unwrap_err();
    assert!(matches!(bad_mods, CreateServerError::InvalidModInfo));
    assert_eq!(bad_mods.kind(), "INVALID_MOD_INFO");

    let resp =
        register_server(&mut reg, SERVER_IP, settings(37015, 8081, None), Ok(None), Ok(()), 0)
            .unwrap();
    assert_eq!(resp.id.len(), 32);
    assert_eq!(resp.server_auth_token.len(), 32);
    // The cap of this registry is one server per host.
    let full = register_server(
        &mut reg,
        SERVER_IP,
        settings(37016, 8082, None),
        Ok(None),
        Ok(()),
        0,
    )
    .unwrap_err();
    assert!(matches!(full, CreateServerError::MaximumServersForHost));
    assert_eq!(full.kind(), "MAX_SERVERS_FOR_IP");
    // The listed entry is reachable under the returned identifier.
    let id = northstar_master_server::id::UniqueId::parse_hex(&resp.id).unwrap();
    assert!(reg.get(&id).is_some());
}

#[test]
fn api_errors_carry_kind_and_message() {
    let e = api_error_of(&AuthenticateError::NoServer);
    assert_eq!(e.kind(), "SERVER_NOT_FOUND");
    assert_eq!(e.message(), "no game server with this id exists");
    let v = api_error_of(&CreateServerError::Verification(VerifyServerError::ConnectionFailed));
    assert_eq!(v.kind(), "NO_GAMESERVER_RESPONSE");
    assert_eq!(
        v.message(),
        "server could not be verified: could not connect to game server auth"
    );
}
