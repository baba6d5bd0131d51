use northstar_master_server::registry::{
    AddServerError, Server, ServerList, ServerSettings, UpdateServerParam,
};

fn settings(port: u16, auth_port: u16, password: Option<&str>) -> ServerSettings {
    ServerSettings {
        port,
        auth_port,
        name: "X".to_string(),
        description: "Y".to_string(),
        map: "mp_eden".to_string(),
        playlist: "tdm".to_string(),
        max_players: 8,
        password: password.map(|p| p.to_string()),
    }
}

const HOST: u128 = 0xcb00_7107;

#[test]
fn host_cap_rejects_one_server_too_many() {
    let mut reg = ServerList::new(3);
    for i in 0..3 {
        let s = Server::new(HOST, settings(37015 + i, 8081 + i, None), None, 0);
        assert!(reg.push(s).is_ok());
    }
    let s = Server::new(HOST, settings(37020, 8090, None), None, 0);
    assert!(matches!(
        reg.push(s),
        Err(AddServerError::MaximumServersForHost)
    ));
    // Another host is not affected by this host's quota.
    let s = Server::new(HOST + 1, settings(37015, 8081, None), None, 0);
    assert!(reg.push(s).is_ok());
}

#[test]
fn same_auth_port_on_one_host_is_rejected() {
    let mut reg = ServerList::new(10);
    let first = Server::new(HOST, settings(37015, 8081, None), None, 0);
    assert!(reg.push(first).is_ok());
    let second = Server::new(HOST, settings(37016, 8081, None), None, 0);
    assert!(matches!(
        reg.push(second),
        Err(AddServerError::ConflictingAuthPort)
    ));
    // The same auth port on another host is fine.
    let other = Server::new(HOST + 1, settings(37016, 8081, None), None, 0);
    assert!(reg.push(other).is_ok());
}

#[test]
fn same_game_port_replaces_the_stale_entry() {
    let mut reg = ServerList::new(10);
    let first = Server::new(HOST, settings(37015, 8081, None), None, 0);
    let first_id = first.id;
    assert!(reg.push(first).is_ok());
    // Same game port, same auth port: a restart in place. The stale entry is
    // evicted before the auth-port check, so this is admitted.
    let second = Server::new(HOST, settings(37015, 8081, None), None, 5);
    let second_id = second.id;
    assert!(reg.push(second).is_ok());
    assert!(reg.get(&first_id).is_none());
    assert!(reg.get(&second_id).is_some());
    assert_eq!(reg.servers.len(), 1);
}

#[test]
fn liveness_sweep_drops_stale_servers_from_both_indexes() {
    let mut reg = ServerList::new(10);
    let stale = Server::new(HOST, settings(37015, 8081, None), None, 0);
    let stale_id = stale.id;
    let fresh = Server::new(HOST, settings(37016, 8082, None), None, 250);
    let fresh_id = fresh.id;
    reg.push(stale).unwrap();
    reg.push(fresh).unwrap();
    // After five minutes of silence, the first server expires.
    reg.remove_inactive(301);
    assert!(reg.get(&stale_id).is_none());
    assert!(reg.get(&fresh_id).is_some());
    assert_eq!(reg.servers.len(), 1);
    for bucket in &reg.addresses {
        assert!(bucket.ids.iter().all(|i| i != &stale_id));
    }
}

#[test]
fn listing_filters_by_age_and_clamps_capacity() {
    let mut reg = ServerList::new(10);
    let mut s = Server::new(HOST, settings(37015, 8081, None), None, 100);
    s.settings.max_players = 999;
    s.player_count = Some(500);
    let fresh_id = s.id;
    reg.push(s).unwrap();
    let old = Server::new(HOST, settings(37016, 8082, None), None, 30);
    reg.push(old).unwrap();
    // At time 120 the first server is 20 seconds old, the second 90.
    let entries = reg.listing(120);
    assert_eq!(entries.len(), 1);
    assert_eq!(entries[0].id, fresh_id);
    assert_eq!(entries[0].max_players, 32);
    assert_eq!(entries[0].player_count, 32);
    assert!(!entries[0].has_password);
    assert!(entries.len() <= reg.servers.len());
}

#[test]
fn listing_reports_unknown_player_count_as_zero() {
    let mut reg = ServerList::new(10);
    let s = Server::new(HOST, settings(37015, 8081, Some("pw")), None, 0);
    reg.push(s).unwrap();
    let entries = reg.listing(10);
    assert_eq!(entries.len(), 1);
    assert_eq!(entries[0].player_count, 0);
    assert_eq!(entries[0].max_players, 8);
    assert!(entries[0].has_password);
    assert_eq!(entries[0].name, "X");
    assert_eq!(entries[0].map, "mp_eden");
    assert!(entries[0].mod_info.mods.is_empty());
}

#[test]
fn both_indexes_stay_consistent() {
    let mut reg = ServerList::new(10);
    let a = Server::new(HOST, settings(37015, 8081, None), None, 0);
    let b = Server::new(HOST, settings(37016, 8082, None), None, 0);
    let c = Server::new(HOST + 9, settings(37015, 8081, None), None, 0);
    let b_id = b.id;
    reg.push(a).unwrap();
    reg.push(b).unwrap();
    reg.push(c).unwrap();
    // Every server is indexed under its host, and every indexed identifier
    // resolves to a server at that host.
    for s in &reg.servers {
        let bucket = reg.addresses.iter().find(|bk| bk.ip == s.ip).unwrap();
        assert!(bucket.ids.iter().any(|i| i == &s.id));
    }
    for bucket in &reg.addresses {
        for id in &bucket.ids {
            let s = reg.get(id).unwrap();
            assert_eq!(s.ip(), bucket.ip);
        }
    }
    reg.remove(&b_id);
    assert!(reg.get(&b_id).is_none());
    for bucket in &reg.addresses {
        assert!(!bucket.ids.iter().any(|i| i == &b_id));
        assert!(!bucket.ids.is_empty());
    }
}

fn update_with(id: northstar_master_server::id::UniqueId) -> UpdateServerParam {
    UpdateServerParam {
        id,
        port: None,
        auth_port: None,
        name: None,
        description: None,
        map: None,
        playlist: None,
        max_players: None,
        password: None,
        player_count: None,
    }
}

#[test]
fn deregistration_requires_the_servers_own_host() {
    let mut reg = ServerList::new(10);
    let s = Server::new(HOST, settings(37015, 8081, None), None, 0);
    let id = s.id;
    reg.push(s).unwrap();
    assert!(!reg.deregister(&id, HOST + 1));
    assert!(reg.get(&id).is_some());
    assert!(reg.deregister(&id, HOST));
    assert!(reg.get(&id).is_none());
    assert!(!reg.deregister(&id, HOST));
}

#[test]
fn update_requires_the_servers_own_host() {
    let mut reg = ServerList::new(10);
    let s = Server::new(HOST, settings(37015, 8081, None), None, 0);
    let id = s.id;
    reg.push(s).unwrap();
    let mut param = update_with(id);
    param.name = Some("renamed".to_string());
    assert!(!reg.update(param, HOST + 1, 50));
    assert_eq!(reg.get(&id).unwrap().settings.name, "X");
    let mut param = update_with(id);
    param.name = Some("renamed".to_string());
    assert!(reg.update(param, HOST, 50));
    let after = reg.get(&id).unwrap();
    assert_eq!(after.settings.name, "renamed");
    assert_eq!(after.last_seen, 50);
}

#[test]
fn empty_password_update_removes_the_password() {
    let mut reg = ServerList::new(10);
    let s = Server::new(HOST, settings(37015, 8081, Some("secret")), None, 0);
    let id = s.id;
    reg.push(s).unwrap();
    assert!(reg.get(&id).unwrap().check_password(Some("secret")));
    assert!(!reg.get(&id).unwrap().check_password(Some("wrong")));
    assert!(!reg.get(&id).unwrap().check_password(None));
    let mut param = update_with(id);
    param.password = Some(String::new());
    assert!(reg.update(param, HOST, 10));
    // Without a password, any login attempt passes the check.
    assert!(reg.get(&id).unwrap().check_password(None));
    assert!(reg.get(&id).unwrap().check_password(Some("anything")));
    // A non-empty update sets a new password.
    let mut param = update_with(id);
    param.password = Some("next".to_string());
    assert!(reg.update(param, HOST, 20));
    assert!(reg.get(&id).unwrap().check_password(Some("next")));
    assert!(!reg.get(&id).unwrap().check_password(Some("secret")));
}
