//! The authentication broker: platform-to-master, master-to-self and
//! master-to-game-server flows, server registration, and the persistence
//! upload, each as a state transition against the account store and the
//! registry. The embedding performs the outbound calls and hands their
//! outcomes back as plain values.

use vstd::prelude::*;
use vstd::string::{StrSliceExecFns, StringExecFns};

use crate::account::{has_account, AccountId, AccountRepository};
use crate::envelope::ApiErrorKind;
use crate::id::{hex_digit, hex_of, UniqueId};
use crate::probe::VerifyServerError;
use crate::registry::{
    has_id, spec_password_ok, AddServerError, HostIp, ModInfo, Server, ServerList, ServerSettings,
};
use crate::strutil::{contains_seq, str_contains};

verus! {

// ---------------------------------------------------------------------------
// Text helpers: upper-case hexadecimal and decimal renderings.
// ---------------------------------------------------------------------------
/// The uppercase hexadecimal digit for a value below sixteen.
pub open spec fn upper_digit(n: int) -> char {
    if n == 0 {
        '0'
    } else if n == 1 {
        '1'
    } else if n == 2 {
        '2'
    } else if n == 3 {
        '3'
    } else if n == 4 {
        '4'
    } else if n == 5 {
        '5'
    } else if n == 6 {
        '6'
    } else if n == 7 {
        '7'
    } else if n == 8 {
        '8'
    } else if n == 9 {
        '9'
    } else if n == 10 {
        'A'
    } else if n == 11 {
        'B'
    } else if n == 12 {
        'C'
    } else if n == 13 {
        'D'
    } else if n == 14 {
        'E'
    } else {
        'F'
    }
}

/// The value of the four bits of `x` starting at nibble position `i`, most
/// significant first.
pub open spec fn nibble64(x: u64, i: int) -> int {
    ((x >> ((60 - 4 * i) as u64)) & 0xf) as int
}

/// The 16 uppercase hexadecimal digits of a 64-bit value, as eight big-endian
/// bytes read two digits each.
pub open spec fn upper_hex_u64(x: u64) -> Seq<char> {
    Seq::new(16, |i: int| upper_digit(nibble64(x, i)))
}

fn push_upper_digit(s: &mut String, n: u8)
    requires
        n < 16,
    ensures
        final(s)@ == old(s)@.push(upper_digit(n as int)),
{
    let d: &str = match n {
        0 => "0",
        1 => "1",
        2 => "2",
        3 => "3",
        4 => "4",
        5 => "5",
        6 => "6",
        7 => "7",
        8 => "8",
        9 => "9",
        10 => "A",
        11 => "B",
        12 => "C",
        13 => "D",
        14 => "E",
        _ => "F",
    };
    proof {
        reveal_strlit("0");
        reveal_strlit("1");
        reveal_strlit("2");
        reveal_strlit("3");
        reveal_strlit("4");
        reveal_strlit("5");
        reveal_strlit("6");
        reveal_strlit("7");
        reveal_strlit("8");
        reveal_strlit("9");
        reveal_strlit("A");
        reveal_strlit("B");
        reveal_strlit("C");
        reveal_strlit("D");
        reveal_strlit("E");
        reveal_strlit("F");
        assert(d@.len() == 1 && d@[0] == upper_digit(n as int));
        assert(old(s)@ + d@ =~= old(s)@.push(upper_digit(n as int)));
    }
    s.append(d);
}

/// Renders a 64-bit value as 16 uppercase hexadecimal digits.
pub fn upper_hex_of_u64(x: u64) -> (r: String)
    ensures
        r@ == upper_hex_u64(x),
{
    let mut s = String::new();
    let mut i: usize = 0;
    while i < 16
        invariant
            i <= 16,
            s@ == upper_hex_u64(x).take(i as int),
        decreases 16 - i,
    {
        let shift: u64 = 60 - 4 * (i as u64);
        let d = ((x >> shift) & 0xf) as u8;
        proof {
            assert((x >> shift) & 0xf < 16) by (bit_vector);
            assert(d as int == nibble64(x, i as int));
        }
        push_upper_digit(&mut s, d);
        proof {
            assert(s@ =~= upper_hex_u64(x).take(i as int + 1));
        }
        i += 1;
    }
    proof {
        assert(upper_hex_u64(x).take(16) =~= upper_hex_u64(x));
    }
    s
}

/// The decimal digits of a non-negative number, most significant first.
pub open spec fn dec_of(n: int) -> Seq<char>
    decreases n,
{
    if n < 10 {
        seq![hex_digit(if n < 0 { 0 } else { n })]
    } else {
        dec_of(n / 10).push(hex_digit(n % 10))
    }
}

/// Renders a 32-bit number in decimal.
pub fn u32_decimal(n: u32) -> (r: String)
    ensures
        r@ == dec_of(n as int),
    decreases n,
{
    if n < 10 {
        let mut s = String::new();
        crate::id::push_hex_digit(&mut s, (n % 10) as u8);
        proof {
            assert(s@ =~= dec_of(n as int));
        }
        s
    } else {
        let mut s = u32_decimal(n / 10);
        crate::id::push_hex_digit(&mut s, (n % 10) as u8);
        s
    }
}

// ---------------------------------------------------------------------------
// Platform to master: the oracle request and its verdict.
// ---------------------------------------------------------------------------
/// Ways platform authentication can fail.
#[derive(Debug)]
pub enum OriginAuthenticationError {
    /// The platform oracle could not be reached or answered unusably.
    StryderError,
    /// The oracle answered, but the account does not own the game.
    NoGame,
}

impl ApiErrorKind for OriginAuthenticationError {
    open spec fn kind_spec(&self) -> Seq<char> {
        match self {
            OriginAuthenticationError::StryderError => "STRYDER_RESPONSE"@,
            OriginAuthenticationError::NoGame => "UNAUTHORIZED_GAME"@,
        }
    }

    open spec fn message_spec(&self) -> Seq<char> {
        match self {
            OriginAuthenticationError::StryderError => "error while communicating with stryder api"@,
            OriginAuthenticationError::NoGame => "you do not appear to own Titanfall 2"@,
        }
    }

    fn kind(&self) -> (s: &'static str) {
        match self {
            OriginAuthenticationError::StryderError => "STRYDER_RESPONSE",
            OriginAuthenticationError::NoGame => "UNAUTHORIZED_GAME",
        }
    }

    fn message(&self) -> (s: String) {
        match self {
            OriginAuthenticationError::StryderError => String::from_str(
                "error while communicating with stryder api",
            ),
            OriginAuthenticationError::NoGame => String::from_str(
                "you do not appear to own Titanfall 2",
            ),
        }
    }
}

/// The canonical parameter set of an oracle request.
pub struct StryderParam {
    pub qt: String,
    pub kind: String,
    pub code: String,
    pub force_trial: u32,
    pub proto: u32,
    pub json: u32,
    pub env: String,
    pub user_id: String,
}

/// Builds the canonical oracle request for an account and its platform code.
pub fn stryder_params(id: AccountId, code: String) -> (r: StryderParam)
    ensures
        r.qt@ == "origin-requesttoken"@,
        r.kind@ == "server_token"@,
        r.code == code,
        r.force_trial == 0,
        r.proto == 0,
        r.json == 1,
        r.env@ == "production"@,
        r.user_id@ == upper_hex_u64(id.0 as u64),
{
    StryderParam {
        qt: String::from_str("origin-requesttoken"),
        kind: String::from_str("server_token"),
        code,
        force_trial: 0,
        proto: 0,
        json: 1,
        env: String::from_str("production"),
        user_id: upper_hex_of_u64(id.0 as u64),
    }
}

/// What the embedding observed from the platform oracle.
pub enum OracleOutcome {
    /// The oracle could not be reached or its answer could not be read.
    NetworkError,
    /// The oracle answered with these two fields.
    Response { has_online_access: char, store_uri: String },
}

/// Whether an oracle answer attests ownership of the game.
pub open spec fn spec_oracle_accepts(o: OracleOutcome) -> bool {
    o matches OracleOutcome::Response { has_online_access, store_uri } && has_online_access == '1'
        && contains_seq(store_uri@, "titanfall-2"@)
}

/// Whether an oracle answer attests ownership of the game: online access is
/// granted and the store address names the title.
pub fn oracle_accepts(has_online_access: char, store_uri: &str) -> (r: bool)
    ensures
        r == (has_online_access == '1' && contains_seq(store_uri@, "titanfall-2"@)),
{
    has_online_access == '1' && str_contains(store_uri, "titanfall-2")
}

/// Completes platform authentication once the oracle has answered: on an
/// attested answer, creates the account if missing and issues a fresh session
/// token bound to the requesting host; otherwise reports why not.
pub fn origin_auth_finish(
    table: &mut AccountRepository,
    id: AccountId,
    ip: HostIp,
    now: u64,
    outcome: &OracleOutcome,
) -> (r: Result<UniqueId, OriginAuthenticationError>)
    requires
        old(table).wf(),
    ensures
        final(table).wf(),
        final(table).default_blob == old(table).default_blob,
        outcome is NetworkError ==> r == Err::<UniqueId, OriginAuthenticationError>(
            OriginAuthenticationError::StryderError,
        ) && *final(table) == *old(table),
        (outcome is Response && !spec_oracle_accepts(*outcome)) ==> r == Err::<
            UniqueId,
            OriginAuthenticationError,
        >(OriginAuthenticationError::NoGame) && *final(table) == *old(table),
        spec_oracle_accepts(*outcome) ==> (r matches Ok(tok) && {
            &&& final(table).rows@.len() == (if has_account(old(table).rows@, id) {
                old(table).rows@.len()
            } else {
                old(table).rows@.len() + 1
            })
            &&& exists|i: int|
                0 <= i < final(table).rows@.len() && #[trigger] final(table).rows@[i].id == id && (
                final(table).rows@[i].token matches Some(t) && t@ == tok@) && final(table).rows@[i].token_created == Some(now) && final(table).rows@[i].last_auth_ip == Some(
                    ip,
                ) && (forall|j: int|
                    0 <= j < final(table).rows@.len() && j != i ==> j < old(table).rows@.len()
                        && #[trigger] final(table).rows@[j] == old(table).rows@[j])
        }),
{
    let accepted = match outcome {
        OracleOutcome::NetworkError => {
            return Err(OriginAuthenticationError::StryderError);
        },
        OracleOutcome::Response { has_online_access, store_uri } => {
            oracle_accepts(*has_online_access, store_uri.as_str())
        },
    };
    if !accepted {
        return Err(OriginAuthenticationError::NoGame);
    }
    let existed = table.account_exists(id);
    if !existed {
        match table.create(id) {
            Ok(_) => {},
            Err(_) => {
                proof {
                    assert(false);
                }
            },
        }
        proof {
            assert(has_account(table.rows@, id)) by {
                assert(table.rows@.last().id == id);
            }
        }
    }
    let ghost mid = *table;
    let tok = table.create_token(id, ip, now);
    proof {
        let i = choose|i: int|
            0 <= i < mid.rows@.len() && #[trigger] mid.rows@[i].id == id && {
                let row = table.rows@[i];
                &&& row.id == id
                &&& row.token matches Some(t) && t@ == tok@
                &&& row.token_created == Some(now)
                &&& row.last_auth_ip == Some(ip)
                &&& row.display_name == mid.rows@[i].display_name
                &&& row.current_server == mid.rows@[i].current_server
                &&& row.persistent_blob == mid.rows@[i].persistent_blob
                &&& forall|j: int|
                    0 <= j < mid.rows@.len() && j != i ==> #[trigger] table.rows@[j]
                        == mid.rows@[j]
            };
        assert(table.rows@[i].id == id);
        if existed {
            assert(mid == *old(table));
        } else {
            // The fresh row sits at the end; any earlier row with this
            // identity would have made the account exist already.
            assert(mid.rows@.len() == old(table).rows@.len() + 1);
            assert(i == old(table).rows@.len() as int) by {
                if i < old(table).rows@.len() {
                    assert(mid.rows@[i] == old(table).rows@[i]);
                    assert(has_account(old(table).rows@, id));
                }
            }
        }
        assert forall|j: int|
            0 <= j < table.rows@.len() && j != i implies j < old(table).rows@.len()
            && #[trigger] table.rows@[j] == old(table).rows@[j] by {
            assert(table.rows@[j] == mid.rows@[j]);
            if !existed {
                assert(mid.rows@[j] == old(table).rows@[j]);
            }
        }
    }
    Ok(tok)
}

// ---------------------------------------------------------------------------
// Master to self.
// ---------------------------------------------------------------------------
/// Ways self-authentication can fail.
#[derive(Debug)]
pub enum AuthenticateSelfError {
    /// The presented session token is not the account's current fresh token.
    InvalidToken,
}

impl ApiErrorKind for AuthenticateSelfError {
    open spec fn kind_spec(&self) -> Seq<char> {
        "INVALID_MASTERSERVER_TOKEN"@
    }

    open spec fn message_spec(&self) -> Seq<char> {
        "token is not valid"@
    }

    fn kind(&self) -> (s: &'static str) {
        "INVALID_MASTERSERVER_TOKEN"
    }

    fn message(&self) -> (s: String) {
        String::from_str("token is not valid")
    }
}

/// What a self-authenticated client receives: its identity in decimal, a
/// convenience token the master does not track, and its stored blob.
pub struct AuthenticateSelfResponse {
    pub id: String,
    pub auth_token: UniqueId,
    pub persistent_data: Vec<u8>,
}

/// Authenticates a client against its own account and hands it its stored
/// blob.
pub fn authenticate_self(
    table: &AccountRepository,
    id: AccountId,
    player_token: &UniqueId,
    now: u64,
) -> (r: Result<AuthenticateSelfResponse, AuthenticateSelfError>)
    requires
        table.wf(),
    ensures
        match r {
            Ok(resp) => table.spec_authenticate(id, player_token@, now) && resp.id@ == dec_of(
                id.0 as int,
            ) && exists|i: int|
                0 <= i < table.rows@.len() && #[trigger] table.rows@[i].id == id
                    && resp.persistent_data@ == table.spec_data_of(table.rows@[i]),
            Err(e) => e is InvalidToken && !table.spec_authenticate(id, player_token@, now),
        },
{
    if !table.authenticate(id, player_token, now) {
        return Err(AuthenticateSelfError::InvalidToken);
    }
    let data = match table.get_data(id) {
        Ok(d) => d,
        Err(_) => {
            proof {
                let w = choose|w: int|
                    0 <= w < table.rows@.len() && #[trigger] table.rows@[w].id == id
                        && crate::account::row_authenticates(table.rows@[w], player_token@, now);
                assert(false);
            }
            Vec::new()
        },
    };
    Ok(
        AuthenticateSelfResponse {
            id: u32_decimal(id.0),
            auth_token: UniqueId::new(),
            persistent_data: data,
        },
    )
}

// ---------------------------------------------------------------------------
// Master to game server.
// ---------------------------------------------------------------------------
/// Ways joining a game server can fail.
#[derive(Debug)]
pub enum AuthenticateError {
    /// The presented session token is not the account's current fresh token.
    InvalidToken,
    /// No game server with this identifier exists.
    NoServer,
    /// The password does not open this server.
    WrongPassword,
    /// The game server could not be reached.
    Connection,
    /// The game server did not respond correctly.
    WrongResponse,
}

impl ApiErrorKind for AuthenticateError {
    open spec fn kind_spec(&self) -> Seq<char> {
        match self {
            AuthenticateError::InvalidToken => "INVALID_MASTERSERVER_TOKEN"@,
            AuthenticateError::NoServer => "SERVER_NOT_FOUND"@,
            AuthenticateError::WrongPassword => "UNAUTHORIZED_PWD"@,
            AuthenticateError::Connection => "NO_GAMESERVER_RESPONSE"@,
            AuthenticateError::WrongResponse => "BAD_GAMESERVER_RESPONSE"@,
        }
    }

    open spec fn message_spec(&self) -> Seq<char> {
        match self {
            AuthenticateError::InvalidToken => "token is not valid"@,
            AuthenticateError::NoServer => "no game server with this id exists"@,
            AuthenticateError::WrongPassword => "password is incorrect"@,
            AuthenticateError::Connection => "couldn't connect to game server"@,
            AuthenticateError::WrongResponse => "game server didn't respond correctly"@,
        }
    }

    fn kind(&self) -> (s: &'static str) {
        match self {
            AuthenticateError::InvalidToken => "INVALID_MASTERSERVER_TOKEN",
            AuthenticateError::NoServer => "SERVER_NOT_FOUND",
            AuthenticateError::WrongPassword => "UNAUTHORIZED_PWD",
            AuthenticateError::Connection => "NO_GAMESERVER_RESPONSE",
            AuthenticateError::WrongResponse => "BAD_GAMESERVER_RESPONSE",
        }
    }

    fn message(&self) -> (s: String) {
        match self {
            AuthenticateError::InvalidToken => String::from_str("token is not valid"),
            AuthenticateError::NoServer => String::from_str("no game server with this id exists"),
            AuthenticateError::WrongPassword => String::from_str("password is incorrect"),
            AuthenticateError::Connection => String::from_str("couldn't connect to game server"),
            AuthenticateError::WrongResponse => String::from_str(
                "game server didn't respond correctly",
            ),
        }
    }
}

/// Everything the embedding needs to announce the joining player to the game
/// server: where to call, what to send, and what to answer the client with.
pub struct AuthBegin {
    pub account_id: AccountId,
    pub server_id: UniqueId,
    pub server_ip: HostIp,
    pub game_port: u16,
    pub auth_port: u16,
    pub server_auth_token: UniqueId,
    /// The first 20 hexadecimal characters of a freshly minted token; handed
    /// to the game server and to the client.
    pub auth_token: String,
    pub username: String,
    pub persistent_data: Vec<u8>,
}

/// The display name a joining player is announced under: the account's name,
/// or empty when it has none.
fn username_of(table: &AccountRepository, id: AccountId) -> (r: String)
    requires
        table.wf(),
        has_account(table.rows@, id),
    ensures
        exists|j: int|
            0 <= j < table.rows@.len() && #[trigger] table.rows@[j].id == id && r@ == (
            match table.rows@[j].display_name {
                Some(n) => n@,
                None => Seq::<char>::empty(),
            }),
{
    match table.get_name(id) {
        Ok(Some(n)) => {
            proof {
                let jn = choose|jn: int|
                    0 <= jn < table.rows@.len() && #[trigger] table.rows@[jn].id == id && Some(n)
                        == table.rows@[jn].display_name;
                assert(table.rows@[jn].display_name == Some(n));
            }
            n
        },
        Ok(None) => {
            let r = String::new();
            proof {
                let jn = choose|jn: int|
                    0 <= jn < table.rows@.len() && #[trigger] table.rows@[jn].id == id && None::<
                    String> == table.rows@[jn].display_name;
                assert(r@ =~= Seq::<char>::empty());
            }
            r
        },
        Err(_) => {
            proof {
                assert(false);
            }
            String::new()
        },
    }
}

/// Starts a join: verifies the session token, resolves the target server,
/// checks its password, mints the truncated join token and gathers what the
/// game server must be told.
pub fn auth_with_server_begin(
    table: &AccountRepository,
    registry: &ServerList,
    id: AccountId,
    player_token: &UniqueId,
    server_id: &UniqueId,
    password: Option<&str>,
    now: u64,
) -> (r: Result<AuthBegin, AuthenticateError>)
    requires
        table.wf(),
        registry.wf(),
    ensures
        match r {
            Ok(b) => {
                &&& table.spec_authenticate(id, player_token@, now)
                &&& b.account_id == id
                &&& b.server_id@ == server_id@
                &&& exists|i: int|
                    0 <= i < registry.servers@.len() && #[trigger] registry.servers@[i].id@
                        == server_id@ && spec_password_ok(
                        registry.servers@[i].settings.password,
                        match password {
                            Some(g) => Some(g@),
                            None => None::<Seq<char>>,
                        },
                    ) && b.server_ip == registry.servers@[i].ip && b.game_port
                        == registry.servers@[i].settings.port && b.auth_port
                        == registry.servers@[i].settings.auth_port && b.server_auth_token@
                        == registry.servers@[i].auth_token@
                &&& b.auth_token@.len() == 20
                &&& exists|bs: Seq<u8>| bs.len() == 16 && b.auth_token@ == #[trigger] hex_of(
                    bs,
                ).take(20)
                &&& exists|j: int|
                    0 <= j < table.rows@.len() && #[trigger] table.rows@[j].id == id
                        && b.username@ == (match table.rows@[j].display_name {
                        Some(n) => n@,
                        None => Seq::<char>::empty(),
                    }) && b.persistent_data@ == table.spec_data_of(table.rows@[j])
            },
            Err(AuthenticateError::InvalidToken) => !table.spec_authenticate(
                id,
                player_token@,
                now,
            ),
            Err(AuthenticateError::NoServer) => table.spec_authenticate(id, player_token@, now)
                && !has_id(registry.servers@, server_id@),
            Err(AuthenticateError::WrongPassword) => table.spec_authenticate(
                id,
                player_token@,
                now,
            ) && exists|i: int|
                0 <= i < registry.servers@.len() && #[trigger] registry.servers@[i].id@
                    == server_id@ && !spec_password_ok(
                    registry.servers@[i].settings.password,
                    match password {
                        Some(g) => Some(g@),
                        None => None::<Seq<char>>,
                    },
                ),
            Err(_) => false,
        },
{
    if !table.authenticate(id, player_token, now) {
        return Err(AuthenticateError::InvalidToken);
    }
    let server = match registry.get(server_id) {
        Some(s) => s,
        None => {
            return Err(AuthenticateError::NoServer);
        },
    };
    proof {
        let i = choose|i: int|
            0 <= i < registry.servers@.len() && #[trigger] registry.servers@[i] == *server;
    }
    if !server.check_password(password) {
        return Err(AuthenticateError::WrongPassword);
    }
    let tok = UniqueId::new();
    let hex = tok.to_hex();
    let truncated = hex.as_str().substring_char(0, 20).to_owned();
    proof {
        assert(hex@.subrange(0, 20) =~= hex_of(tok@).take(20));
    }
    proof {
        let w = choose|w: int|
            0 <= w < table.rows@.len() && #[trigger] table.rows@[w].id == id
                && crate::account::row_authenticates(table.rows@[w], player_token@, now);
        assert(has_account(table.rows@, id));
    }
    let username = username_of(table, id);
    let data = match table.get_data(id) {
        Ok(d) => d,
        Err(_) => {
            proof {
                assert(false);
            }
            Vec::new()
        },
    };
    proof {
        // The row that supplied the name and the row that supplied the data
        // are the same row: account identities are unique.
        let jn = choose|jn: int|
            0 <= jn < table.rows@.len() && #[trigger] table.rows@[jn].id == id && username@ == (
            match table.rows@[jn].display_name {
                Some(n) => n@,
                None => Seq::<char>::empty(),
            });
        let jd = choose|jd: int|
            0 <= jd < table.rows@.len() && #[trigger] table.rows@[jd].id == id && data@
                == table.spec_data_of(table.rows@[jd]);
        assert(jn == jd);
    }
    Ok(
        AuthBegin {
            account_id: id,
            server_id: *server_id,
            server_ip: server.ip(),
            game_port: server.game_port(),
            auth_port: server.auth_address().1,
            server_auth_token: server.auth_token(),
            auth_token: truncated,
            username,
            persistent_data: data,
        },
    )
}

/// What the embedding observed from the game server's player-intake call.
pub enum GameServerOutcome {
    /// No connection could be made.
    ConnectionError,
    /// The server answered, but not with a readable verdict.
    BadResponse,
    /// The server answered with this verdict.
    Responded { success: bool },
}

/// What a joining client receives: where to connect and the join token.
pub struct AuthenticateResponse {
    pub ip: HostIp,
    pub port: u16,
    pub auth_token: String,
}

/// Finishes a join once the game server has been told: on an accepting
/// answer, records the account's current server and hands the client its
/// connection data; otherwise reports why not.
pub fn auth_with_server_finish(
    table: &mut AccountRepository,
    begin: AuthBegin,
    outcome: &GameServerOutcome,
) -> (r: Result<AuthenticateResponse, AuthenticateError>)
    requires
        old(table).wf(),
    ensures
        final(table).wf(),
        outcome is ConnectionError ==> r == Err::<AuthenticateResponse, AuthenticateError>(
            AuthenticateError::Connection,
        ) && *final(table) == *old(table),
        outcome is BadResponse ==> r == Err::<AuthenticateResponse, AuthenticateError>(
            AuthenticateError::WrongResponse,
        ) && *final(table) == *old(table),
        (outcome matches GameServerOutcome::Responded { success } && !*success) ==> r == Err::<
            AuthenticateResponse,
            AuthenticateError,
        >(AuthenticateError::WrongResponse) && *final(table) == *old(table),
        final(table).default_blob == old(table).default_blob,
        (outcome matches GameServerOutcome::Responded { success } && *success) ==> (r matches Ok(
            resp,
        ) && resp.ip == begin.server_ip && resp.port == begin.game_port && resp.auth_token@
            == begin.auth_token@ && (!has_account(old(table).rows@, begin.account_id) ==> *final(table) == *old(table)) && (has_account(old(table).rows@, begin.account_id) ==> final(table).rows@.len() == old(table).rows@.len() && exists|i: int|
            0 <= i < old(table).rows@.len() && #[trigger] old(table).rows@[i].id
                == begin.account_id && {
                let row = final(table).rows@[i];
                &&& row.current_server matches Some(s) && s@ == begin.server_id@
                &&& row.id == begin.account_id
                &&& row.display_name == old(table).rows@[i].display_name
                &&& row.token == old(table).rows@[i].token
                &&& row.token_created == old(table).rows@[i].token_created
                &&& row.last_auth_ip == old(table).rows@[i].last_auth_ip
                &&& row.persistent_blob == old(table).rows@[i].persistent_blob
                &&& forall|j: int|
                    0 <= j < old(table).rows@.len() && j != i ==> #[trigger] final(table).rows@[j] == old(table).rows@[j]
            })),
{
    let success = match outcome {
        GameServerOutcome::ConnectionError => {
            return Err(AuthenticateError::Connection);
        },
        GameServerOutcome::BadResponse => {
            return Err(AuthenticateError::WrongResponse);
        },
        GameServerOutcome::Responded { success } => *success,
    };
    if !success {
        return Err(AuthenticateError::WrongResponse);
    }
    table.join_server(begin.account_id, &begin.server_id);
    Ok(
        AuthenticateResponse {
            ip: begin.server_ip,
            port: begin.game_port,
            auth_token: begin.auth_token,
        },
    )
}

// ---------------------------------------------------------------------------
// Persistence upload.
// ---------------------------------------------------------------------------
/// Ways a persistence upload can be rejected.
#[derive(Debug)]
pub enum WritePersistenceError {
    /// No account with the given identity.
    InvalidAccount,
    /// Neither the token's host nor the account's current server asked.
    NotPermitted,
    /// The blob does not have the canonical length.
    InvalidData,
    /// No blob was sent.
    MissingData,
}

impl ApiErrorKind for WritePersistenceError {
    open spec fn kind_spec(&self) -> Seq<char> {
        match self {
            WritePersistenceError::InvalidAccount => "PLAYER_NOT_FOUND"@,
            WritePersistenceError::NotPermitted => "UNAUTHORIZED_GAMESERVER"@,
            WritePersistenceError::InvalidData => "INVALID_PERSISTENT_DATA"@,
            WritePersistenceError::MissingData => "INVALID_PERSISTENT_DATA"@,
        }
    }

    open spec fn message_spec(&self) -> Seq<char> {
        match self {
            WritePersistenceError::InvalidAccount => "account does not exist"@,
            WritePersistenceError::NotPermitted => "this server is not allowed to update the persistent data"@,
            WritePersistenceError::InvalidData => "persistent data is invalid"@,
            WritePersistenceError::MissingData => "persistent data is missing"@,
        }
    }

    fn kind(&self) -> (s: &'static str) {
        match self {
            WritePersistenceError::InvalidAccount => "PLAYER_NOT_FOUND",
            WritePersistenceError::NotPermitted => "UNAUTHORIZED_GAMESERVER",
            WritePersistenceError::InvalidData => "INVALID_PERSISTENT_DATA",
            WritePersistenceError::MissingData => "INVALID_PERSISTENT_DATA",
        }
    }

    fn message(&self) -> (s: String) {
        match self {
            WritePersistenceError::InvalidAccount => String::from_str("account does not exist"),
            WritePersistenceError::NotPermitted => String::from_str(
                "this server is not allowed to update the persistent data",
            ),
            WritePersistenceError::InvalidData => String::from_str("persistent data is invalid"),
            WritePersistenceError::MissingData => String::from_str("persistent data is missing"),
        }
    }
}

/// Whether the row authorises this upload: the request comes from the host
/// the token was issued to, or from the host of the account's current server
/// as named by the request.
pub open spec fn spec_upload_allowed(
    row: crate::account::Account,
    registry: &ServerList,
    server_id: Seq<u8>,
    request_ip: HostIp,
) -> bool {
    ||| row.last_auth_ip == Some(request_ip)
    ||| ((row.current_server matches Some(cs) && cs@ == server_id) && exists|j: int|
        0 <= j < registry.servers@.len() && #[trigger] registry.servers@[j].id@ == server_id
            && registry.servers@[j].ip == request_ip)
}

/// Stores an uploaded blob for an account: the caller must be authorised, the
/// blob must be present and must have exactly the canonical length.
pub fn write_persistence(
    table: &mut AccountRepository,
    registry: &ServerList,
    id: AccountId,
    server_id: &UniqueId,
    request_ip: HostIp,
    blob: Option<Vec<u8>>,
) -> (r: Result<(), WritePersistenceError>)
    requires
        old(table).wf(),
        registry.wf(),
    ensures
        final(table).wf(),
        final(table).default_blob == old(table).default_blob,
        r is Err ==> *final(table) == *old(table),
        match r {
            Err(WritePersistenceError::InvalidAccount) => !has_account(old(table).rows@, id),
            Err(WritePersistenceError::NotPermitted) => exists|i: int|
                0 <= i < old(table).rows@.len() && #[trigger] old(table).rows@[i].id == id && (old(table).rows@[i].last_auth_ip is None || !spec_upload_allowed(
                    old(table).rows@[i],
                    registry,
                    server_id@,
                    request_ip,
                )),
            Err(WritePersistenceError::MissingData) => blob is None,
            Err(WritePersistenceError::InvalidData) => blob matches Some(b) && b@.len() != old(table).default_blob@.len(),
            Ok(_) => blob matches Some(b) && b@.len() == old(table).default_blob@.len() && final(table).rows@.len() == old(table).rows@.len() && exists|i: int|
                0 <= i < old(table).rows@.len() && #[trigger] old(table).rows@[i].id == id
                    && spec_upload_allowed(old(table).rows@[i], registry, server_id@, request_ip)
                    && {
                    let row = final(table).rows@[i];
                    &&& row.persistent_blob matches Some(nb) && nb@ == b@
                    &&& row.id == id
                    &&& row.display_name == old(table).rows@[i].display_name
                    &&& row.token == old(table).rows@[i].token
                    &&& row.token_created == old(table).rows@[i].token_created
                    &&& row.last_auth_ip == old(table).rows@[i].last_auth_ip
                    &&& row.current_server == old(table).rows@[i].current_server
                    &&& forall|j: int|
                        0 <= j < old(table).rows@.len() && j != i ==> #[trigger] final(table).rows@[j] == old(table).rows@[j]
                },
        },
{
    if !table.account_exists(id) {
        return Err(WritePersistenceError::InvalidAccount);
    }
    let auth = match table.get_auth(id) {
        Ok(a) => a,
        Err(_) => {
            return Err(WritePersistenceError::NotPermitted);
        },
    };
    let mut allowed = auth.last_auth_ip == request_ip;
    if !allowed {
        match &auth.current_server {
            Some(cs) => {
                if cs.eq(server_id) {
                    match registry.get(server_id) {
                        Some(srv) => {
                            if srv.ip() == request_ip {
                                proof {
                                    let j = choose|j: int|
                                        0 <= j < registry.servers@.len()
                                            && #[trigger] registry.servers@[j] == *srv;
                                }
                                allowed = true;
                            }
                        },
                        None => {},
                    }
                }
            },
            None => {},
        }
    }
    proof {
        // The row that `get_auth` spoke of is the unique row for this
        // account.
        let i = choose|i: int|
            0 <= i < table.rows@.len() && #[trigger] table.rows@[i].id == id
                && table.rows@[i].last_auth_ip == Some(auth.last_auth_ip) && (match (
                table.rows@[i].current_server,
                auth.current_server,
            ) {
                (Some(a), Some(b)) => a@ == b@,
                (None, None) => true,
                _ => false,
            });
        assert(allowed == spec_upload_allowed(table.rows@[i], registry, server_id@, request_ip));
        if allowed {
            assert(exists|ia: int|
                0 <= ia < table.rows@.len() && #[trigger] table.rows@[ia].id == id
                    && spec_upload_allowed(table.rows@[ia], registry, server_id@, request_ip));
        }
    }
    if !allowed {
        return Err(WritePersistenceError::NotPermitted);
    }
    let data = match blob {
        Some(d) => d,
        None => {
            return Err(WritePersistenceError::MissingData);
        },
    };
    if data.len() != table.default_blob.len() {
        return Err(WritePersistenceError::InvalidData);
    }
    let ghost pre = *table;
    table.set_data(id, data);
    proof {
        // The authorised row and the row `set_data` wrote are the same row:
        // account identities are unique.
        let ia = choose|ia: int|
            0 <= ia < pre.rows@.len() && #[trigger] pre.rows@[ia].id == id && spec_upload_allowed(
                pre.rows@[ia],
                registry,
                server_id@,
                request_ip,
            );
        let iw = choose|iw: int|
            0 <= iw < pre.rows@.len() && #[trigger] pre.rows@[iw].id == id && {
                let row = table.rows@[iw];
                &&& row.persistent_blob matches Some(b2) && b2@ == data@
                &&& row.id == id
                &&& row.display_name == pre.rows@[iw].display_name
                &&& row.token == pre.rows@[iw].token
                &&& row.token_created == pre.rows@[iw].token_created
                &&& row.last_auth_ip == pre.rows@[iw].last_auth_ip
                &&& row.current_server == pre.rows@[iw].current_server
                &&& forall|j: int|
                    0 <= j < pre.rows@.len() && j != iw ==> #[trigger] table.rows@[j]
                        == pre.rows@[j]
            };
        assert(ia == iw);
    }
    Ok(())
}

// ---------------------------------------------------------------------------
// Server registration.
// ---------------------------------------------------------------------------
/// Ways registering a server can fail.
#[derive(Debug)]
pub enum CreateServerError {
    /// The reachability check against the registrant's endpoint failed.
    Verification(VerifyServerError),
    /// The mod list could not be read.
    InvalidModInfo,
    /// The host already has as many servers registered as allowed.
    MaximumServersForHost,
    /// A surviving server of the host already uses this authentication port.
    ConflictingAuthPort,
    /// The minted identifier collided with a registered one.
    IdCollision,
}

impl ApiErrorKind for CreateServerError {
    open spec fn kind_spec(&self) -> Seq<char> {
        match self {
            CreateServerError::Verification(e) => e.kind_spec(),
            CreateServerError::InvalidModInfo => "INVALID_MOD_INFO"@,
            CreateServerError::MaximumServersForHost => "MAX_SERVERS_FOR_IP"@,
            CreateServerError::ConflictingAuthPort => "BAD_GAMESERVER_RESPONSE"@,
            CreateServerError::IdCollision => "UNKNOWN"@,
        }
    }

    open spec fn message_spec(&self) -> Seq<char> {
        match self {
            CreateServerError::Verification(e) => "server could not be verified: "@
                + e.message_spec(),
            CreateServerError::InvalidModInfo => "mod info is invalid"@,
            CreateServerError::MaximumServersForHost => "too many servers already registered on this host"@,
            CreateServerError::ConflictingAuthPort => "a server on this host already uses this auth port"@,
            CreateServerError::IdCollision => "an unexpected error occured"@,
        }
    }

    fn kind(&self) -> (s: &'static str) {
        match self {
            CreateServerError::Verification(e) => e.kind(),
            CreateServerError::InvalidModInfo => "INVALID_MOD_INFO",
            CreateServerError::MaximumServersForHost => "MAX_SERVERS_FOR_IP",
            CreateServerError::ConflictingAuthPort => "BAD_GAMESERVER_RESPONSE",
            CreateServerError::IdCollision => "UNKNOWN",
        }
    }

    fn message(&self) -> (s: String) {
        match self {
            CreateServerError::Verification(e) => String::from_str(
                "server could not be verified: ",
            ).concat(e.message().as_str()),
            CreateServerError::InvalidModInfo => String::from_str("mod info is invalid"),
            CreateServerError::MaximumServersForHost => String::from_str(
                "too many servers already registered on this host",
            ),
            CreateServerError::ConflictingAuthPort => String::from_str(
                "a server on this host already uses this auth port",
            ),
            CreateServerError::IdCollision => String::from_str("an unexpected error occured"),
        }
    }
}

/// What a successful registration returns: the server's identifier and its
/// authentication token, both as hexadecimal text.
#[derive(Debug)]
pub struct CreateServerResponse {
    pub id: String,
    pub server_auth_token: String,
}

/// Registers a server once its endpoint has been probed and its mod list
/// read: mints the record, admits it into the registry and returns its
/// identifier and authentication token.
pub fn register_server(
    registry: &mut ServerList,
    ip: HostIp,
    settings: ServerSettings,
    mod_info: Result<Option<ModInfo>, ()>,
    probe: Result<(), VerifyServerError>,
    now: u64,
) -> (r: Result<CreateServerResponse, CreateServerError>)
    requires
        old(registry).wf(),
    ensures
        final(registry).wf(),
        r is Err ==> *final(registry) == *old(registry),
        match r {
            Err(CreateServerError::Verification(e)) => probe == Err::<(), VerifyServerError>(e),
            Err(CreateServerError::InvalidModInfo) => probe is Ok && mod_info is Err,
            Err(CreateServerError::MaximumServersForHost) => probe is Ok && mod_info is Ok && old(registry).host_full(ip),
            Err(CreateServerError::ConflictingAuthPort) => probe is Ok && mod_info is Ok && !old(registry).host_full(ip) && old(registry).auth_port_conflict(
                ip,
                settings.auth_port,
                settings.port,
            ),
            Err(CreateServerError::IdCollision) => probe is Ok && mod_info is Ok && !old(registry).host_full(ip) && !old(registry).auth_port_conflict(
                ip,
                settings.auth_port,
                settings.port,
            ) && old(registry).servers@.len() > 0,
            Ok(resp) => probe is Ok && mod_info is Ok && !old(registry).host_full(ip) && !old(registry).auth_port_conflict(ip, settings.auth_port, settings.port) && exists|i: int|
                0 <= i < final(registry).servers@.len() && #[trigger] final(registry).servers@[i].ip
                    == ip && final(registry).servers@[i].settings == settings && final(registry).servers@[i].last_seen == now && resp.id@ == hex_of(
                    final(registry).servers@[i].id@,
                ) && resp.server_auth_token@ == hex_of(final(registry).servers@[i].auth_token@),
        },
{
    match probe {
        Ok(_) => {},
        Err(e) => {
            return Err(CreateServerError::Verification(e));
        },
    }
    let mods = match mod_info {
        Ok(m) => m,
        Err(_) => {
            return Err(CreateServerError::InvalidModInfo);
        },
    };
    let server = Server::new(ip, settings, mods, now);
    let response = CreateServerResponse {
        id: server.id.to_hex(),
        server_auth_token: server.auth_token.to_hex(),
    };
    let ghost srv = server;
    match registry.push(server) {
        Ok(_) => {
            proof {
                let i = choose|i: int|
                    0 <= i < registry.servers@.len() && #[trigger] registry.servers@[i] == srv;
            }
            Ok(response)
        },
        Err(AddServerError::MaximumServersForHost) => Err(CreateServerError::MaximumServersForHost),
        Err(AddServerError::ConflictingAuthPort) => Err(CreateServerError::ConflictingAuthPort),
        Err(AddServerError::IdCollision) => {
            proof {
                // A collision presupposes a registered server carrying the
                // drawn identifier.
                let w = choose|w: int|
                    0 <= w < registry.servers@.len() && #[trigger] registry.servers@[w].id@
                        == srv.id@;
            }
            Err(CreateServerError::IdCollision)
        },
    }
}

} // verus!
