//! Durable per-account state: session token, authentication host, current
//! server and the persistent progression blob.

use vstd::prelude::*;

use crate::id::UniqueId;
use crate::registry::HostIp;

verus! {

/// A session token outlives its issue by at most this many seconds.
pub const TOKEN_TTL_SECS: u64 = 86400;

/// The externally assigned platform identity of an account.
#[derive(Clone, Copy, Debug, PartialEq, Eq, Structural, Hash)]
pub struct AccountId(pub u32);

/// Ways a store operation can fail.
#[derive(Clone, Copy, Debug, PartialEq, Eq, Structural)]
pub enum StoreError {
    /// No row with the given account identity.
    NotFound,
    /// A row with the given account identity already exists.
    Duplicate,
}

/// One account row.
pub struct Account {
    pub id: AccountId,
    pub display_name: Option<String>,
    /// The current master-server session token; replaced on each platform
    /// re-authentication.
    pub token: Option<UniqueId>,
    /// When the current token was issued, in seconds.
    pub token_created: Option<u64>,
    /// The host the current token was issued to.
    pub last_auth_ip: Option<HostIp>,
    /// The server the account last joined through the broker; advisory.
    pub current_server: Option<UniqueId>,
    /// The stored progression blob; opaque to the store.
    pub persistent_blob: Option<Vec<u8>>,
}

/// When a token is present, its issue time and issuing host are present too.
pub open spec fn account_wf(a: Account) -> bool {
    a.token is Some ==> a.token_created is Some && a.last_auth_ip is Some
}

/// Whether one row authenticates a probe token at a given time: the token
/// matches and was issued less than its lifetime ago.
pub open spec fn row_authenticates(a: Account, tok: Seq<u8>, now: u64) -> bool {
    &&& a.token matches Some(t) && t@ == tok
    &&& a.token_created matches Some(tc) && (now as int) < tc + TOKEN_TTL_SECS
}

/// Whether the repository holds a row for this account.
pub open spec fn has_account(rows: Seq<Account>, id: AccountId) -> bool {
    exists|i: int| 0 <= i < rows.len() && #[trigger] rows[i].id == id
}

/// The auth-relevant part of an account row, for persistence authorisation.
pub struct PersistenceAuthData {
    pub current_server: Option<UniqueId>,
    pub last_auth_ip: HostIp,
}

/// Copies a byte vector.
fn copy_bytes(v: &Vec<u8>) -> (r: Vec<u8>)
    ensures
        r@ == v@,
{
    let mut r: Vec<u8> = Vec::new();
    let mut i: usize = 0;
    while i < v.len()
        invariant
            i <= v@.len(),
            r@ == v@.take(i as int),
        decreases v@.len() - i,
    {
        r.push(v[i]);
        proof {
            assert(v@.take(i as int).push(v@[i as int]) =~= v@.take(i as int + 1));
        }
        i += 1;
    }
    proof {
        assert(v@.take(v@.len() as int) =~= v@);
    }
    r
}

/// The account repository: the verified model of the durable store. The
/// embedding persists it; the rules below are what every operation
/// guarantees.
pub struct AccountRepository {
    pub rows: Vec<Account>,
    /// The canonical default blob, loaded once at startup; its length is the
    /// only accepted length for any persisted blob.
    pub default_blob: Vec<u8>,
}

impl AccountRepository {
    /// Account identities are unique and every row is well formed.
    pub open spec fn wf(&self) -> bool {
        &&& forall|i: int, j: int|
            0 <= i < j < self.rows@.len() ==> #[trigger] self.rows@[i].id != #[trigger] self.rows@[j].id
        &&& forall|i: int| 0 <= i < self.rows@.len() ==> account_wf(#[trigger] self.rows@[i])
    }

    /// Whether a probe token authenticates this account at this time.
    pub open spec fn spec_authenticate(&self, id: AccountId, tok: Seq<u8>, now: u64) -> bool {
        exists|i: int|
            0 <= i < self.rows@.len() && #[trigger] self.rows@[i].id == id && row_authenticates(
                self.rows@[i],
                tok,
                now,
            )
    }

    /// An empty repository over the given canonical default blob.
    pub fn new(default_blob: Vec<u8>) -> (r: AccountRepository)
        ensures
            r.wf(),
            r.rows@.len() == 0,
            r.default_blob@ == default_blob@,
    {
        AccountRepository { rows: Vec::new(), default_blob }
    }

    fn account_index(&self, id: AccountId) -> (r: Option<usize>)
        ensures
            match r {
                Some(i) => i < self.rows@.len() && self.rows@[i as int].id == id,
                None => !has_account(self.rows@, id),
            },
    {
        let mut i: usize = 0;
        while i < self.rows.len()
            invariant
                i <= self.rows@.len(),
                forall|j: int| 0 <= j < i ==> #[trigger] self.rows@[j].id != id,
            decreases self.rows@.len() - i,
        {
            if self.rows[i].id.0 == id.0 {
                return Some(i);
            }
            i += 1;
        }
        None
    }

    /// Whether an account with this identity exists.
    pub fn account_exists(&self, id: AccountId) -> (r: bool)
        ensures
            r == has_account(self.rows@, id),
    {
        match self.account_index(id) {
            Some(_) => true,
            None => false,
        }
    }

    /// Inserts an empty account; fails if the identity is already present.
    pub fn create(&mut self, id: AccountId) -> (r: Result<(), StoreError>)
        requires
            old(self).wf(),
        ensures
            final(self).wf(),
            final(self).default_blob == old(self).default_blob,
            match r {
                Ok(_) => {
                    &&& !has_account(old(self).rows@, id)
                    &&& final(self).rows@.len() == old(self).rows@.len() + 1
                    &&& forall|i: int|
                        0 <= i < old(self).rows@.len() ==> #[trigger] final(self).rows@[i] == old(self).rows@[i]
                    &&& final(self).rows@.last().id == id
                    &&& final(self).rows@.last().display_name is None
                    &&& final(self).rows@.last().token is None
                    &&& final(self).rows@.last().token_created is None
                    &&& final(self).rows@.last().last_auth_ip is None
                    &&& final(self).rows@.last().current_server is None
                    &&& final(self).rows@.last().persistent_blob is None
                },
                Err(e) => e == StoreError::Duplicate && has_account(old(self).rows@, id)
                    && *final(self) == *old(self),
            },
    {
        match self.account_index(id) {
            Some(_) => {
                proof {
                    assert(has_account(self.rows@, id));
                }
                Err(StoreError::Duplicate)
            },
            None => {
                self.rows.push(
                    Account {
                        id,
                        display_name: None,
                        token: None,
                        token_created: None,
                        last_auth_ip: None,
                        current_server: None,
                        persistent_blob: None,
                    },
                );
                Ok(())
            },
        }
    }

    /// Issues a fresh session token to an account: stores the token, its
    /// issue time and the requesting host, overwriting any prior token, and
    /// returns it. Without a row for the identity nothing is stored; the
    /// token is returned regardless, as the store of record sees no row to
    /// update.
    pub fn create_token(&mut self, id: AccountId, ip: HostIp, now: u64) -> (r: UniqueId)
        requires
            old(self).wf(),
        ensures
            final(self).wf(),
            final(self).default_blob == old(self).default_blob,
            !has_account(old(self).rows@, id) ==> *final(self) == *old(self),
            has_account(old(self).rows@, id) ==> {
                &&& final(self).rows@.len() == old(self).rows@.len()
                &&& exists|i: int|
                    0 <= i < old(self).rows@.len() && #[trigger] old(self).rows@[i].id == id && {
                        let row = final(self).rows@[i];
                        &&& row.id == id
                        &&& row.token matches Some(t) && t@ == r@
                        &&& row.token_created == Some(now)
                        &&& row.last_auth_ip == Some(ip)
                        &&& row.display_name == old(self).rows@[i].display_name
                        &&& row.current_server == old(self).rows@[i].current_server
                        &&& row.persistent_blob == old(self).rows@[i].persistent_blob
                        &&& forall|j: int|
                            0 <= j < old(self).rows@.len() && j != i ==> #[trigger] final(self).rows@[j] == old(self).rows@[j]
                    }
            },
    {
        let token = UniqueId::new();
        let idx = match self.account_index(id) {
            Some(i) => i,
            None => {
                return token;
            },
        };
        let ghost pre = *self;
        let mut row = self.rows.remove(idx);
        row.token = Some(token);
        row.token_created = Some(now);
        row.last_auth_ip = Some(ip);
        self.rows.insert(idx, row);
        proof {
            pre.rows@.remove_ensures(idx as int);
            pre.rows@.remove(idx as int).insert_ensures(idx as int, row);
            assert forall|j: int|
                0 <= j < pre.rows@.len() && j != idx as int implies #[trigger] self.rows@[j]
                == pre.rows@[j] by {
                if j < idx as int {
                    assert(self.rows@[j] == pre.rows@.remove(idx as int)[j]);
                } else {
                    assert(self.rows@[j] == pre.rows@.remove(idx as int)[j - 1]);
                }
            }
            assert(self.rows@[idx as int] == row);
            assert(pre.rows@[idx as int].id == id);
        }
        token
    }

    /// Whether the probe token is the account's current session token and
    /// still fresh.
    pub fn authenticate(&self, id: AccountId, token: &UniqueId, now: u64) -> (r: bool)
        requires
            self.wf(),
        ensures
            r == self.spec_authenticate(id, token@, now),
    {
        let idx = match self.account_index(id) {
            Some(i) => i,
            None => {
                return false;
            },
        };
        let row = &self.rows[idx];
        let fresh_ok = match &row.token {
            Some(t) => {
                if t.eq(token) {
                    match row.token_created {
                        Some(tc) => now <= tc || now - tc < TOKEN_TTL_SECS,
                        None => false,
                    }
                } else {
                    false
                }
            },
            None => false,
        };
        proof {
            if fresh_ok {
                assert(row_authenticates(self.rows@[idx as int], token@, now));
            } else {
                if self.spec_authenticate(id, token@, now) {
                    let w = choose|w: int|
                        0 <= w < self.rows@.len() && #[trigger] self.rows@[w].id == id
                            && row_authenticates(self.rows@[w], token@, now);
                    assert(w == idx as int);
                    assert(false);
                }
            }
        }
        fresh_ok
    }

    /// The display name of an account, or nothing when it has none.
    pub fn get_name(&self, id: AccountId) -> (r: Result<Option<String>, StoreError>)
        ensures
            match r {
                Ok(n) => exists|i: int|
                    0 <= i < self.rows@.len() && #[trigger] self.rows@[i].id == id && n
                        == self.rows@[i].display_name,
                Err(e) => e == StoreError::NotFound && !has_account(self.rows@, id),
            },
    {
        let idx = match self.account_index(id) {
            Some(i) => i,
            None => {
                return Err(StoreError::NotFound);
            },
        };
        let row = &self.rows[idx];
        let n = match &row.display_name {
            Some(s) => Some(s.clone()),
            None => None,
        };
        proof {
            assert(self.rows@[idx as int].id == id && n == self.rows@[idx as int].display_name);
        }
        Ok(n)
    }

    /// The blob a row stores, or the canonical default blob if none has been
    /// written.
    pub open spec fn spec_data_of(&self, a: Account) -> Seq<u8> {
        match a.persistent_blob {
            Some(b) => b@,
            None => self.default_blob@,
        }
    }

    /// The account's stored blob, or the canonical default blob if none has
    /// been written yet.
    pub fn get_data(&self, id: AccountId) -> (r: Result<Vec<u8>, StoreError>)
        ensures
            match r {
                Ok(d) => exists|i: int|
                    0 <= i < self.rows@.len() && #[trigger] self.rows@[i].id == id && d@
                        == self.spec_data_of(self.rows@[i]),
                Err(e) => e == StoreError::NotFound && !has_account(self.rows@, id),
            },
    {
        let idx = match self.account_index(id) {
            Some(i) => i,
            None => {
                return Err(StoreError::NotFound);
            },
        };
        let row = &self.rows[idx];
        let d = match &row.persistent_blob {
            Some(b) => copy_bytes(b),
            None => copy_bytes(&self.default_blob),
        };
        proof {
            assert(self.rows@[idx as int].id == id && d@ == self.spec_data_of(
                self.rows@[idx as int],
            ));
        }
        Ok(d)
    }

    /// Replaces the account's stored blob. The caller is responsible for
    /// validating the blob's length. Without a row for the identity nothing
    /// is stored.
    pub fn set_data(&mut self, id: AccountId, data: Vec<u8>)
        requires
            old(self).wf(),
        ensures
            final(self).wf(),
            final(self).default_blob == old(self).default_blob,
            !has_account(old(self).rows@, id) ==> *final(self) == *old(self),
            has_account(old(self).rows@, id) ==> {
                &&& final(self).rows@.len() == old(self).rows@.len()
                &&& exists|i: int|
                    0 <= i < old(self).rows@.len() && #[trigger] old(self).rows@[i].id == id && {
                        let row = final(self).rows@[i];
                        &&& row.persistent_blob matches Some(b) && b@ == data@
                        &&& row.id == id
                        &&& row.display_name == old(self).rows@[i].display_name
                        &&& row.token == old(self).rows@[i].token
                        &&& row.token_created == old(self).rows@[i].token_created
                        &&& row.last_auth_ip == old(self).rows@[i].last_auth_ip
                        &&& row.current_server == old(self).rows@[i].current_server
                        &&& forall|j: int|
                            0 <= j < old(self).rows@.len() && j != i ==> #[trigger] final(self).rows@[j] == old(self).rows@[j]
                    }
            },
    {
        let idx = match self.account_index(id) {
            Some(i) => i,
            None => {
                return ;
            },
        };
        let ghost pre = *self;
        let mut row = self.rows.remove(idx);
        row.persistent_blob = Some(data);
        self.rows.insert(idx, row);
        proof {
            pre.rows@.remove_ensures(idx as int);
            pre.rows@.remove(idx as int).insert_ensures(idx as int, row);
            assert forall|j: int|
                0 <= j < pre.rows@.len() && j != idx as int implies #[trigger] self.rows@[j]
                == pre.rows@[j] by {
                if j < idx as int {
                    assert(self.rows@[j] == pre.rows@.remove(idx as int)[j]);
                } else {
                    assert(self.rows@[j] == pre.rows@.remove(idx as int)[j - 1]);
                }
            }
            assert(self.rows@[idx as int] == row);
            assert(pre.rows@[idx as int].id == id);
        }
    }

    /// The account's current server and the host its token was issued to;
    /// fails when the account is unknown or holds no authentication host.
    pub fn get_auth(&self, id: AccountId) -> (r: Result<PersistenceAuthData, StoreError>)
        ensures
            match r {
                Ok(d) => exists|i: int|
                    0 <= i < self.rows@.len() && #[trigger] self.rows@[i].id == id
                        && self.rows@[i].last_auth_ip == Some(d.last_auth_ip) && (match (
                        self.rows@[i].current_server,
                        d.current_server,
                    ) {
                        (Some(a), Some(b)) => a@ == b@,
                        (None, None) => true,
                        _ => false,
                    }),
                Err(e) => e == StoreError::NotFound && (!has_account(self.rows@, id) || exists|
                    i: int,
                |
                    0 <= i < self.rows@.len() && #[trigger] self.rows@[i].id == id
                        && self.rows@[i].last_auth_ip is None),
            },
    {
        let idx = match self.account_index(id) {
            Some(i) => i,
            None => {
                return Err(StoreError::NotFound);
            },
        };
        let row = &self.rows[idx];
        match row.last_auth_ip {
            Some(ip) => {
                let r = PersistenceAuthData { current_server: row.current_server, last_auth_ip: ip };
                proof {
                    assert(self.rows@[idx as int].id == id && self.rows@[idx as int].last_auth_ip
                        == Some(r.last_auth_ip));
                }
                Ok(r)
            },
            None => {
                proof {
                    assert(self.rows@[idx as int].id == id && self.rows@[
                    idx as int].last_auth_ip is None);
                }
                Err(StoreError::NotFound)
            },
        }
    }

    /// Records the server the account last joined. Without a row for the
    /// identity nothing is stored.
    pub fn join_server(&mut self, id: AccountId, server_id: &UniqueId)
        requires
            old(self).wf(),
        ensures
            final(self).wf(),
            final(self).default_blob == old(self).default_blob,
            !has_account(old(self).rows@, id) ==> *final(self) == *old(self),
            has_account(old(self).rows@, id) ==> {
                &&& final(self).rows@.len() == old(self).rows@.len()
                &&& exists|i: int|
                    0 <= i < old(self).rows@.len() && #[trigger] old(self).rows@[i].id == id && {
                        let row = final(self).rows@[i];
                        &&& row.current_server matches Some(s) && s@ == server_id@
                        &&& row.id == id
                        &&& row.display_name == old(self).rows@[i].display_name
                        &&& row.token == old(self).rows@[i].token
                        &&& row.token_created == old(self).rows@[i].token_created
                        &&& row.last_auth_ip == old(self).rows@[i].last_auth_ip
                        &&& row.persistent_blob == old(self).rows@[i].persistent_blob
                        &&& forall|j: int|
                            0 <= j < old(self).rows@.len() && j != i ==> #[trigger] final(self).rows@[j] == old(self).rows@[j]
                    }
            },
    {
        let idx = match self.account_index(id) {
            Some(i) => i,
            None => {
                return ;
            },
        };
        let ghost pre = *self;
        let mut row = self.rows.remove(idx);
        row.current_server = Some(*server_id);
        self.rows.insert(idx, row);
        proof {
            pre.rows@.remove_ensures(idx as int);
            pre.rows@.remove(idx as int).insert_ensures(idx as int, row);
            assert forall|j: int|
                0 <= j < pre.rows@.len() && j != idx as int implies #[trigger] self.rows@[j]
                == pre.rows@[j] by {
                if j < idx as int {
                    assert(self.rows@[j] == pre.rows@.remove(idx as int)[j]);
                } else {
                    assert(self.rows@[j] == pre.rows@.remove(idx as int)[j - 1]);
                }
            }
            assert(self.rows@[idx as int] == row);
            assert(pre.rows@[idx as int].id == id);
        }
    }
}

/// A freshly stored session token is the only one that authenticates its
/// account, and only until its lifetime has passed: for any probe token and
/// any later time, authentication succeeds exactly when the probe is the
/// stored token and less than the token lifetime has elapsed since it was
/// issued.
pub proof fn lemma_token_authenticates(
    t: AccountRepository,
    id: AccountId,
    tok: Seq<u8>,
    created: u64,
    probe: Seq<u8>,
    later: u64,
)
    requires
        t.wf(),
        exists|i: int|
            0 <= i < t.rows@.len() && #[trigger] t.rows@[i].id == id && (t.rows@[i].token matches
                Some(tk) && tk@ == tok) && t.rows@[i].token_created == Some(created),
    ensures
        t.spec_authenticate(id, probe, later) <==> (probe == tok && (later as int) < created
            + TOKEN_TTL_SECS),
{
    let i = choose|i: int|
        0 <= i < t.rows@.len() && #[trigger] t.rows@[i].id == id && (t.rows@[i].token matches Some(
            tk,
        ) && tk@ == tok) && t.rows@[i].token_created == Some(created);
    if t.spec_authenticate(id, probe, later) {
        let w = choose|w: int|
            0 <= w < t.rows@.len() && #[trigger] t.rows@[w].id == id && row_authenticates(
                t.rows@[w],
                probe,
                later,
            );
        assert(w == i);
    }
    if probe == tok && (later as int) < created + TOKEN_TTL_SECS {
        assert(row_authenticates(t.rows@[i], probe, later));
    }
}

} // verus!
