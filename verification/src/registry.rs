//! In-memory directory of live game servers.
//!
//! The registry is a list of servers plus a secondary index from host
//! addresses to the identifiers registered under them. The two stay
//! consistent across every mutation; per-host quotas, port-conflict rules and
//! liveness expiry are enforced here.

use vstd::prelude::*;

use crate::id::UniqueId;

verus! {

/// A host address, as a plain number. IPv4 addresses occupy the low 32 bits;
/// the embedding maps each address form to a distinct number.
pub type HostIp = u128;

/// How many simultaneous servers can be registered for the same host unless
/// the registry is built with another cap.
pub const DEFAULT_MAX_SERVERS_PER_HOST: usize = 10;

/// Servers report capacities above this bound as this bound.
pub const MAX_PLAYERS_LIMIT: u32 = 32;

/// A registered server disappears when it has not been seen for this many
/// seconds.
pub const INACTIVE_AFTER_SECS: u64 = 300;

/// A server is listed only when it has been seen within this many seconds.
pub const LISTED_WITHIN_SECS: u64 = 60;

/// The settings a host registers a server with.
pub struct ServerSettings {
    /// The game port players connect to.
    pub port: u16,
    /// The port of the server's own authentication endpoint.
    pub auth_port: u16,
    pub name: String,
    pub description: String,
    pub map: String,
    pub playlist: String,
    pub max_players: u32,
    /// No password, or a non-empty password.
    pub password: Option<String>,
}

/// One installed mod, as reported by the server.
pub struct Mod {
    pub required_on_client: bool,
    pub name: String,
    pub version: String,
}

impl View for Mod {
    type V = (bool, Seq<char>, Seq<char>);

    open spec fn view(&self) -> (bool, Seq<char>, Seq<char>) {
        (self.required_on_client, self.name@, self.version@)
    }
}

impl Clone for Mod {
    fn clone(&self) -> (r: Self)
        ensures
            r@ == self@,
    {
        Mod {
            required_on_client: self.required_on_client,
            name: self.name.clone(),
            version: self.version.clone(),
        }
    }
}

/// The mod list a server registered with.
pub struct ModInfo {
    pub mods: Vec<Mod>,
}

pub open spec fn mods_view(ms: Seq<Mod>) -> Seq<(bool, Seq<char>, Seq<char>)> {
    Seq::new(ms.len(), |i: int| ms[i]@)
}

impl View for ModInfo {
    type V = Seq<(bool, Seq<char>, Seq<char>)>;

    open spec fn view(&self) -> Seq<(bool, Seq<char>, Seq<char>)> {
        mods_view(self.mods@)
    }
}

impl Clone for ModInfo {
    fn clone(&self) -> (r: Self)
        ensures
            r@ == self@,
    {
        let mut mods: Vec<Mod> = Vec::new();
        let mut i: usize = 0;
        while i < self.mods.len()
            invariant
                i <= self.mods@.len(),
                mods@.len() == i,
                forall|j: int| 0 <= j < i ==> mods@[j]@ == self.mods@[j]@,
            decreases self.mods@.len() - i,
        {
            mods.push(self.mods[i].clone());
            i += 1;
        }
        let r = ModInfo { mods };
        proof {
            assert(r@ =~= self@);
        }
        r
    }
}

/// A server registered with the master server.
pub struct Server {
    /// Assigned by the registry at insertion.
    pub id: UniqueId,
    /// The observed source address of the registration request.
    pub ip: HostIp,
    /// Assigned by the registry at insertion; handed to joining players.
    pub auth_token: UniqueId,
    pub settings: ServerSettings,
    /// When the server last registered or sent an update, in seconds on the
    /// caller's clock.
    pub last_seen: u64,
    pub player_count: Option<u32>,
    pub mod_info: Option<ModInfo>,
}

/// Seconds since the server was last seen, on the caller's clock.
pub open spec fn age_of(s: Server, now: u64) -> int {
    if now >= s.last_seen {
        now - s.last_seen
    } else {
        0
    }
}

/// Whether a given password opens this server: a server without a password
/// accepts anything, one with a password requires exactly that text.
pub open spec fn spec_password_ok(stored: Option<String>, given: Option<Seq<char>>) -> bool {
    match stored {
        None => true,
        Some(p) => match given {
            Some(g) => p@ == g,
            None => false,
        },
    }
}

impl Server {
    /// Creates a registry record for a host at `ip` with the given settings,
    /// minting a fresh identifier and authentication token.
    pub fn new(ip: HostIp, settings: ServerSettings, mod_info: Option<ModInfo>, now: u64) -> (r:
        Server)
        ensures
            r.ip == ip,
            r.settings == settings,
            r.last_seen == now,
            r.player_count is None,
            r.mod_info == mod_info,
    {
        Server {
            id: UniqueId::new(),
            ip,
            auth_token: UniqueId::new(),
            settings,
            last_seen: now,
            player_count: None,
            mod_info,
        }
    }

    pub fn ip(&self) -> (r: HostIp)
        ensures
            r == self.ip,
    {
        self.ip
    }

    pub fn game_port(&self) -> (r: u16)
        ensures
            r == self.settings.port,
    {
        self.settings.port
    }

    pub fn auth_token(&self) -> (r: UniqueId)
        ensures
            r@ == self.auth_token@,
    {
        self.auth_token
    }

    /// The server's own authentication endpoint: its host address and auth
    /// port.
    pub fn auth_address(&self) -> (r: (HostIp, u16))
        ensures
            r.0 == self.ip,
            r.1 == self.settings.auth_port,
    {
        (self.ip, self.settings.auth_port)
    }

    /// Checks a join attempt's password against this server's.
    pub fn check_password(&self, password: Option<&str>) -> (r: bool)
        ensures
            r == spec_password_ok(self.settings.password, match password {
                Some(g) => Some(g@),
                None => None::<Seq<char>>,
            }),
    {
        match &self.settings.password {
            None => true,
            Some(p) => match password {
                Some(g) => {
                    let gs: String = g.to_owned();
                    p.eq(&gs)
                },
                None => false,
            },
        }
    }
}

/// One host bucket of the secondary index: the identifiers of the servers
/// registered from one host address.
pub struct Bucket {
    pub ip: HostIp,
    pub ids: Vec<UniqueId>,
}

/// Whether a server list holds a server with this identifier.
pub open spec fn has_id(ss: Seq<Server>, id: Seq<u8>) -> bool {
    exists|i: int| 0 <= i < ss.len() && #[trigger] ss[i].id@ == id
}

/// Whether a server list holds a server with this identifier at this host.
pub open spec fn has_server_at(ss: Seq<Server>, ip: HostIp, id: Seq<u8>) -> bool {
    exists|i: int| 0 <= i < ss.len() && #[trigger] ss[i].id@ == id && ss[i].ip == ip
}

/// Whether a bucket holds this identifier.
pub open spec fn bucket_has(b: Bucket, id: Seq<u8>) -> bool {
    exists|j: int| 0 <= j < b.ids@.len() && #[trigger] b.ids@[j]@ == id
}

/// Whether the index has this identifier under this host address.
pub open spec fn in_index(bs: Seq<Bucket>, ip: HostIp, id: Seq<u8>) -> bool {
    exists|k: int| 0 <= k < bs.len() && #[trigger] bs[k].ip == ip && bucket_has(bs[k], id)
}

/// Whether a list element equals this exact server record.
pub open spec fn contains_server(ss: Seq<Server>, s: Server) -> bool {
    exists|i: int| 0 <= i < ss.len() && #[trigger] ss[i] == s
}

/// A partial update to a registered server. Fields left as `None` stay as
/// they are; an empty password text removes the password.
pub struct UpdateServerParam {
    pub id: UniqueId,
    pub port: Option<u16>,
    pub auth_port: Option<u16>,
    pub name: Option<String>,
    pub description: Option<String>,
    pub map: Option<String>,
    pub playlist: Option<String>,
    pub max_players: Option<u32>,
    pub password: Option<String>,
    pub player_count: Option<u32>,
}

/// The server record after a partial update: the liveness stamp refreshed,
/// each given field overwritten, ports and identity untouched.
pub open spec fn spec_apply(p: UpdateServerParam, s: Server, now: u64) -> Server {
    Server {
        last_seen: now,
        settings: ServerSettings {
            port: s.settings.port,
            auth_port: s.settings.auth_port,
            name: match p.name {
                Some(n) => n,
                None => s.settings.name,
            },
            description: match p.description {
                Some(d) => d,
                None => s.settings.description,
            },
            map: match p.map {
                Some(m) => m,
                None => s.settings.map,
            },
            playlist: match p.playlist {
                Some(pl) => pl,
                None => s.settings.playlist,
            },
            max_players: match p.max_players {
                Some(m) => m,
                None => s.settings.max_players,
            },
            password: match p.password {
                Some(pw) => if pw@.len() == 0 {
                    None
                } else {
                    Some(pw)
                },
                None => s.settings.password,
            },
        },
        player_count: match p.player_count {
            Some(c) => Some(c),
            None => s.player_count,
        },
        ..s
    }
}

/// The public view of one listed server.
pub struct ServerListEntry {
    pub id: UniqueId,
    pub name: String,
    pub description: String,
    pub map: String,
    pub playlist: String,
    /// The reported capacity, clamped to the global limit.
    pub max_players: u32,
    pub has_password: bool,
    /// The reported occupancy, clamped to the entry capacity; zero when the
    /// server has not reported one.
    pub player_count: u32,
    /// The reported mod list, or an empty one.
    pub mod_info: ModInfo,
}

/// How a listing entry projects a registered server.
pub open spec fn entry_matches(e: ServerListEntry, s: Server, now: u64) -> bool {
    &&& e.id@ == s.id@
    &&& e.name@ == s.settings.name@
    &&& e.description@ == s.settings.description@
    &&& e.map@ == s.settings.map@
    &&& e.playlist@ == s.settings.playlist@
    &&& e.max_players == (if s.settings.max_players < MAX_PLAYERS_LIMIT {
        s.settings.max_players
    } else {
        MAX_PLAYERS_LIMIT
    })
    &&& e.has_password == (s.settings.password is Some)
    &&& e.player_count == (match s.player_count {
        Some(c) => if c < e.max_players {
            c
        } else {
            e.max_players
        },
        None => 0u32,
    })
    &&& e.mod_info@ == (match s.mod_info {
        Some(m) => m@,
        None => Seq::<(bool, Seq<char>, Seq<char>)>::empty(),
    })
}

/// Projects one server into its public listing entry.
fn entry_of(s: &Server) -> (e: ServerListEntry)
    ensures
        forall|now: u64| entry_matches(e, *s, now),
{
    let max_players = if s.settings.max_players < MAX_PLAYERS_LIMIT {
        s.settings.max_players
    } else {
        MAX_PLAYERS_LIMIT
    };
    let player_count = match s.player_count {
        Some(c) => if c < max_players {
            c
        } else {
            max_players
        },
        None => 0,
    };
    let has_password = match &s.settings.password {
        Some(_) => true,
        None => false,
    };
    let mod_info = match &s.mod_info {
        Some(m) => m.clone(),
        None => ModInfo { mods: Vec::new() },
    };
    proof {
        if s.mod_info is None {
            assert(mod_info@ =~= Seq::<(bool, Seq<char>, Seq<char>)>::empty());
        }
    }
    ServerListEntry {
        id: s.id,
        name: s.settings.name.clone(),
        description: s.settings.description.clone(),
        map: s.settings.map.clone(),
        playlist: s.settings.playlist.clone(),
        max_players,
        has_password,
        player_count,
        mod_info,
    }
}

/// Why a server could not be admitted into the registry.
#[derive(Debug)]
pub enum AddServerError {
    /// The host already has as many servers registered as the cap allows.
    MaximumServersForHost,
    /// A surviving server at the same host already uses this authentication
    /// port.
    ConflictingAuthPort,
    /// The freshly minted identifier collides with a registered one.
    IdCollision,
}

/// Stores all listed servers, with a secondary index by host address.
pub struct ServerList {
    pub servers: Vec<Server>,
    pub addresses: Vec<Bucket>,
    /// How many servers one host may register at once.
    pub max_per_host: usize,
}

impl ServerList {
    /// Identifiers are unique across the registry.
    pub open spec fn ids_distinct(&self) -> bool {
        forall|i: int, j: int|
            0 <= i < j < self.servers@.len() ==> #[trigger] self.servers@[i].id@ != #[trigger] self.servers@[j].id@
    }

    /// Each host address has at most one bucket, and no bucket is empty or
    /// holds an identifier twice.
    pub open spec fn buckets_wf(&self) -> bool {
        &&& forall|k: int, l: int|
            0 <= k < l < self.addresses@.len() ==> #[trigger] self.addresses@[k].ip != #[trigger] self.addresses@[l].ip
        &&& forall|k: int|
            0 <= k < self.addresses@.len() ==> #[trigger] self.addresses@[k].ids@.len() > 0
        &&& forall|k: int, i: int, j: int|
            0 <= k < self.addresses@.len() && 0 <= i < j < self.addresses@[k].ids@.len()
                ==> #[trigger] self.addresses@[k].ids@[i]@ != #[trigger] self.addresses@[k].ids@[j]@
    }

    /// Every server is indexed under its host address, and every indexed
    /// identifier resolves to a server at that host address.
    pub open spec fn index_consistent(&self) -> bool {
        &&& forall|i: int|
            0 <= i < self.servers@.len() ==> in_index(
                self.addresses@,
                #[trigger] self.servers@[i].ip,
                self.servers@[i].id@,
            )
        &&& forall|k: int, j: int|
            0 <= k < self.addresses@.len() && 0 <= j < self.addresses@[k].ids@.len()
                ==> has_server_at(
                self.servers@,
                self.addresses@[k].ip,
                #[trigger] self.addresses@[k].ids@[j]@,
            )
    }

    /// Within one host, authentication ports and game ports are pairwise
    /// distinct.
    pub open spec fn ports_distinct(&self) -> bool {
        forall|i: int, j: int|
            0 <= i < j < self.servers@.len() && #[trigger] self.servers@[i].ip
                == #[trigger] self.servers@[j].ip ==> self.servers@[i].settings.auth_port
                != self.servers@[j].settings.auth_port && self.servers@[i].settings.port
                != self.servers@[j].settings.port
    }

    /// The registry's invariant.
    pub open spec fn wf(&self) -> bool {
        &&& self.ids_distinct()
        &&& self.buckets_wf()
        &&& self.index_consistent()
        &&& self.ports_distinct()
    }

    /// An empty registry with the given per-host cap.
    pub fn new(max_per_host: usize) -> (r: ServerList)
        ensures
            r.wf(),
            r.servers@.len() == 0,
            r.addresses@.len() == 0,
            r.max_per_host == max_per_host,
    {
        ServerList { servers: Vec::new(), addresses: Vec::new(), max_per_host }
    }

    /// Identifiers indexed under some host all belong to servers; a missing
    /// server is therefore absent from the index as well.
    pub proof fn lemma_absent_from_index(&self, id: Seq<u8>)
        requires
            self.wf(),
            !has_id(self.servers@, id),
        ensures
            forall|k: int, j: int|
                0 <= k < self.addresses@.len() && 0 <= j < self.addresses@[k].ids@.len()
                    ==> #[trigger] self.addresses@[k].ids@[j]@ != id,
    {
        assert forall|k: int, j: int|
            0 <= k < self.addresses@.len() && 0 <= j < self.addresses@[k].ids@.len() implies #[trigger] self.addresses@[k].ids@[j]@
            != id by {
            if self.addresses@[k].ids@[j]@ == id {
                assert(has_server_at(self.servers@, self.addresses@[k].ip, id));
            }
        }
    }

    fn server_index(&self, id: &UniqueId) -> (r: Option<usize>)
        ensures
            match r {
                Some(i) => i < self.servers@.len() && self.servers@[i as int].id@ == id@,
                None => !has_id(self.servers@, id@),
            },
    {
        let mut i: usize = 0;
        while i < self.servers.len()
            invariant
                i <= self.servers@.len(),
                forall|j: int| 0 <= j < i ==> #[trigger] self.servers@[j].id@ != id@,
            decreases self.servers@.len() - i,
        {
            if self.servers[i].id.eq(id) {
                return Some(i);
            }
            i += 1;
        }
        None
    }

    fn bucket_index(&self, ip: HostIp) -> (r: Option<usize>)
        ensures
            match r {
                Some(k) => k < self.addresses@.len() && self.addresses@[k as int].ip == ip,
                None => forall|k: int|
                    0 <= k < self.addresses@.len() ==> #[trigger] self.addresses@[k].ip != ip,
            },
    {
        let mut k: usize = 0;
        while k < self.addresses.len()
            invariant
                k <= self.addresses@.len(),
                forall|l: int| 0 <= l < k ==> #[trigger] self.addresses@[l].ip != ip,
            decreases self.addresses@.len() - k,
        {
            if self.addresses[k].ip == ip {
                return Some(k);
            }
            k += 1;
        }
        None
    }

    /// Whether a server with this identifier is registered.
    pub fn contains_id(&self, id: &UniqueId) -> (r: bool)
        ensures
            r == has_id(self.servers@, id@),
    {
        match self.server_index(id) {
            Some(_) => true,
            None => false,
        }
    }

    /// Removes the server with this identifier, if registered, from the
    /// server list and from its host bucket; an emptied bucket is dropped.
    /// Every other server and every other index entry stays.
    pub fn remove(&mut self, k: &UniqueId)
        requires
            old(self).wf(),
        ensures
            final(self).wf(),
            final(self).max_per_host == old(self).max_per_host,
            !has_id(final(self).servers@, k@),
            forall|i: int|
                0 <= i < old(self).servers@.len() && #[trigger] old(self).servers@[i].id@ != k@
                    ==> contains_server(final(self).servers@, old(self).servers@[i]),
            forall|i: int|
                0 <= i < final(self).servers@.len() ==> contains_server(
                    old(self).servers@,
                    #[trigger] final(self).servers@[i],
                ),
            !has_id(old(self).servers@, k@) ==> *final(self) == *old(self),
            has_id(old(self).servers@, k@) ==> exists|i: int|
                0 <= i < old(self).servers@.len() && #[trigger] old(self).servers@[i].id@ == k@
                    && final(self).servers@ == old(self).servers@.remove(i),
            forall|ip: HostIp, id: Seq<u8>|
                id != k@ ==> (in_index(final(self).addresses@, ip, id) <==> #[trigger] in_index(
                    old(self).addresses@,
                    ip,
                    id,
                )),
            forall|k2: int, j: int|
                0 <= k2 < final(self).addresses@.len()
                    && 0 <= j < final(self).addresses@[k2].ids@.len()
                    ==> #[trigger] final(self).addresses@[k2].ids@[j]@ != k@,
    {
        let idx = match self.server_index(k) {
            Some(i) => i,
            None => {
                return ;
            },
        };
        let ghost old_self = *self;
        let ip = self.servers[idx].ip;
        proof {
            assert(in_index(self.addresses@, self.servers@[idx as int].ip, self.servers@[
            idx as int].id@));
        }
        self.servers.remove(idx);
        let bidx = match self.bucket_index(ip) {
            Some(b) => b,
            None => {
                proof {
                    let k0 = choose|k0: int|
                        0 <= k0 < old_self.addresses@.len() && #[trigger] old_self.addresses@[k0].ip
                            == ip && bucket_has(old_self.addresses@[k0], k@);
                    assert(false);
                }
                return ;
            },
        };
        let mut b = self.addresses.remove(bidx);
        let ghost old_bucket = b;
        let jdx = {
            let mut j: usize = 0;
            loop
                invariant_except_break
                    j <= b.ids@.len(),
                    forall|l: int| 0 <= l < j ==> #[trigger] b.ids@[l]@ != k@,
                    bucket_has(b, k@),
                ensures
                    j < b.ids@.len(),
                    b.ids@[j as int]@ == k@,
                decreases b.ids@.len() - j,
            {
                proof {
                    if j == b.ids@.len() {
                        assert(forall|l: int| 0 <= l < b.ids@.len() ==> #[trigger] b.ids@[l]@ != k@);
                        assert(false);
                    }
                }
                let len = b.ids.len();
                proof {
                    assert(j < len);
                }
                if b.ids[j].eq(k) {
                    break ;
                }
                j += 1;
            }
            j
        };
        b.ids.remove(jdx);
        if b.ids.len() > 0 {
            self.addresses.insert(bidx, b);
        }
        proof {
            self.lemma_remove_restores(old_self, *k, idx as int, bidx as int, old_bucket,
            jdx as int);
        }
    }

    /// After removing a server and its index entry as `remove` does, the
    /// invariant and the removal contract hold again.
    proof fn lemma_remove_restores(
        &self,
        pre: ServerList,
        k: UniqueId,
        idx: int,
        bidx: int,
        old_bucket: Bucket,
        jdx: int,
    )
        requires
            pre.wf(),
            0 <= idx < pre.servers@.len(),
            pre.servers@[idx].id@ == k@,
            0 <= bidx < pre.addresses@.len(),
            old_bucket == pre.addresses@[bidx],
            old_bucket.ip == pre.servers@[idx].ip,
            0 <= jdx < old_bucket.ids@.len(),
            old_bucket.ids@[jdx]@ == k@,
            self.servers@ == pre.servers@.remove(idx),
            self.max_per_host == pre.max_per_host,
            old_bucket.ids@.len() > 1 ==> {
                &&& self.addresses@.len() == pre.addresses@.len()
                &&& forall|k2: int|
                    0 <= k2 < pre.addresses@.len() && k2 != bidx ==> #[trigger] self.addresses@[k2]
                        == pre.addresses@[k2]
                &&& self.addresses@[bidx].ip == old_bucket.ip
                &&& self.addresses@[bidx].ids@ == old_bucket.ids@.remove(jdx)
            },
            old_bucket.ids@.len() == 1 ==> self.addresses@ == pre.addresses@.remove(bidx),
        ensures
            self.wf(),
            !has_id(self.servers@, k@),
            forall|i: int|
                0 <= i < pre.servers@.len() && #[trigger] pre.servers@[i].id@ != k@
                    ==> contains_server(self.servers@, pre.servers@[i]),
            forall|i: int|
                0 <= i < self.servers@.len() ==> contains_server(
                    pre.servers@,
                    #[trigger] self.servers@[i],
                ),
            forall|ip: HostIp, id: Seq<u8>|
                id != k@ ==> (in_index(self.addresses@, ip, id) <==> #[trigger] in_index(
                    pre.addresses@,
                    ip,
                    id,
                )),
            forall|k2: int, j: int|
                0 <= k2 < self.addresses@.len() && 0 <= j < self.addresses@[k2].ids@.len()
                    ==> #[trigger] self.addresses@[k2].ids@[j]@ != k@,
    {
        let sv = pre.servers@;
        let fv = self.servers@;
        let n = sv.len() as int;
        sv.remove_ensures(idx);
        old_bucket.ids@.remove_ensures(jdx);
        pre.addresses@.remove_ensures(bidx);
        let single = old_bucket.ids@.len() == 1;
        // The removed identifier sits nowhere in the index but in its own
        // bucket, at the found position.
        assert forall|k2: int, j: int|
            0 <= k2 < pre.addresses@.len() && 0 <= j < pre.addresses@[k2].ids@.len() && !(k2 == bidx
                && j == jdx) implies #[trigger] pre.addresses@[k2].ids@[j]@ != k@ by {
            if pre.addresses@[k2].ids@[j]@ == k@ {
                assert(has_server_at(sv, pre.addresses@[k2].ip, k@));
                let i0 = choose|i0: int|
                    0 <= i0 < sv.len() && #[trigger] sv[i0].id@ == k@ && sv[i0].ip
                        == pre.addresses@[k2].ip;
                assert(i0 == idx);
                assert(pre.addresses@[k2].ip == old_bucket.ip);
                assert(k2 == bidx);
            }
        }
        // Index entries other than the removed one survive, at a shifted
        // bucket position and a shifted place inside the bucket.
        assert forall|k2: int, j: int|
            0 <= k2 < pre.addresses@.len() && 0 <= j < pre.addresses@[k2].ids@.len() && !(k2 == bidx
                && j == jdx) implies in_index(
            self.addresses@,
            pre.addresses@[k2].ip,
            pre.addresses@[k2].ids@[j]@,
        ) by {
            let ip0 = pre.addresses@[k2].ip;
            let id0 = pre.addresses@[k2].ids@[j]@;
            if k2 == bidx {
                assert(!single);
                let j2 = if j < jdx {
                    j
                } else {
                    j - 1
                };
                assert(self.addresses@[bidx].ids@[j2]@ == id0);
                assert(bucket_has(self.addresses@[bidx], id0));
                assert(self.addresses@[bidx].ip == ip0);
            } else {
                let k3 = if single {
                    if k2 < bidx {
                        k2
                    } else {
                        k2 - 1
                    }
                } else {
                    k2
                };
                assert(self.addresses@[k3] == pre.addresses@[k2]);
                assert(bucket_has(self.addresses@[k3], id0));
            }
        }
        // Every surviving index entry was already present before.
        assert forall|k2: int, j: int|
            0 <= k2 < self.addresses@.len() && 0 <= j < self.addresses@[k2].ids@.len() implies {
            &&& #[trigger] self.addresses@[k2].ids@[j]@ != k@
            &&& in_index(pre.addresses@, self.addresses@[k2].ip, self.addresses@[k2].ids@[j]@)
            &&& has_server_at(sv, self.addresses@[k2].ip, self.addresses@[k2].ids@[j]@)
        } by {
            let ip0 = self.addresses@[k2].ip;
            let id0 = self.addresses@[k2].ids@[j]@;
            if !single && k2 == bidx {
                let j2 = if j < jdx {
                    j
                } else {
                    j + 1
                };
                assert(pre.addresses@[bidx].ids@[j2]@ == id0);
                assert(bucket_has(pre.addresses@[bidx], id0));
            } else {
                let k3 = if single && k2 >= bidx {
                    k2 + 1
                } else {
                    k2
                };
                assert(self.addresses@[k2] == pre.addresses@[k3]);
                assert(bucket_has(pre.addresses@[k3], id0));
            }
        }
        // Surviving servers keep distinct identifiers and ports.
        assert forall|i: int| 0 <= i < fv.len() implies #[trigger] fv[i] == sv[
        if i < idx {
            i
        } else {
            i + 1
        }] by {}
        assert(self.ids_distinct());
        assert(self.ports_distinct());
        assert forall|i: int| 0 <= i < fv.len() implies #[trigger] fv[i].id@ != k@ by {
            let i2 = if i < idx {
                i
            } else {
                i + 1
            };
            assert(fv[i] == sv[i2]);
        }
        assert(!has_id(self.servers@, k@));
        // Each surviving server is still indexed under its host.
        assert forall|i: int| 0 <= i < fv.len() implies in_index(
            self.addresses@,
            #[trigger] fv[i].ip,
            fv[i].id@,
        ) by {
            let i2 = if i < idx {
                i
            } else {
                i + 1
            };
            assert(fv[i] == sv[i2]);
            assert(in_index(pre.addresses@, sv[i2].ip, sv[i2].id@));
            let k2 = choose|k2: int|
                0 <= k2 < pre.addresses@.len() && #[trigger] pre.addresses@[k2].ip == sv[i2].ip
                    && bucket_has(pre.addresses@[k2], sv[i2].id@);
            let j = choose|j: int|
                0 <= j < pre.addresses@[k2].ids@.len() && #[trigger] pre.addresses@[k2].ids@[j]@
                    == sv[i2].id@;
            assert(!(k2 == bidx && j == jdx));
        }
        // Each surviving index entry resolves to a surviving server.
        assert forall|k2: int, j: int|
            0 <= k2 < self.addresses@.len() && 0 <= j < self.addresses@[k2].ids@.len() implies has_server_at(
            self.servers@,
            self.addresses@[k2].ip,
            #[trigger] self.addresses@[k2].ids@[j]@,
        ) by {
            let ip0 = self.addresses@[k2].ip;
            let id0 = self.addresses@[k2].ids@[j]@;
            assert(has_server_at(sv, ip0, id0));
            let i0 = choose|i0: int|
                0 <= i0 < sv.len() && #[trigger] sv[i0].id@ == id0 && sv[i0].ip == ip0;
            assert(i0 != idx);
            let i1 = if i0 < idx {
                i0
            } else {
                i0 - 1
            };
            assert(fv[i1] == sv[i0]);
        }
        // Bucket shape is preserved.
        assert forall|k2: int, l: int|
            0 <= k2 < l < self.addresses@.len() implies #[trigger] self.addresses@[k2].ip
            != #[trigger] self.addresses@[l].ip by {
            if single {
                let k3 = if k2 < bidx {
                    k2
                } else {
                    k2 + 1
                };
                let l3 = if l < bidx {
                    l
                } else {
                    l + 1
                };
                assert(self.addresses@[k2] == pre.addresses@[k3]);
                assert(self.addresses@[l] == pre.addresses@[l3]);
            } else {
                if k2 != bidx && l != bidx {
                    assert(self.addresses@[k2] == pre.addresses@[k2]);
                    assert(self.addresses@[l] == pre.addresses@[l]);
                } else if k2 == bidx {
                    assert(self.addresses@[l] == pre.addresses@[l]);
                } else {
                    assert(self.addresses@[k2] == pre.addresses@[k2]);
                }
            }
        }
        assert forall|k2: int| 0 <= k2 < self.addresses@.len() implies #[trigger] self.addresses@[
        k2].ids@.len() > 0 by {
            if single {
                let k3 = if k2 < bidx {
                    k2
                } else {
                    k2 + 1
                };
                assert(self.addresses@[k2] == pre.addresses@[k3]);
            } else if k2 != bidx {
                assert(self.addresses@[k2] == pre.addresses@[k2]);
            }
        }
        assert forall|k2: int, i: int, j: int|
            0 <= k2 < self.addresses@.len() && 0 <= i < j < self.addresses@[k2].ids@.len() implies #[trigger] self.addresses@[k2].ids@[i]@ != #[trigger] self.addresses@[k2].ids@[j]@ by {
            if !single && k2 == bidx {
                let i2 = if i < jdx {
                    i
                } else {
                    i + 1
                };
                let j2 = if j < jdx {
                    j
                } else {
                    j + 1
                };
                assert(self.addresses@[k2].ids@[i]@ == pre.addresses@[bidx].ids@[i2]@);
                assert(self.addresses@[k2].ids@[j]@ == pre.addresses@[bidx].ids@[j2]@);
            } else {
                let k3 = if single && k2 >= bidx {
                    k2 + 1
                } else {
                    k2
                };
                assert(self.addresses@[k2] == pre.addresses@[k3]);
            }
        }
        // The surviving servers are exactly the other servers of before.
        assert forall|i: int|
            0 <= i < sv.len() && #[trigger] sv[i].id@ != k@ implies contains_server(fv, sv[i]) by {
            assert(i != idx);
            let i1 = if i < idx {
                i
            } else {
                i - 1
            };
            assert(fv[i1] == sv[i]);
        }
        assert forall|i: int| 0 <= i < fv.len() implies contains_server(
            sv,
            #[trigger] fv[i],
        ) by {
            let i2 = if i < idx {
                i
            } else {
                i + 1
            };
            assert(fv[i] == sv[i2]);
        }
        // The index keeps exactly the other identifiers.
        assert forall|ip: HostIp, id: Seq<u8>|
            id != k@ && #[trigger] in_index(pre.addresses@, ip, id) implies in_index(
            self.addresses@,
            ip,
            id,
        ) by {
            let k2 = choose|k2: int|
                0 <= k2 < pre.addresses@.len() && #[trigger] pre.addresses@[k2].ip == ip
                    && bucket_has(pre.addresses@[k2], id);
            let j = choose|j: int|
                0 <= j < pre.addresses@[k2].ids@.len() && #[trigger] pre.addresses@[k2].ids@[j]@
                    == id;
            assert(!(k2 == bidx && j == jdx));
        }
        assert forall|ip: HostIp, id: Seq<u8>|
            id != k@ && in_index(self.addresses@, ip, id) implies #[trigger] in_index(
            pre.addresses@,
            ip,
            id,
        ) by {
            let k2 = choose|k2: int|
                0 <= k2 < self.addresses@.len() && #[trigger] self.addresses@[k2].ip == ip
                    && bucket_has(self.addresses@[k2], id);
            let j = choose|j: int|
                0 <= j < self.addresses@[k2].ids@.len() && #[trigger] self.addresses@[k2].ids@[j]@
                    == id;
        }
    }

    /// Whether the host already has as many servers registered as the cap
    /// allows.
    pub open spec fn host_full(&self, ip: HostIp) -> bool {
        exists|k: int|
            0 <= k < self.addresses@.len() && #[trigger] self.addresses@[k].ip == ip
                && self.addresses@[k].ids@.len() >= self.max_per_host
    }

    /// Whether a server that would survive admission (one at the same host
    /// with a different game port) already uses this authentication port.
    pub open spec fn auth_port_conflict(&self, ip: HostIp, auth_port: u16, game_port: u16) -> bool {
        exists|i: int|
            0 <= i < self.servers@.len() && #[trigger] self.servers@[i].ip == ip
                && self.servers@[i].settings.auth_port == auth_port
                && self.servers@[i].settings.port != game_port
    }

    fn scan_auth_conflict(&self, ip: HostIp, auth_port: u16, game_port: u16) -> (r: bool)
        ensures
            r == self.auth_port_conflict(ip, auth_port, game_port),
    {
        let mut i: usize = 0;
        while i < self.servers.len()
            invariant
                i <= self.servers@.len(),
                forall|j: int|
                    0 <= j < i ==> !(#[trigger] self.servers@[j].ip == ip
                        && self.servers@[j].settings.auth_port == auth_port
                        && self.servers@[j].settings.port != game_port),
            decreases self.servers@.len() - i,
        {
            let s = &self.servers[i];
            if s.ip == ip && s.settings.auth_port == auth_port && s.settings.port != game_port {
                return true;
            }
            i += 1;
        }
        false
    }

    fn scan_same_port(&self, ip: HostIp, game_port: u16) -> (r: Option<UniqueId>)
        ensures
            match r {
                Some(id) => exists|i: int|
                    0 <= i < self.servers@.len() && #[trigger] self.servers@[i].id@ == id@
                        && self.servers@[i].ip == ip && self.servers@[i].settings.port
                        == game_port,
                None => forall|i: int|
                    0 <= i < self.servers@.len() ==> !(#[trigger] self.servers@[i].ip == ip
                        && self.servers@[i].settings.port == game_port),
            },
    {
        let mut j: usize = 0;
        while j < self.servers.len()
            invariant
                j <= self.servers@.len(),
                forall|l: int|
                    0 <= l < j ==> !(#[trigger] self.servers@[l].ip == ip
                        && self.servers@[l].settings.port == game_port),
            decreases self.servers@.len() - j,
        {
            let s = &self.servers[j];
            if s.ip == ip && s.settings.port == game_port {
                proof {
                    assert(self.servers@[j as int].id@ == s.id@ && self.servers@[j as int].ip == ip
                        && self.servers@[j as int].settings.port == game_port);
                }
                return Some(s.id);
            }
            j += 1;
        }
        None
    }

    /// Admits a server: enforces the per-host cap, evicts a stale entry of
    /// the same host and game port, rejects authentication-port conflicts
    /// with the surviving servers of the host, and inserts into the server
    /// list and the host index.
    #[verifier::rlimit(100)]
    pub fn push(&mut self, server: Server) -> (r: Result<(), AddServerError>)
        requires
            old(self).wf(),
        ensures
            final(self).wf(),
            final(self).max_per_host == old(self).max_per_host,
            match r {
                Err(AddServerError::MaximumServersForHost) => old(self).host_full(server.ip),
                Err(AddServerError::ConflictingAuthPort) => !old(self).host_full(server.ip)
                    && old(self).auth_port_conflict(
                    server.ip,
                    server.settings.auth_port,
                    server.settings.port,
                ),
                Err(AddServerError::IdCollision) => !old(self).host_full(server.ip) && !old(
                    self,
                ).auth_port_conflict(server.ip, server.settings.auth_port, server.settings.port)
                    && has_id(old(self).servers@, server.id@),
                Ok(_) => {
                    &&& !old(self).host_full(server.ip)
                    &&& !old(self).auth_port_conflict(
                        server.ip,
                        server.settings.auth_port,
                        server.settings.port,
                    )
                    &&& !has_id(old(self).servers@, server.id@)
                    &&& contains_server(final(self).servers@, server)
                    &&& forall|i: int|
                        0 <= i < old(self).servers@.len() && #[trigger] old(self).servers@[i].ip
                            == server.ip && old(self).servers@[i].settings.port
                            == server.settings.port ==> !has_id(
                            final(self).servers@,
                            old(self).servers@[i].id@,
                        )
                    &&& forall|i: int|
                        0 <= i < old(self).servers@.len() && !(#[trigger] old(self).servers@[i].ip
                            == server.ip && old(self).servers@[i].settings.port
                            == server.settings.port) ==> contains_server(
                            final(self).servers@,
                            old(self).servers@[i],
                        )
                    &&& forall|i: int|
                        0 <= i < final(self).servers@.len() ==> #[trigger] final(self).servers@[i]
                            == server || contains_server(
                            old(self).servers@,
                            final(self).servers@[i],
                        )
                },
            },
            r is Err ==> *final(self) == *old(self),
    {
        let ghost pre = *self;
        let ip = server.ip;
        // Per-host quota.
        match self.bucket_index(ip) {
            Some(kb) => {
                if self.addresses[kb].ids.len() >= self.max_per_host {
                    return Err(AddServerError::MaximumServersForHost);
                }
                proof {
                    assert forall|k: int|
                        0 <= k < self.addresses@.len()
                            && #[trigger] self.addresses@[k].ip == ip implies self.addresses@[k].ids@.len()
                        < self.max_per_host by {
                        if k != kb {
                            assert(self.addresses@[k].ip != self.addresses@[kb as int].ip);
                        }
                    }
                }
            },
            None => {},
        }
        // Authentication-port conflict with servers that would survive.
        if self.scan_auth_conflict(ip, server.settings.auth_port, server.settings.port) {
            return Err(AddServerError::ConflictingAuthPort);
        }
        // Identifier collisions would corrupt the directory; admission
        // refuses them outright.
        if self.contains_id(&server.id) {
            return Err(AddServerError::IdCollision);
        }
        // Evict the host's stale entry on the same game port, if any.
        let evict = self.scan_same_port(ip, server.settings.port);
        match &evict {
            Some(eid) => {
                self.remove(eid);
            },
            None => {},
        }
        let ghost mid = *self;
        proof {
            // Survivors of the host use other game ports and other
            // authentication ports than the new server.
            assert forall|l: int|
                0 <= l < mid.servers@.len() && #[trigger] mid.servers@[l].ip
                    == ip implies mid.servers@[l].settings.auth_port != server.settings.auth_port
                && mid.servers@[l].settings.port != server.settings.port by {
                assert(contains_server(pre.servers@, mid.servers@[l]));
                let l0 = choose|l0: int|
                    0 <= l0 < pre.servers@.len() && #[trigger] pre.servers@[l0] == mid.servers@[l];
                match evict {
                    Some(e) => {
                        assert(!has_id(mid.servers@, e@));
                        if pre.servers@[l0].settings.port == server.settings.port {
                            let je = choose|je: int|
                                0 <= je < pre.servers@.len() && #[trigger] pre.servers@[je].id@
                                    == e@ && pre.servers@[je].ip == server.ip
                                    && pre.servers@[je].settings.port == server.settings.port;
                            if l0 != je {
                                assert(false);
                            }
                            assert(has_id(mid.servers@, e@));
                            assert(false);
                        }
                    },
                    None => {
                        assert(pre.servers@[l0].settings.port != server.settings.port);
                    },
                }
            }
            assert(!has_id(mid.servers@, server.id@)) by {
                if has_id(mid.servers@, server.id@) {
                    let w = choose|w: int|
                        0 <= w < mid.servers@.len() && #[trigger] mid.servers@[w].id@ == server.id@;
                    assert(contains_server(pre.servers@, mid.servers@[w]));
                    let w0 = choose|w0: int|
                        0 <= w0 < pre.servers@.len() && #[trigger] pre.servers@[w0]
                            == mid.servers@[w];
                    assert(has_id(pre.servers@, server.id@));
                }
            }
        }
        // Insert into the server list and the host index.
        let new_id = server.id;
        self.servers.push(server);
        let kb_opt = self.bucket_index(ip);
        match kb_opt {
            Some(kb) => {
                let mut b = self.addresses.remove(kb);
                b.ids.push(new_id);
                let ghost b_g = b;
                self.addresses.insert(kb, b);
                proof {
                    mid.addresses@.remove_ensures(kb as int);
                    mid.addresses@.remove(kb as int).insert_ensures(kb as int, b_g);
                    assert forall|k2: int|
                        0 <= k2 < mid.addresses@.len() && k2 != kb as int implies #[trigger] self.addresses@[k2]
                        == mid.addresses@[k2] by {
                        if k2 < kb as int {
                            assert(self.addresses@[k2] == mid.addresses@.remove(kb as int)[k2]);
                        } else {
                            assert(self.addresses@[k2] == mid.addresses@.remove(kb as int)[k2 - 1]);
                        }
                    }
                    assert(self.addresses@[kb as int] == b_g);
                }
            },
            None => {
                let mut ids: Vec<UniqueId> = Vec::new();
                ids.push(new_id);
                self.addresses.push(Bucket { ip, ids });
            },
        }
        proof {
            let ghost case_existing = kb_opt is Some;
            let ghost kb_ghost: int = match kb_opt {
                Some(kb) => kb as int,
                None => 0,
            };
            self.lemma_insert_restores(mid, server, case_existing, kb_ghost);
            assert(contains_server(self.servers@, server)) by {
                assert(self.servers@[self.servers@.len() - 1] == server);
            }
            // The evicted entry, if any, is gone for good.
            assert forall|i2: int|
                0 <= i2 < pre.servers@.len() && #[trigger] pre.servers@[i2].ip == server.ip
                    && pre.servers@[i2].settings.port == server.settings.port implies !has_id(
                self.servers@,
                pre.servers@[i2].id@,
            ) by {
                match evict {
                    Some(e) => {
                        let je = choose|je: int|
                            0 <= je < pre.servers@.len() && #[trigger] pre.servers@[je].id@ == e@
                                && pre.servers@[je].ip == server.ip
                                && pre.servers@[je].settings.port == server.settings.port;
                        if i2 != je {
                            assert(false);
                        }
                        if has_id(self.servers@, e@) {
                            let w = choose|w: int|
                                0 <= w < self.servers@.len() && #[trigger] self.servers@[w].id@
                                    == e@;
                            if w == self.servers@.len() - 1 {
                                assert(server.id@ == e@);
                                assert(has_id(pre.servers@, server.id@));
                                assert(false);
                            } else {
                                assert(has_id(mid.servers@, e@));
                                assert(false);
                            }
                        }
                    },
                    None => {
                        assert(false);
                    },
                }
            }
            // Other old servers survive.
            assert forall|i2: int|
                0 <= i2 < pre.servers@.len() && !(#[trigger] pre.servers@[i2].ip == server.ip
                    && pre.servers@[i2].settings.port
                    == server.settings.port) implies contains_server(
                self.servers@,
                pre.servers@[i2],
            ) by {
                match evict {
                    Some(e) => {
                        assert(pre.servers@[i2].id@ != e@) by {
                            let je = choose|je: int|
                                0 <= je < pre.servers@.len() && #[trigger] pre.servers@[je].id@
                                    == e@ && pre.servers@[je].ip == server.ip
                                    && pre.servers@[je].settings.port == server.settings.port;
                            if pre.servers@[i2].id@ == e@ {
                                if i2 != je {
                                    assert(false);
                                }
                                assert(false);
                            }
                        }
                        assert(contains_server(mid.servers@, pre.servers@[i2]));
                        let w = choose|w: int|
                            0 <= w < mid.servers@.len() && #[trigger] mid.servers@[w]
                                == pre.servers@[i2];
                        assert(self.servers@[w] == pre.servers@[i2]);
                    },
                    None => {
                        assert(self.servers@[i2] == pre.servers@[i2]);
                    },
                }
            }
            // Every final server is the new one or an old one.
            assert forall|i2: int| 0 <= i2 < self.servers@.len() implies #[trigger] self.servers@[
            i2] == server || contains_server(pre.servers@, self.servers@[i2]) by {
                if i2 < self.servers@.len() - 1 {
                    assert(contains_server(mid.servers@, self.servers@[i2]));
                    let w = choose|w: int|
                        0 <= w < mid.servers@.len() && #[trigger] mid.servers@[w]
                            == self.servers@[i2];
                    match evict {
                        Some(_) => {
                            assert(contains_server(pre.servers@, mid.servers@[w]));
                        },
                        None => {},
                    }
                }
            }
        }
        Ok(())
    }

    /// After appending a server whose identifier, game port and
    /// authentication port are fresh for its host, and indexing it, the
    /// invariant holds again.
    #[verifier::rlimit(100)]
    proof fn lemma_insert_restores(
        &self,
        mid: ServerList,
        server: Server,
        case_existing: bool,
        kb: int,
    )
        requires
            mid.wf(),
            !has_id(mid.servers@, server.id@),
            forall|l: int|
                0 <= l < mid.servers@.len() && #[trigger] mid.servers@[l].ip == server.ip
                    ==> mid.servers@[l].settings.auth_port != server.settings.auth_port
                    && mid.servers@[l].settings.port != server.settings.port,
            self.servers@ == mid.servers@.push(server),
            self.max_per_host == mid.max_per_host,
            case_existing ==> {
                &&& 0 <= kb < mid.addresses@.len()
                &&& mid.addresses@[kb].ip == server.ip
                &&& self.addresses@.len() == mid.addresses@.len()
                &&& forall|k2: int|
                    0 <= k2 < mid.addresses@.len() && k2 != kb ==> #[trigger] self.addresses@[k2]
                        == mid.addresses@[k2]
                &&& self.addresses@[kb].ip == server.ip
                &&& self.addresses@[kb].ids@ == mid.addresses@[kb].ids@.push(server.id)
            },
            !case_existing ==> {
                &&& forall|k2: int|
                    0 <= k2 < mid.addresses@.len() ==> #[trigger] mid.addresses@[k2].ip
                        != server.ip
                &&& self.addresses@.len() == mid.addresses@.len() + 1
                &&& forall|k2: int|
                    0 <= k2 < mid.addresses@.len() ==> #[trigger] self.addresses@[k2]
                        == mid.addresses@[k2]
                &&& self.addresses@[mid.addresses@.len() as int].ip == server.ip
                &&& self.addresses@[mid.addresses@.len() as int].ids@.len() == 1
                &&& self.addresses@[mid.addresses@.len() as int].ids@[0] == server.id
            },
        ensures
            self.wf(),
    {
        let n = mid.servers@.len() as int;
        let kn = mid.addresses@.len() as int;
        // The new identifier is indexed nowhere yet.
        assert forall|k2: int, j2: int|
            0 <= k2 < mid.addresses@.len() && 0 <= j2 < mid.addresses@[k2].ids@.len() implies #[trigger] mid.addresses@[k2].ids@[j2]@ != server.id@ by {
            if mid.addresses@[k2].ids@[j2]@ == server.id@ {
                assert(has_server_at(mid.servers@, mid.addresses@[k2].ip, server.id@));
            }
        }
        assert(self.servers@.len() == mid.servers@.len() + 1);
        assert(self.servers@[n] == server);
        assert forall|i: int| 0 <= i < n implies #[trigger] self.servers@[i] == mid.servers@[i] by {}
        assert(mid.ids_distinct());
        assert(mid.ports_distinct());
        assert(self.ids_distinct()) by {
            assert forall|i: int, j2: int|
                0 <= i < j2 < self.servers@.len() implies #[trigger] self.servers@[i].id@
                != #[trigger] self.servers@[j2].id@ by {
                assert(self.servers@[i] == mid.servers@[i]);
                if j2 == n {
                    assert(self.servers@[j2] == server);
                    if self.servers@[i].id@ == server.id@ {
                        assert(mid.servers@[i].id@ == server.id@);
                        assert(has_id(mid.servers@, server.id@));
                        assert(false);
                    }
                } else {
                    assert(self.servers@[j2] == mid.servers@[j2]);
                    assert(mid.servers@[i].id@ != mid.servers@[j2].id@);
                }
            }
        }
        assert(self.ports_distinct()) by {
            assert forall|i: int, j2: int|
                0 <= i < j2 < self.servers@.len() && #[trigger] self.servers@[i].ip
                    == #[trigger] self.servers@[j2].ip implies self.servers@[i].settings.auth_port
                != self.servers@[j2].settings.auth_port && self.servers@[i].settings.port
                != self.servers@[j2].settings.port by {}
        }
        assert(self.buckets_wf()) by {
            assert forall|k2: int, l: int|
                0 <= k2 < l < self.addresses@.len() implies #[trigger] self.addresses@[k2].ip
                != #[trigger] self.addresses@[l].ip by {
                if case_existing {
                    if k2 != kb && l != kb {
                        assert(self.addresses@[k2] == mid.addresses@[k2]);
                        assert(self.addresses@[l] == mid.addresses@[l]);
                    } else if k2 == kb {
                        assert(self.addresses@[l] == mid.addresses@[l]);
                    } else {
                        assert(self.addresses@[k2] == mid.addresses@[k2]);
                    }
                } else {
                    if l == kn {
                        assert(self.addresses@[k2] == mid.addresses@[k2]);
                    } else {
                        assert(self.addresses@[k2] == mid.addresses@[k2]);
                        assert(self.addresses@[l] == mid.addresses@[l]);
                    }
                }
            }
            assert forall|k2: int|
                0 <= k2 < self.addresses@.len() implies #[trigger] self.addresses@[k2].ids@.len()
                > 0 by {
                if case_existing {
                    if k2 != kb {
                        assert(self.addresses@[k2] == mid.addresses@[k2]);
                    }
                } else {
                    if k2 < kn {
                        assert(self.addresses@[k2] == mid.addresses@[k2]);
                    }
                }
            }
            assert forall|k2: int, i: int, j2: int|
                0 <= k2 < self.addresses@.len() && 0 <= i < j2 < self.addresses@[
                k2].ids@.len() implies #[trigger] self.addresses@[k2].ids@[i]@
                != #[trigger] self.addresses@[k2].ids@[j2]@ by {
                if case_existing {
                    if k2 != kb {
                        assert(self.addresses@[k2] == mid.addresses@[k2]);
                    } else {
                        let oldlen = mid.addresses@[kb].ids@.len() as int;
                        if j2 == oldlen {
                            assert(self.addresses@[k2].ids@[i]@ == mid.addresses@[kb].ids@[i]@);
                            assert(self.addresses@[k2].ids@[j2]@ == server.id@);
                        } else {
                            assert(self.addresses@[k2].ids@[i]@ == mid.addresses@[kb].ids@[i]@);
                            assert(self.addresses@[k2].ids@[j2]@ == mid.addresses@[kb].ids@[j2]@);
                        }
                    }
                } else {
                    if k2 < kn {
                        assert(self.addresses@[k2] == mid.addresses@[k2]);
                    }
                }
            }
        }
        assert(self.index_consistent()) by {
            assert forall|i: int| 0 <= i < self.servers@.len() implies in_index(
                self.addresses@,
                #[trigger] self.servers@[i].ip,
                self.servers@[i].id@,
            ) by {
                if i == n {
                    if case_existing {
                        let oldlen = mid.addresses@[kb].ids@.len() as int;
                        assert(self.addresses@[kb].ids@[oldlen]@ == server.id@);
                        assert(bucket_has(self.addresses@[kb], server.id@));
                    } else {
                        assert(self.addresses@[kn].ids@[0]@ == server.id@);
                        assert(bucket_has(self.addresses@[kn], server.id@));
                    }
                } else {
                    assert(self.servers@[i] == mid.servers@[i]);
                    assert(in_index(mid.addresses@, mid.servers@[i].ip, mid.servers@[i].id@));
                    let k2 = choose|k2: int|
                        0 <= k2 < mid.addresses@.len() && #[trigger] mid.addresses@[k2].ip
                            == mid.servers@[i].ip && bucket_has(
                            mid.addresses@[k2],
                            mid.servers@[i].id@,
                        );
                    let j2 = choose|j2: int|
                        0 <= j2 < mid.addresses@[k2].ids@.len()
                            && #[trigger] mid.addresses@[k2].ids@[j2]@ == mid.servers@[i].id@;
                    if case_existing && k2 == kb {
                        assert(self.addresses@[kb].ids@[j2]@ == mid.servers@[i].id@);
                        assert(bucket_has(self.addresses@[kb], mid.servers@[i].id@));
                    } else {
                        assert(self.addresses@[k2] == mid.addresses@[k2]);
                        assert(bucket_has(self.addresses@[k2], mid.servers@[i].id@));
                    }
                }
            }
            assert forall|k2: int, j2: int|
                0 <= k2 < self.addresses@.len() && 0 <= j2 < self.addresses@[
                k2].ids@.len() implies has_server_at(
                self.servers@,
                self.addresses@[k2].ip,
                #[trigger] self.addresses@[k2].ids@[j2]@,
            ) by {
                let ip0 = self.addresses@[k2].ip;
                let id0 = self.addresses@[k2].ids@[j2]@;
                let new_entry = if case_existing {
                    k2 == kb && j2 == mid.addresses@[kb].ids@.len()
                } else {
                    k2 == kn
                };
                if new_entry {
                    assert(id0 == server.id@);
                    assert(ip0 == server.ip);
                    assert(self.servers@[n].id@ == id0 && self.servers@[n].ip == ip0);
                } else {
                    if case_existing && k2 == kb {
                        assert(mid.addresses@[kb].ids@[j2]@ == id0);
                        assert(has_server_at(mid.servers@, mid.addresses@[kb].ip, id0));
                    } else {
                        assert(self.addresses@[k2] == mid.addresses@[k2]);
                        assert(has_server_at(mid.servers@, mid.addresses@[k2].ip, id0));
                    }
                    let w = choose|w: int|
                        0 <= w < mid.servers@.len() && #[trigger] mid.servers@[w].id@ == id0
                            && mid.servers@[w].ip == ip0;
                    assert(self.servers@[w].id@ == id0 && self.servers@[w].ip == ip0);
                }
            }
        }
    }

    /// Removes every server that has not been seen for more than the
    /// liveness window. Fresh servers stay, stale ones disappear from the
    /// server list and the host index alike.
    pub fn remove_inactive(&mut self, now: u64)
        requires
            old(self).wf(),
        ensures
            final(self).wf(),
            final(self).max_per_host == old(self).max_per_host,
            forall|i: int|
                0 <= i < final(self).servers@.len() ==> age_of(
                    #[trigger] final(self).servers@[i],
                    now,
                ) <= INACTIVE_AFTER_SECS && contains_server(
                    old(self).servers@,
                    final(self).servers@[i],
                ),
            forall|i: int|
                0 <= i < old(self).servers@.len() && age_of(#[trigger] old(self).servers@[i], now)
                    <= INACTIVE_AFTER_SECS ==> contains_server(
                    final(self).servers@,
                    old(self).servers@[i],
                ),
    {
        let mut i: usize = 0;
        while i < self.servers.len()
            invariant
                self.wf(),
                self.max_per_host == old(self).max_per_host,
                i <= self.servers@.len(),
                forall|j: int|
                    0 <= j < i ==> age_of(#[trigger] self.servers@[j], now) <= INACTIVE_AFTER_SECS,
                forall|j: int|
                    0 <= j < self.servers@.len() ==> contains_server(
                        old(self).servers@,
                        #[trigger] self.servers@[j],
                    ),
                forall|j: int|
                    0 <= j < old(self).servers@.len() && age_of(
                        #[trigger] old(self).servers@[j],
                        now,
                    ) <= INACTIVE_AFTER_SECS ==> contains_server(
                        self.servers@,
                        old(self).servers@[j],
                    ),
            decreases self.servers@.len() - i,
        {
            let last = self.servers[i].last_seen;
            let age: u64 = if now >= last {
                now - last
            } else {
                0
            };
            if age > INACTIVE_AFTER_SECS {
                let id = self.servers[i].id;
                let ghost pre = *self;
                proof {
                    assert(has_id(pre.servers@, id@)) by {
                        assert(pre.servers@[i as int].id@ == id@);
                    }
                }
                self.remove(&id);
                proof {
                    let r0 = choose|r0: int|
                        0 <= r0 < pre.servers@.len() && #[trigger] pre.servers@[r0].id@ == id@
                            && self.servers@ == pre.servers@.remove(r0);
                    assert(r0 == i as int) by {
                        if r0 != i as int {
                            assert(pre.servers@[r0].id@ == pre.servers@[i as int].id@);
                        }
                    }
                    pre.servers@.remove_ensures(i as int);
                    // The prefix of fresh servers is unchanged.
                    assert forall|j: int|
                        0 <= j < i implies age_of(#[trigger] self.servers@[j], now)
                        <= INACTIVE_AFTER_SECS by {
                        assert(self.servers@[j] == pre.servers@[j]);
                    }
                    // Everything still present was present before this step.
                    assert forall|j: int|
                        0 <= j < self.servers@.len() implies contains_server(
                        old(self).servers@,
                        #[trigger] self.servers@[j],
                    ) by {
                        let j2 = if j < i as int {
                            j
                        } else {
                            j + 1
                        };
                        assert(self.servers@[j] == pre.servers@[j2]);
                    }
                    // Fresh servers survive this step: the removed one was
                    // stale.
                    assert forall|j: int|
                        0 <= j < old(self).servers@.len() && age_of(
                            #[trigger] old(self).servers@[j],
                            now,
                        ) <= INACTIVE_AFTER_SECS implies contains_server(
                        self.servers@,
                        old(self).servers@[j],
                    ) by {
                        assert(contains_server(pre.servers@, old(self).servers@[j]));
                        let w = choose|w: int|
                            0 <= w < pre.servers@.len() && #[trigger] pre.servers@[w] == old(
                                self,
                            ).servers@[j];
                        assert(w != i as int) by {
                            if w == i as int {
                                assert(age_of(pre.servers@[w], now) > INACTIVE_AFTER_SECS);
                            }
                        }
                        let w2 = if w < i as int {
                            w
                        } else {
                            w - 1
                        };
                        assert(self.servers@[w2] == pre.servers@[w]);
                    }
                }
            } else {
                proof {
                    assert(age_of(self.servers@[i as int], now) <= INACTIVE_AFTER_SECS);
                }
                i += 1;
            }
        }
    }

    /// Refreshes a server's liveness stamp and applies a partial update to
    /// its settings, provided the request comes from the server's own host
    /// address. Returns whether anything was updated.
    pub fn update(&mut self, param: UpdateServerParam, ip: HostIp, now: u64) -> (r: bool)
        requires
            old(self).wf(),
        ensures
            final(self).wf(),
            final(self).max_per_host == old(self).max_per_host,
            final(self).addresses@ == old(self).addresses@,
            !has_id(old(self).servers@, param.id@) ==> !r && *final(self) == *old(self),
            has_id(old(self).servers@, param.id@) ==> exists|i: int|
                0 <= i < old(self).servers@.len() && #[trigger] old(self).servers@[i].id@
                    == param.id@ && (if old(self).servers@[i].ip == ip {
                    r && final(self).servers@ == old(self).servers@.update(
                        i,
                        spec_apply(param, old(self).servers@[i], now),
                    )
                } else {
                    !r && *final(self) == *old(self)
                }),
    {
        let idx = match self.server_index(&param.id) {
            Some(i) => i,
            None => {
                return false;
            },
        };
        if self.servers[idx].ip != ip {
            return false;
        }
        let ghost pre = *self;
        let mut s = self.servers.remove(idx);
        let ghost orig = s;
        s.last_seen = now;
        match param.name {
            Some(n) => {
                s.settings.name = n;
            },
            None => {},
        }
        match param.description {
            Some(d) => {
                s.settings.description = d;
            },
            None => {},
        }
        match param.map {
            Some(m) => {
                s.settings.map = m;
            },
            None => {},
        }
        match param.playlist {
            Some(p) => {
                s.settings.playlist = p;
            },
            None => {},
        }
        match param.max_players {
            Some(m) => {
                s.settings.max_players = m;
            },
            None => {},
        }
        match param.password {
            Some(pw) => {
                if pw.as_str().is_empty() {
                    s.settings.password = None;
                } else {
                    s.settings.password = Some(pw);
                }
            },
            None => {},
        }
        match param.player_count {
            Some(c) => {
                s.player_count = Some(c);
            },
            None => {},
        }
        proof {
            assert(s == spec_apply(param, orig, now));
        }
        self.servers.insert(idx, s);
        proof {
            pre.servers@.remove_ensures(idx as int);
            pre.servers@.remove(idx as int).insert_ensures(idx as int, s);
            assert(self.servers@ =~= pre.servers@.update(idx as int, s)) by {
                assert forall|j: int| 0 <= j < self.servers@.len() implies #[trigger] self.servers@[j]
                    == pre.servers@.update(idx as int, s)[j] by {
                    if j < idx as int {
                        assert(self.servers@[j] == pre.servers@.remove(idx as int)[j]);
                    } else if j > idx as int {
                        assert(self.servers@[j] == pre.servers@.remove(idx as int)[j - 1]);
                    }
                }
            }
            // The update keeps identity, host, ports: the invariant survives.
            assert forall|j: int| 0 <= j < self.servers@.len() implies {
                &&& #[trigger] self.servers@[j].id@ == pre.servers@[j].id@
                &&& self.servers@[j].ip == pre.servers@[j].ip
                &&& self.servers@[j].settings.port == pre.servers@[j].settings.port
                &&& self.servers@[j].settings.auth_port == pre.servers@[j].settings.auth_port
            } by {}
            assert(self.wf()) by {
                assert forall|i2: int| 0 <= i2 < self.servers@.len() implies in_index(
                    self.addresses@,
                    #[trigger] self.servers@[i2].ip,
                    self.servers@[i2].id@,
                ) by {
                    assert(in_index(pre.addresses@, pre.servers@[i2].ip, pre.servers@[i2].id@));
                }
                assert forall|k2: int, j2: int|
                    0 <= k2 < self.addresses@.len() && 0 <= j2 < self.addresses@[
                    k2].ids@.len() implies has_server_at(
                    self.servers@,
                    self.addresses@[k2].ip,
                    #[trigger] self.addresses@[k2].ids@[j2]@,
                ) by {
                    assert(has_server_at(
                        pre.servers@,
                        pre.addresses@[k2].ip,
                        pre.addresses@[k2].ids@[j2]@,
                    ));
                    let w = choose|w: int|
                        0 <= w < pre.servers@.len() && #[trigger] pre.servers@[w].id@
                            == pre.addresses@[k2].ids@[j2]@ && pre.servers@[w].ip
                            == pre.addresses@[k2].ip;
                    assert(self.servers@[w].id@ == pre.servers@[w].id@ && self.servers@[w].ip
                        == pre.servers@[w].ip);
                }
            }
            assert(pre.servers@[idx as int].id@ == param.id@);
        }
        true
    }

    /// Deregisters a server on its own request: the server is removed only
    /// when the request comes from its stored host address.
    pub fn deregister(&mut self, id: &UniqueId, ip: HostIp) -> (r: bool)
        requires
            old(self).wf(),
        ensures
            final(self).wf(),
            final(self).max_per_host == old(self).max_per_host,
            r == exists|i: int|
                0 <= i < old(self).servers@.len() && #[trigger] old(self).servers@[i].id@ == id@
                    && old(self).servers@[i].ip == ip,
            !r ==> *final(self) == *old(self),
            r ==> !has_id(final(self).servers@, id@) && forall|i: int|
                0 <= i < old(self).servers@.len() && #[trigger] old(self).servers@[i].id@ != id@
                    ==> contains_server(final(self).servers@, old(self).servers@[i]),
    {
        let owned = match self.get(id) {
            Some(s) => s.ip() == ip,
            None => false,
        };
        proof {
            if owned {
                let w = choose|w: int|
                    0 <= w < self.servers@.len() && #[trigger] self.servers@[w].id@ == id@;
            } else {
                if exists|i: int|
                    0 <= i < self.servers@.len() && #[trigger] self.servers@[i].id@ == id@
                        && self.servers@[i].ip == ip {
                    let w = choose|w: int|
                        0 <= w < self.servers@.len() && #[trigger] self.servers@[w].id@ == id@
                            && self.servers@[w].ip == ip;
                    assert(has_id(self.servers@, id@));
                    assert(false);
                }
            }
        }
        if owned {
            self.remove(id);
            true
        } else {
            false
        }
    }

    /// Builds the public listing: one entry per server seen within the
    /// listing window, in registry order.
    pub fn listing(&self, now: u64) -> (r: Vec<ServerListEntry>)
        ensures
            r@.len() == self.servers@.filter(
                |s: Server| age_of(s, now) < LISTED_WITHIN_SECS,
            ).len(),
            r@.len() <= self.servers@.len(),
            forall|i: int|
                0 <= i < r@.len() ==> entry_matches(
                    #[trigger] r@[i],
                    self.servers@.filter(|s: Server| age_of(s, now) < LISTED_WITHIN_SECS)[i],
                    now,
                ) && age_of(
                    self.servers@.filter(|s: Server| age_of(s, now) < LISTED_WITHIN_SECS)[i],
                    now,
                ) < LISTED_WITHIN_SECS,
    {
        let ghost pred = |s: Server| age_of(s, now) < LISTED_WITHIN_SECS;
        let mut r: Vec<ServerListEntry> = Vec::new();
        let mut i: usize = 0;
        proof {
            assert(self.servers@.take(0) =~= Seq::<Server>::empty());
            reveal_with_fuel(Seq::filter, 1);
            assert(Seq::<Server>::empty().filter(pred).len() == 0);
        }
        while i < self.servers.len()
            invariant
                i <= self.servers@.len(),
                r@.len() == self.servers@.take(i as int).filter(pred).len(),
                r@.len() <= i,
                forall|j: int|
                    0 <= j < r@.len() ==> entry_matches(
                        #[trigger] r@[j],
                        self.servers@.take(i as int).filter(pred)[j],
                        now,
                    ),
                pred == (|s: Server| age_of(s, now) < LISTED_WITHIN_SECS),
            decreases self.servers@.len() - i,
        {
            let srv = &self.servers[i];
            let last = srv.last_seen;
            let age: u64 = if now >= last {
                now - last
            } else {
                0
            };
            let ghost prefix = self.servers@.take(i as int);
            proof {
                assert(self.servers@.take(i as int + 1).drop_last() =~= prefix);
                assert(self.servers@.take(i as int + 1).last() == self.servers@[i as int]);
                reveal_with_fuel(Seq::filter, 2);
            }
            if age < LISTED_WITHIN_SECS {
                let e = entry_of(srv);
                r.push(e);
                proof {
                    assert(pred(self.servers@[i as int]));
                    assert(self.servers@.take(i as int + 1).filter(pred) == prefix.filter(
                        pred,
                    ).push(self.servers@[i as int]));
                }
            } else {
                proof {
                    assert(!pred(self.servers@[i as int]));
                    assert(self.servers@.take(i as int + 1).filter(pred) == prefix.filter(pred));
                }
            }
            i += 1;
        }
        proof {
            assert(self.servers@.take(self.servers@.len() as int) =~= self.servers@);
            self.servers@.lemma_filter_len(pred);
            assert forall|j: int| #![trigger r@[j]] 0 <= j < r@.len() implies age_of(
                self.servers@.filter(pred)[j],
                now,
            ) < LISTED_WITHIN_SECS by {
                self.servers@.lemma_filter_pred(pred, j);
            }
        }
        r
    }

    /// Looks a server up by its identifier.
    pub fn get(&self, k: &UniqueId) -> (r: Option<&Server>)
        ensures
            match r {
                Some(s) => s.id@ == k@ && contains_server(self.servers@, *s),
                None => !has_id(self.servers@, k@),
            },
    {
        match self.server_index(k) {
            Some(i) => {
                let s = &self.servers[i];
                proof {
                    assert(contains_server(self.servers@, self.servers@[i as int]));
                }
                Some(s)
            },
            None => None,
        }
    }
}

} // verus!
