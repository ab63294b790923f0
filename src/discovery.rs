//! The peer directory: what each discovery event and each health probe does
//! to the table of known peers, and what the host is told about it.

use vstd::prelude::*;
use dashmap::DashMap;

verus! {

/// A peer is probed once it has not been heard from for longer than this (ms).
pub const PEER_STALE_THRESHOLD_MS: u64 = 15000;
/// Consecutive failed probes after which a peer loses its LAN link.
pub const MAX_MISSED_PINGS: u32 = 3;

/// How a peer can be reached.
#[derive(Debug, Clone, Copy, PartialEq, Eq, Structural)]
pub enum TransportType {
    Lan,
    BleOnly,
    Hybrid,
}

/// The label that the host sees for each kind of link.
pub open spec fn transport_label(t: TransportType) -> Seq<char> {
    match t {
        TransportType::Lan => "LAN"@,
        TransportType::BleOnly => "BLE"@,
        TransportType::Hybrid => "HYBRID"@,
    }
}

impl TransportType {
    /// The label of this kind of link: `LAN`, `BLE` or `HYBRID`.
    pub fn to_string(&self) -> (r: String)
        ensures
            r@ == transport_label(*self),
    {
        match self {
            TransportType::Lan => String::from_str("LAN"),
            TransportType::BleOnly => String::from_str("BLE"),
            TransportType::Hybrid => String::from_str("HYBRID"),
        }
    }
}

/// One known peer. `ip` is the address text that discovery reported, and
/// `last_seen` a reading of a monotonic clock in milliseconds.
#[derive(Clone)]
pub struct PeerInfo {
    pub id: String,
    pub name: String,
    pub display_name: String,
    pub ip: Option<String>,
    pub port: u16,
    pub ssid: Option<String>,
    pub ble_mac: Option<String>,
    pub transport: TransportType,
    pub last_seen: u64,
    pub missed_pings: u32,
}

/// What the discovery sources report.
pub enum DiscoveryInternalEvent {
    MdnsFound { id: String, name: String, ip: String, port: u16 },
    MdnsLost { id: String },
    BleFound { id: String, name: String, ssid: Option<String>, mac: String },
}

/// What the host is to be told after an event or a probe.
pub enum DiscoveryAction {
    Nothing,
    PeerFound {
        id: String,
        name: String,
        ip: String,
        port: u16,
        ssid: Option<String>,
        transport: TransportType,
    },
    PeerLost { id: String },
}

/// A peer whose LAN link is to be probed.
pub struct ProbeTarget {
    pub id: String,
    pub ip: String,
    pub port: u16,
    pub name: String,
}

/// The kind of link agrees with the addresses the peer has.
pub open spec fn link_ok(p: PeerInfo) -> bool {
    match p.transport {
        TransportType::Lan => p.ip is Some,
        TransportType::BleOnly => p.ip is None && p.ble_mac is Some,
        TransportType::Hybrid => p.ip is Some && p.ble_mac is Some,
    }
}

/// A peer first seen over mDNS.
pub open spec fn new_lan_peer(id: String, name: String, ip: String, port: u16, now: u64) -> PeerInfo {
    PeerInfo {
        id,
        name,
        display_name: name,
        ip: Some(ip),
        port,
        ssid: None,
        ble_mac: None,
        transport: TransportType::Lan,
        last_seen: now,
        missed_pings: 0,
    }
}

/// A known peer seen again over mDNS: a BLE-only link becomes hybrid.
pub open spec fn mdns_refreshed(p: PeerInfo, ip: String, port: u16, now: u64) -> PeerInfo {
    PeerInfo {
        ip: Some(ip),
        port,
        last_seen: now,
        missed_pings: 0,
        transport: if p.transport == TransportType::BleOnly {
            TransportType::Hybrid
        } else {
            p.transport
        },
        ..p
    }
}

/// A peer first seen over BLE.
pub open spec fn new_ble_peer(
    id: String,
    name: String,
    ssid: Option<String>,
    mac: String,
    now: u64,
) -> PeerInfo {
    PeerInfo {
        id,
        name,
        display_name: name,
        ip: None,
        port: 0,
        ssid,
        ble_mac: Some(mac),
        transport: TransportType::BleOnly,
        last_seen: now,
        missed_pings: 0,
    }
}

/// A known peer seen again over BLE: a LAN link becomes hybrid.
pub open spec fn ble_refreshed(p: PeerInfo, ssid: Option<String>, mac: String, now: u64) -> PeerInfo {
    PeerInfo {
        ssid,
        ble_mac: Some(mac),
        last_seen: now,
        transport: if p.transport == TransportType::Lan {
            TransportType::Hybrid
        } else {
            p.transport
        },
        ..p
    }
}

/// A hybrid peer whose LAN link is gone.
pub open spec fn lan_dropped(p: PeerInfo) -> PeerInfo {
    PeerInfo { transport: TransportType::BleOnly, ip: None, ..p }
}

/// The peer is due for a probe at time `now`.
pub open spec fn is_suspect(p: PeerInfo, now: u64) -> bool {
    p.transport != TransportType::BleOnly && p.ip is Some && now > p.last_seen && now
        - p.last_seen > PEER_STALE_THRESHOLD_MS
}

/// The peer after one more failed probe.
pub open spec fn probe_missed(p: PeerInfo) -> PeerInfo {
    PeerInfo {
        missed_pings: if p.missed_pings < u32::MAX {
            (p.missed_pings + 1) as u32
        } else {
            p.missed_pings
        },
        ..p
    }
}

/// The table after an event at time `now`.
pub open spec fn table_after_event(
    m: Map<Seq<char>, PeerInfo>,
    e: DiscoveryInternalEvent,
    now: u64,
) -> Map<Seq<char>, PeerInfo> {
    match e {
        DiscoveryInternalEvent::MdnsFound { id, name, ip, port } => if m.contains_key(id@) {
            m.insert(id@, mdns_refreshed(m[id@], ip, port, now))
        } else {
            m.insert(id@, new_lan_peer(id, name, ip, port, now))
        },
        DiscoveryInternalEvent::BleFound { id, name, ssid, mac } => if m.contains_key(id@) {
            m.insert(id@, ble_refreshed(m[id@], ssid, mac, now))
        } else {
            m.insert(id@, new_ble_peer(id, name, ssid, mac, now))
        },
        DiscoveryInternalEvent::MdnsLost { id } => if !m.contains_key(id@) {
            m
        } else if m[id@].transport == TransportType::Hybrid {
            m.insert(id@, lan_dropped(m[id@]))
        } else {
            m.remove(id@)
        },
    }
}

/// `r` announces a found peer with these fields.
pub open spec fn announces(
    r: DiscoveryAction,
    id: Seq<char>,
    name: Seq<char>,
    ip: Seq<char>,
    port: u16,
    ssid: Option<String>,
    transport: TransportType,
) -> bool {
    match r {
        DiscoveryAction::PeerFound { id: i, name: n, ip: a, port: p, ssid: s, transport: t } => {
            i@ == id && n@ == name && a@ == ip && p == port && s == ssid && t == transport
        },
        _ => false,
    }
}

/// `r` is what the host is told after event `e` at time `now` on table `m`.
pub open spec fn action_after_event(
    m: Map<Seq<char>, PeerInfo>,
    e: DiscoveryInternalEvent,
    now: u64,
    r: DiscoveryAction,
) -> bool {
    match e {
        DiscoveryInternalEvent::MdnsFound { id, name, ip, port } => if m.contains_key(id@) {
            announces(
                r,
                id@,
                m[id@].display_name@,
                ip@,
                port,
                m[id@].ssid,
                mdns_refreshed(m[id@], ip, port, now).transport,
            )
        } else {
            announces(r, id@, name@, ip@, port, None, TransportType::Lan)
        },
        DiscoveryInternalEvent::BleFound { id, name, ssid, mac } => if m.contains_key(id@) {
            r is Nothing
        } else {
            announces(r, id@, name@, Seq::empty(), 0, ssid, TransportType::BleOnly)
        },
        DiscoveryInternalEvent::MdnsLost { id } => if m.contains_key(id@)
            && m[id@].transport != TransportType::Hybrid {
            r == DiscoveryAction::PeerLost { id: m[id@].id }
        } else {
            r is Nothing
        },
    }
}

/// The table after a probe of `id` that succeeded (`alive`) or failed.
pub open spec fn table_after_probe(
    m: Map<Seq<char>, PeerInfo>,
    id: Seq<char>,
    alive: bool,
    now: u64,
) -> Map<Seq<char>, PeerInfo> {
    if !m.contains_key(id) {
        m
    } else if alive {
        m.insert(id, PeerInfo { last_seen: now, missed_pings: 0, ..m[id] })
    } else {
        let q = probe_missed(m[id]);
        if q.missed_pings >= MAX_MISSED_PINGS && q.transport == TransportType::Hybrid {
            m.insert(id, lan_dropped(q))
        } else if q.missed_pings >= MAX_MISSED_PINGS && q.transport == TransportType::Lan {
            m.remove(id)
        } else {
            m.insert(id, q)
        }
    }
}

/// What the host is told after a probe: only a LAN peer that is removed.
pub open spec fn action_after_probe(
    m: Map<Seq<char>, PeerInfo>,
    id: Seq<char>,
    alive: bool,
) -> DiscoveryAction {
    if m.contains_key(id) && !alive && probe_missed(m[id]).missed_pings >= MAX_MISSED_PINGS
        && m[id].transport == TransportType::Lan {
        DiscoveryAction::PeerLost { id: m[id].id }
    } else {
        DiscoveryAction::Nothing
    }
}

/// A copy of an optional text.
pub fn copy_opt_text(o: &Option<String>) -> (r: Option<String>)
    ensures
        r == *o,
{
    match o {
        Some(s) => Some(s.clone()),
        None => None,
    }
}

#[verifier::external_type_specification]
#[verifier::external_body]
#[verifier::reject_recursive_types(K)]
#[verifier::reject_recursive_types(V)]
#[verifier::reject_recursive_types(S)]
pub struct ExDashMap<K, V, S>(DashMap<K, V, S>);

/// A concurrent map of peers keyed by peer id.
pub type PeerMap = DashMap<String, PeerInfo>;

/// The peers that a `DashMap` of peers holds, keyed by peer id.
pub uninterp spec fn peers_in(m: PeerMap) -> Map<Seq<char>, PeerInfo>;

/// No peers.
pub open spec fn no_peers() -> Map<Seq<char>, PeerInfo> {
    Map::empty()
}

/// Relies on `DashMap::new`: an empty map.
#[verifier::external_body]
fn peer_map_new() -> (r: PeerMap)
    ensures
        peers_in(r) == no_peers(),
{
    DashMap::new()
}

/// Relies on `DashMap::len`: the number of entries.
#[verifier::external_body]
fn peer_map_len(m: &PeerMap) -> (r: usize)
    ensures
        r == peers_in(*m).dom().len(),
{
    m.len()
}

/// Relies on `DashMap::insert`: `v` is stored under `k`, replacing what was there.
#[verifier::external_body]
fn peer_map_insert(m: &mut PeerMap, k: String, v: PeerInfo)
    ensures
        peers_in(*final(m)) == peers_in(*old(m)).insert(k@, v),
{
    m.insert(k, v);
}

/// Relies on `DashMap::remove`: the entry under `k` is taken out and its value returned.
#[verifier::external_body]
fn peer_map_remove(m: &mut PeerMap, k: &str) -> (r: Option<PeerInfo>)
    ensures
        peers_in(*final(m)) == peers_in(*old(m)).remove(k@),
        r is None <==> !peers_in(*old(m)).contains_key(k@),
        r is Some ==> r->0 == peers_in(*old(m))[k@],
{
    m.remove(k).map(|(_, v)| v)
}

/// Relies on `DashMap::get` and `PeerInfo`'s derived `Clone`, which clones
/// each field: a copy of the value under `k`.
#[verifier::external_body]
fn peer_map_get(m: &PeerMap, k: &str) -> (r: Option<PeerInfo>)
    ensures
        r is None <==> !peers_in(*m).contains_key(k@),
        r is Some ==> r->0 == peers_in(*m)[k@],
{
    m.get(k).map(|e| e.value().clone())
}

/// Relies on `DashMap::iter`: the key of every entry, each once.
#[verifier::external_body]
fn peer_map_keys(m: &PeerMap) -> (r: Vec<String>)
    ensures
        forall|i: int| 0 <= i < r@.len() ==> peers_in(*m).contains_key((#[trigger] r@[i])@),
        forall|k: Seq<char>| #[trigger] peers_in(*m).contains_key(k)
            ==> exists|i: int| 0 <= i < r@.len() && (#[trigger] r@[i])@ == k,
{
    m.iter().map(|e| e.key().clone()).collect()
}

/// The peers known to this node, keyed by peer id.
pub struct PeerTable {
    pub peers: PeerMap,
}

impl PeerTable {
    /// Keys are the peers' ids, and each peer's link agrees with its addresses.
    pub open spec fn wf(&self) -> bool {
        &&& forall|k: Seq<char>| #[trigger] self@.contains_key(k) ==> self@[k].id@ == k
        &&& forall|k: Seq<char>| #[trigger] self@.contains_key(k) ==> link_ok(self@[k])
    }

    pub open spec fn view(&self) -> Map<Seq<char>, PeerInfo> {
        peers_in(self.peers)
    }

    /// An empty table.
    pub fn new() -> (r: Self)
        ensures
            r.wf(),
            r@ == Map::<Seq<char>, PeerInfo>::empty(),
    {
        PeerTable { peers: peer_map_new() }
    }

    /// The number of known peers.
    pub fn len(&self) -> (r: usize)
        requires
            self.wf(),
        ensures
            r == self@.dom().len(),
    {
        peer_map_len(&self.peers)
    }

    /// A copy of the peer with id `id`.
    pub fn get(&self, id: &str) -> (r: Option<PeerInfo>)
        requires
            self.wf(),
        ensures
            r is None <==> !self@.contains_key(id@),
            r is Some ==> r->0 == self@[id@],
    {
        peer_map_get(&self.peers, id)
    }

    /// Takes the peer with id `id` out.
    fn take(&mut self, id: &str) -> (r: Option<PeerInfo>)
        requires
            old(self).wf(),
        ensures
            final(self).wf(),
            final(self)@ == old(self)@.remove(id@),
            r is None <==> !old(self)@.contains_key(id@),
            r is Some ==> r->0 == old(self)@[id@],
    {
        peer_map_remove(&mut self.peers, id)
    }

    /// Stores `p` under its own id.
    fn put(&mut self, p: PeerInfo)
        requires
            old(self).wf(),
            link_ok(p),
        ensures
            final(self).wf(),
            final(self)@ == old(self)@.insert(p.id@, p),
    {
        let k = p.id.clone();
        peer_map_insert(&mut self.peers, k, p);
    }

    /// Applies one discovery event received at time `now`, and says what the
    /// host is to be told.
    pub fn handle_event(&mut self, event: DiscoveryInternalEvent, now: u64) -> (r: DiscoveryAction)
        requires
            old(self).wf(),
        ensures
            final(self).wf(),
            final(self)@ == table_after_event(old(self)@, event, now),
            action_after_event(old(self)@, event, now, r),
    {
        let ghost m = self@;
        let ghost e = event;
        match event {
            DiscoveryInternalEvent::MdnsFound { id, name, ip, port } => {
                match self.take(id.as_str()) {
                    Some(p) => {
                        let transport = if p.transport == TransportType::BleOnly {
                            TransportType::Hybrid
                        } else {
                            p.transport
                        };
                        let q = PeerInfo {
                            ip: Some(ip.clone()),
                            port,
                            last_seen: now,
                            missed_pings: 0,
                            transport,
                            ..p
                        };
                        let r = DiscoveryAction::PeerFound {
                            id: id.clone(),
                            name: q.display_name.clone(),
                            ip,
                            port,
                            ssid: copy_opt_text(&q.ssid),
                            transport,
                        };
                        self.put(q);
                        assert(self@ =~= table_after_event(m, e, now));
                        r
                    },
                    None => {
                        let p = PeerInfo {
                            id: id.clone(),
                            name: name.clone(),
                            display_name: name.clone(),
                            ip: Some(ip.clone()),
                            port,
                            ssid: None,
                            ble_mac: None,
                            transport: TransportType::Lan,
                            last_seen: now,
                            missed_pings: 0,
                        };
                        self.put(p);
                        assert(self@ =~= table_after_event(m, e, now));
                        DiscoveryAction::PeerFound {
                            id,
                            name,
                            ip,
                            port,
                            ssid: None,
                            transport: TransportType::Lan,
                        }
                    },
                }
            },
            DiscoveryInternalEvent::BleFound { id, name, ssid, mac } => {
                match self.take(id.as_str()) {
                    Some(p) => {
                        let transport = if p.transport == TransportType::Lan {
                            TransportType::Hybrid
                        } else {
                            p.transport
                        };
                        let q = PeerInfo {
                            ssid,
                            ble_mac: Some(mac),
                            last_seen: now,
                            transport,
                            ..p
                        };
                        self.put(q);
                        assert(self@ =~= table_after_event(m, e, now));
                        DiscoveryAction::Nothing
                    },
                    None => {
                        let p = PeerInfo {
                            id: id.clone(),
                            name: name.clone(),
                            display_name: name.clone(),
                            ip: None,
                            port: 0,
                            ssid: copy_opt_text(&ssid),
                            ble_mac: Some(mac),
                            transport: TransportType::BleOnly,
                            last_seen: now,
                            missed_pings: 0,
                        };
                        self.put(p);
                        assert(self@ =~= table_after_event(m, e, now));
                        DiscoveryAction::PeerFound {
                            id,
                            name,
                            ip: String::new(),
                            port: 0,
                            ssid,
                            transport: TransportType::BleOnly,
                        }
                    },
                }
            },
            DiscoveryInternalEvent::MdnsLost { id } => {
                match self.take(id.as_str()) {
                    Some(p) => {
                        if p.transport == TransportType::Hybrid {
                            let q = PeerInfo { transport: TransportType::BleOnly, ip: None, ..p };
                            self.put(q);
                            assert(self@ =~= table_after_event(m, e, now));
                            DiscoveryAction::Nothing
                        } else {
                            DiscoveryAction::PeerLost { id: p.id }
                        }
                    },
                    None => DiscoveryAction::Nothing,
                }
            },
        }
    }

    /// Applies the outcome of a probe of `id`: a success refreshes the peer,
    /// a failure counts a missed ping, and at the third one a hybrid peer
    /// falls back to BLE while a LAN peer is removed and reported lost.
    pub fn apply_probe_result(&mut self, id: &str, alive: bool, now: u64) -> (r: DiscoveryAction)
        requires
            old(self).wf(),
        ensures
            final(self).wf(),
            final(self)@ == table_after_probe(old(self)@, id@, alive, now),
            r == action_after_probe(old(self)@, id@, alive),
    {
        let ghost m = self@;
        match self.take(id) {
            None => {
                assert(self@ =~= m);
                DiscoveryAction::Nothing
            },
            Some(p) => {
                if alive {
                    let q = PeerInfo { last_seen: now, missed_pings: 0, ..p };
                    self.put(q);
                    assert(self@ =~= table_after_probe(m, id@, alive, now));
                    return DiscoveryAction::Nothing;
                }
                let missed = if p.missed_pings < u32::MAX {
                    p.missed_pings + 1
                } else {
                    p.missed_pings
                };
                let q = PeerInfo { missed_pings: missed, ..p };
                if missed >= MAX_MISSED_PINGS && q.transport == TransportType::Hybrid {
                    let d = PeerInfo { transport: TransportType::BleOnly, ip: None, ..q };
                    self.put(d);
                    assert(self@ =~= table_after_probe(m, id@, alive, now));
                    DiscoveryAction::Nothing
                } else if missed >= MAX_MISSED_PINGS && q.transport == TransportType::Lan {
                    DiscoveryAction::PeerLost { id: q.id }
                } else {
                    self.put(q);
                    assert(self@ =~= table_after_probe(m, id@, alive, now));
                    DiscoveryAction::Nothing
                }
            },
        }
    }

    /// The peers due for a probe at time `now`: every listed peer is a
    /// suspect, with its address and port, and every suspect is listed.
    pub fn suspects(&self, now: u64) -> (r: Vec<ProbeTarget>)
        requires
            self.wf(),
        ensures
            forall|i: int| 0 <= i < r@.len() ==> {
                let t = #[trigger] r@[i];
                &&& self@.contains_key(t.id@)
                &&& is_suspect(self@[t.id@], now)
                &&& self@[t.id@].ip == Some(t.ip)
                &&& self@[t.id@].port == t.port
                &&& self@[t.id@].display_name == t.name
            },
            forall|k: Seq<char>| #[trigger] self@.contains_key(k) && is_suspect(self@[k], now)
                ==> exists|i: int| 0 <= i < r@.len() && (#[trigger] r@[i]).id@ == k,
    {
        let keys = peer_map_keys(&self.peers);
        let n = keys.len();
        let mut out: Vec<ProbeTarget> = Vec::new();
        let mut j: usize = 0;
        while j < n
            invariant
                self.wf(),
                n == keys@.len(),
                j <= n,
                forall|i: int| 0 <= i < n ==> self@.contains_key((#[trigger] keys@[i])@),
                forall|i: int| 0 <= i < out@.len() ==> {
                    let t = #[trigger] out@[i];
                    &&& self@.contains_key(t.id@)
                    &&& is_suspect(self@[t.id@], now)
                    &&& self@[t.id@].ip == Some(t.ip)
                    &&& self@[t.id@].port == t.port
                    &&& self@[t.id@].display_name == t.name
                },
                forall|a: int| 0 <= a < j && is_suspect(self@[(#[trigger] keys@[a])@], now)
                    ==> exists|i: int| 0 <= i < out@.len() && (#[trigger] out@[i]).id@
                        == keys@[a]@,
            decreases n - j,
        {
            let ghost old_out = out@;
            let ghost key = keys@[j as int]@;
            assert(self@.contains_key(key));
            match peer_map_get(&self.peers, keys[j].as_str()) {
                Some(p) => {
                    let stale = now > p.last_seen && now - p.last_seen > PEER_STALE_THRESHOLD_MS;
                    if p.transport != TransportType::BleOnly && stale {
                        match p.ip {
                            Some(ip) => {
                                let t = ProbeTarget {
                                    id: p.id,
                                    ip,
                                    port: p.port,
                                    name: p.display_name,
                                };
                                out.push(t);
                                assert(out@[out@.len() - 1].id@ == key);
                            },
                            None => {},
                        }
                    }
                },
                None => {},
            }
            proof {
                assert forall|a: int| 0 <= a < j + 1 && is_suspect(
                    self@[(#[trigger] keys@[a])@],
                    now,
                ) implies exists|i: int| 0 <= i < out@.len() && (#[trigger] out@[i]).id@
                    == keys@[a]@ by {
                    if a < j {
                        let i = choose|i: int| 0 <= i < old_out.len() && (#[trigger] old_out[i]).id@
                            == keys@[a]@;
                        assert(out@[i] == old_out[i]);
                    } else {
                        assert(out@[out@.len() - 1].id@ == key);
                    }
                }
            }
            j = j + 1;
        }
        proof {
            assert forall|k: Seq<char>| #[trigger] self@.contains_key(k) && is_suspect(self@[k], now)
                implies exists|i: int| 0 <= i < out@.len() && (#[trigger] out@[i]).id@ == k by {
                let a = choose|a: int| 0 <= a < keys@.len() && (#[trigger] keys@[a])@ == k;
                assert(is_suspect(self@[keys@[a]@], now));
            }
        }
        out
    }
}

/// Every peer in a well-formed table: a BLE-only peer has a MAC address and
/// no IP address, and conversely; a hybrid peer has both.
pub proof fn lemma_link_kinds(t: &PeerTable, k: Seq<char>)
    requires
        t.wf(),
        t@.contains_key(k),
    ensures
        (t@[k].transport == TransportType::BleOnly) <==> (t@[k].ip is None && t@[k].ble_mac is Some),
        t@[k].transport == TransportType::Hybrid ==> t@[k].ip is Some && t@[k].ble_mac is Some,
{
}

/// Relies on `rand::Rng::gen_range` over the thread's generator: a value in
/// `lo..hi`, which it requires to be non-empty.
#[verifier::external_body]
fn random_below(lo: u64, hi: u64) -> (r: u64)
    requires
        lo < hi,
    ensures
        lo <= r < hi,
{
    rand::Rng::gen_range(&mut rand::thread_rng(), lo..hi)
}

/// The pause in milliseconds between two probe dispatches: 50 up to 150.
pub fn probe_jitter_ms() -> (r: u64)
    ensures
        50 <= r < 150,
{
    random_below(50, 150)
}

} // verus!
