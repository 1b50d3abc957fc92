//! The roster of remote nodes, the cache of measured latencies, and the join
//! of the two that a snapshot shows.

use crate::text::{
    chars_of, clone_opt_text, find_in, find_text, opt_text,
    push_text, slice_of, str_equal, string_of, texts, trim_chars, trimmed,
};
use vstd::prelude::*;

verus! {

/// One remote node, as the roster lists it.
#[derive(Debug, Clone, PartialEq, Eq)]
pub struct PeerNodeInfo {
    /// The name that the node gave itself.
    pub name: Option<String>,
    /// The node's address in the virtual network, with its prefix length.
    pub vpn_addr: Option<String>,
    /// The address alone; empty where the node has none.
    pub ip: String,
    /// The socket address under which the node is reached from outside.
    pub public_addr: Option<String>,
    /// How packets reach the node: directly or through the supernode.
    pub mode: Option<String>,
    /// When the node was last heard from, in seconds since the epoch.
    pub last_seen: Option<u64>,
    /// Whether the node was found on the local network.
    pub local: Option<bool>,
    /// The round-trip time to the node, in whole milliseconds.
    pub latency_ms: Option<u64>,
    /// When the round-trip time was measured, in seconds since the epoch.
    pub latency_at: Option<u64>,
}

/// What a `PeerNodeInfo` holds, as plain values.
pub struct PeerView {
    pub name: Option<Seq<char>>,
    pub vpn_addr: Option<Seq<char>>,
    pub ip: Seq<char>,
    pub public_addr: Option<Seq<char>>,
    pub mode: Option<Seq<char>>,
    pub last_seen: Option<u64>,
    pub local: Option<bool>,
    pub latency_ms: Option<u64>,
    pub latency_at: Option<u64>,
}

impl View for PeerNodeInfo {
    type V = PeerView;

    open spec fn view(&self) -> PeerView {
        PeerView {
            name: opt_text(self.name),
            vpn_addr: opt_text(self.vpn_addr),
            ip: self.ip@,
            public_addr: opt_text(self.public_addr),
            mode: opt_text(self.mode),
            last_seen: self.last_seen,
            local: self.local,
            latency_ms: self.latency_ms,
            latency_at: self.latency_at,
        }
    }
}

/// The views of a sequence of roster entries.
pub open spec fn peer_views(peers: Seq<PeerNodeInfo>) -> Seq<PeerView> {
    peers.map_values(|p: PeerNodeInfo| p@)
}

/// The address without its prefix length: what stands before the first
/// slash, without surrounding white space; empty where there is no address.
pub open spec fn bare_ip_text(vpn_addr: Option<Seq<char>>) -> Seq<char> {
    match vpn_addr {
        Some(a) => {
            let end = match find_text(a, "/"@) {
                Some(i) => i,
                None => a.len() as int,
            };
            trimmed(a.subrange(0, end))
        },
        None => Seq::empty(),
    }
}

/// A roster entry as a row of the control channel gives it: the address
/// alone is derived, and no latency is known.
pub open spec fn peer_from_row(
    name: Option<Seq<char>>,
    vpn_addr: Option<Seq<char>>,
    public_addr: Option<Seq<char>>,
    mode: Option<Seq<char>>,
    last_seen: Option<u64>,
    local: Option<bool>,
) -> PeerView {
    PeerView {
        name,
        vpn_addr,
        ip: bare_ip_text(vpn_addr),
        public_addr,
        mode,
        last_seen,
        local,
        latency_ms: None,
        latency_at: None,
    }
}

/// The address without its prefix length.
pub fn bare_ip(vpn_addr: &Option<String>) -> (ip: String)
    ensures
        ip@ == bare_ip_text(opt_text(*vpn_addr)),
{
    match vpn_addr {
        Some(a) => {
            let c = chars_of(a.as_str());
            let slash = chars_of("/");
            let end: usize = match find_in(c.as_slice(), slash.as_slice(), 0) {
                Some(i) => {
                    i
                },
                None => c.len(),
            };
            let head = slice_of(c.as_slice(), 0, end);
            let t = trim_chars(head.as_slice());
            string_of(t.as_slice())
        },
        None => String::new(),
    }
}

impl PeerNodeInfo {
    /// The roster entry for one row of the control channel.
    pub fn from_row(
        name: Option<String>,
        vpn_addr: Option<String>,
        public_addr: Option<String>,
        mode: Option<String>,
        last_seen: Option<u64>,
        local: Option<bool>,
    ) -> (p: PeerNodeInfo)
        ensures
            p@ == peer_from_row(
                opt_text(name),
                opt_text(vpn_addr),
                opt_text(public_addr),
                opt_text(mode),
                last_seen,
                local,
            ),
    {
        let ip = bare_ip(&vpn_addr);
        PeerNodeInfo {
            name,
            vpn_addr,
            ip,
            public_addr,
            mode,
            last_seen,
            local,
            latency_ms: None,
            latency_at: None,
        }
    }

    /// A copy that holds the same values.
    pub fn duplicate(&self) -> (p: PeerNodeInfo)
        ensures
            p@ == self@,
    {
        PeerNodeInfo {
            name: clone_opt_text(&self.name),
            vpn_addr: clone_opt_text(&self.vpn_addr),
            ip: self.ip.clone(),
            public_addr: clone_opt_text(&self.public_addr),
            mode: clone_opt_text(&self.mode),
            last_seen: self.last_seen,
            local: self.local,
            latency_ms: self.latency_ms,
            latency_at: self.latency_at,
        }
    }
}

/// An entry that stands for this node itself: its address is this node's
/// own address in the virtual network.
pub open spec fn is_self_entry(p: PeerView, own_ip: Option<Seq<char>>) -> bool {
    match own_ip {
        Some(ip) => ip.len() > 0 && p.ip == ip,
        None => false,
    }
}

/// The roster without the entries that stand for this node itself, the
/// others in their order.
pub open spec fn without_self(roster: Seq<PeerView>, own_ip: Option<Seq<char>>) -> Seq<PeerView> {
    roster.filter(|p: PeerView| !is_self_entry(p, own_ip))
}

/// Whether `p` stands for this node itself.
pub fn is_self(p: &PeerNodeInfo, own_ip: &Option<String>) -> (r: bool)
    ensures
        r == is_self_entry(p@, opt_text(*own_ip)),
{
    match own_ip {
        Some(ip) => ip.as_str().unicode_len() > 0 && str_equal(p.ip.as_str(), ip.as_str()),
        None => false,
    }
}

/// The roster without the entries that stand for this node itself.
pub fn strip_self(roster: &Vec<PeerNodeInfo>, own_ip: &Option<String>) -> (out: Vec<PeerNodeInfo>)
    ensures
        peer_views(out@) == without_self(peer_views(roster@), opt_text(*own_ip)),
{
    let ghost keep = |p: PeerView| !is_self_entry(p, opt_text(*own_ip));
    let mut out: Vec<PeerNodeInfo> = Vec::new();
    let mut i: usize = 0;
    proof {
        reveal(Seq::filter);
        assert(peer_views(roster@).take(0).filter(keep) =~= peer_views(out@));
    }
    while i < roster.len()
        invariant
            i <= roster.len(),
            keep == |p: PeerView| !is_self_entry(p, opt_text(*own_ip)),
            peer_views(out@) == peer_views(roster@).take(i as int).filter(keep),
        decreases roster.len() - i,
    {
        let ghost views = peer_views(roster@);
        proof {
            views.take(i as int).lemma_filter_push(views[i as int], keep);
            assert(views.take(i + 1) =~= views.take(i as int).push(views[i as int]));
        }
        if !is_self(&roster[i], own_ip) {
            let ghost before = out@;
            out.push(roster[i].duplicate());
            assert(peer_views(out@) =~= peer_views(before).push(views[i as int]));
        }
        i += 1;
    }
    assert(peer_views(roster@).take(roster@.len() as int) =~= peer_views(roster@));
    out
}

/// The addresses to probe: the address of each entry that has one, in the
/// order of the roster.
pub open spec fn probe_targets(roster: Seq<PeerView>) -> Seq<Seq<char>> {
    roster.filter(|p: PeerView| p.ip.len() > 0).map_values(|p: PeerView| p.ip)
}

/// The addresses to probe, in the order of the roster.
pub fn ping_targets(roster: &Vec<PeerNodeInfo>) -> (out: Vec<String>)
    ensures
        texts(out@) == probe_targets(peer_views(roster@)),
{
    let ghost has_ip = |p: PeerView| p.ip.len() > 0;
    let ghost ip_of = |p: PeerView| p.ip;
    let ghost views = peer_views(roster@);
    let mut out: Vec<String> = Vec::new();
    let mut i: usize = 0;
    proof {
        reveal(Seq::filter);
        assert(texts(out@) =~= views.take(0).filter(has_ip).map_values(ip_of));
    }
    while i < roster.len()
        invariant
            i <= roster.len(),
            views == peer_views(roster@),
            has_ip == |p: PeerView| p.ip.len() > 0,
            ip_of == |p: PeerView| p.ip,
            texts(out@) == views.take(i as int).filter(has_ip).map_values(ip_of),
        decreases roster.len() - i,
    {
        proof {
            views.take(i as int).lemma_filter_push(views[i as int], has_ip);
            assert(views.take(i + 1) =~= views.take(i as int).push(views[i as int]));
        }
        if roster[i].ip.as_str().unicode_len() > 0 {
            let ghost kept = views.take(i as int).filter(has_ip);
            assert(kept.push(views[i as int]).map_values(ip_of) =~= kept.map_values(ip_of).push(
                views[i as int].ip,
            ));
            push_text(&mut out, roster[i].ip.clone());
        }
        i += 1;
    }
    assert(views.take(roster@.len() as int) =~= views);
    out
}

/// One measured round trip: to which address, how long it took in whole
/// milliseconds, and when it was measured.
#[derive(Debug, Clone, PartialEq, Eq)]
pub struct LatencyEntry {
    pub addr: String,
    pub latency_ms: u64,
    pub measured_at: u64,
}

/// What a `LatencyEntry` holds, as plain values.
pub struct LatencyView {
    pub addr: Seq<char>,
    pub latency_ms: u64,
    pub measured_at: u64,
}

impl View for LatencyEntry {
    type V = LatencyView;

    open spec fn view(&self) -> LatencyView {
        LatencyView {
            addr: self.addr@,
            latency_ms: self.latency_ms,
            measured_at: self.measured_at,
        }
    }
}

/// The views of a sequence of measurements.
pub open spec fn latency_views(entries: Seq<LatencyEntry>) -> Seq<LatencyView> {
    entries.map_values(|e: LatencyEntry| e@)
}

/// The map that a sequence of measurements stands for: each address with its
/// latency and the time of measurement, a later entry replacing an earlier
/// one for the same address.
pub open spec fn latency_map(entries: Seq<LatencyView>) -> Map<Seq<char>, (u64, u64)>
    decreases entries.len(),
{
    if entries.len() == 0 {
        Map::empty()
    } else {
        latency_map(entries.drop_last()).insert(
            entries.last().addr,
            (entries.last().latency_ms, entries.last().measured_at),
        )
    }
}

/// The latest measurement for each address.
#[derive(Debug, Clone, PartialEq, Eq)]
pub struct LatencyCache {
    entries: Vec<LatencyEntry>,
}

impl View for LatencyCache {
    type V = Map<Seq<char>, (u64, u64)>;

    closed spec fn view(&self) -> Map<Seq<char>, (u64, u64)> {
        latency_map(latency_views(self.entries@))
    }
}

/// What the cache knows of `addr`.
pub open spec fn cached(cache: Map<Seq<char>, (u64, u64)>, addr: Seq<char>) -> Option<(u64, u64)> {
    if cache.contains_key(addr) {
        Some(cache[addr])
    } else {
        None
    }
}

/// One more entry at the end is one more insertion into the map.
proof fn lemma_latency_map_push(entries: Seq<LatencyView>, e: LatencyView)
    ensures
        latency_map(entries.push(e)) == latency_map(entries).insert(
            e.addr,
            (e.latency_ms, e.measured_at),
        ),
{
    assert(entries.push(e).drop_last() =~= entries);
}

impl LatencyCache {
    /// A cache that knows nothing.
    pub fn new() -> (c: LatencyCache)
        ensures
            c@ == Map::<Seq<char>, (u64, u64)>::empty(),
    {
        let c = LatencyCache { entries: Vec::new() };
        assert(latency_views(c.entries@) =~= Seq::<LatencyView>::empty());
        c
    }

    /// Forgets everything.
    pub fn clear(&mut self)
        ensures
            final(self)@ == Map::<Seq<char>, (u64, u64)>::empty(),
    {
        self.entries = Vec::new();
        assert(latency_views(self.entries@) =~= Seq::<LatencyView>::empty());
    }

    /// What the cache knows of `addr`: the latency and when it was measured.
    pub fn get(&self, addr: &str) -> (r: Option<(u64, u64)>)
        ensures
            r == cached(self@, addr@),
    {
        let ghost views = latency_views(self.entries@);
        let mut r: Option<(u64, u64)> = None;
        let mut i: usize = 0;
        assert(views.take(0) =~= Seq::<LatencyView>::empty());
        while i < self.entries.len()
            invariant
                i <= self.entries.len(),
                views == latency_views(self.entries@),
                r == cached(latency_map(views.take(i as int)), addr@),
            decreases self.entries.len() - i,
        {
            proof {
                assert(views.take(i + 1) =~= views.take(i as int).push(views[i as int]));
                lemma_latency_map_push(views.take(i as int), views[i as int]);
            }
            if str_equal(self.entries[i].addr.as_str(), addr) {
                r = Some((self.entries[i].latency_ms, self.entries[i].measured_at));
            }
            i += 1;
        }
        assert(views.take(views.len() as int) =~= views);
        r
    }

    /// Takes in a measurement; it replaces what was known of `addr`.
    pub fn record(&mut self, addr: &str, latency_ms: u64, measured_at: u64)
        ensures
            final(self)@ == old(self)@.insert(addr@, (latency_ms, measured_at)),
    {
        let next = self.recorded(addr, latency_ms, measured_at);
        *self = next;
    }

    /// The cache with one more measurement, which replaces what was known
    /// of `addr`.
    pub fn recorded(&self, addr: &str, latency_ms: u64, measured_at: u64) -> (next: LatencyCache)
        ensures
            next@ == self@.insert(addr@, (latency_ms, measured_at)),
    {
        let ghost views = latency_views(self.entries@);
        let mut kept: Vec<LatencyEntry> = Vec::new();
        let mut i: usize = 0;
        proof {
            assert(views.take(0) =~= Seq::<LatencyView>::empty());
            assert(latency_views(kept@) =~= Seq::<LatencyView>::empty());
            assert(latency_map(latency_views(kept@)) =~= latency_map(views.take(0)).remove(addr@));
        }
        while i < self.entries.len()
            invariant
                i <= self.entries.len(),
                views == latency_views(self.entries@),
                latency_map(latency_views(kept@)) == latency_map(views.take(i as int)).remove(
                    addr@,
                ),
            decreases self.entries.len() - i,
        {
            let ghost e = views[i as int];
            proof {
                assert(views.take(i + 1) =~= views.take(i as int).push(e));
                lemma_latency_map_push(views.take(i as int), e);
            }
            if !str_equal(self.entries[i].addr.as_str(), addr) {
                let ghost before = latency_views(kept@);
                kept.push(
                    LatencyEntry {
                        addr: self.entries[i].addr.clone(),
                        latency_ms: self.entries[i].latency_ms,
                        measured_at: self.entries[i].measured_at,
                    },
                );
                proof {
                    assert(latency_views(kept@) =~= before.push(e));
                    lemma_latency_map_push(before, e);
                    assert(latency_map(before).insert(e.addr, (e.latency_ms, e.measured_at))
                        =~= latency_map(views.take(i + 1)).remove(addr@));
                }
            } else {
                assert(latency_map(views.take(i as int)).remove(addr@) =~= latency_map(
                    views.take(i + 1),
                ).remove(addr@));
            }
            i += 1;
        }
        let ghost before = latency_views(kept@);
        let entry = LatencyEntry { addr: addr.to_owned(), latency_ms, measured_at };
        kept.push(entry);
        proof {
            assert(views.take(views.len() as int) =~= views);
            assert(latency_views(kept@) =~= before.push(entry@));
            lemma_latency_map_push(before, entry@);
            assert(latency_map(views).remove(addr@).insert(addr@, (latency_ms, measured_at))
                =~= latency_map(views).insert(addr@, (latency_ms, measured_at)));
        }
        LatencyCache { entries: kept }
    }
}

/// A roster entry with what the cache knows of its address: the latency and
/// the time of measurement where the address is a key of the cache, neither
/// where it is not.
pub open spec fn joined(p: PeerView, cache: Map<Seq<char>, (u64, u64)>) -> PeerView {
    match cached(cache, p.ip) {
        Some(m) => PeerView { latency_ms: Some(m.0), latency_at: Some(m.1), ..p },
        None => PeerView { latency_ms: None, latency_at: None, ..p },
    }
}

/// The roster as a snapshot shows it: each entry joined with the cache.
pub open spec fn snapshot(roster: Seq<PeerView>, cache: Map<Seq<char>, (u64, u64)>) -> Seq<
    PeerView,
> {
    roster.map_values(|p: PeerView| joined(p, cache))
}

/// The roster as a snapshot shows it.
pub fn join_latency(roster: &Vec<PeerNodeInfo>, cache: &LatencyCache) -> (out: Vec<PeerNodeInfo>)
    ensures
        peer_views(out@) == snapshot(peer_views(roster@), cache@),
{
    let mut out: Vec<PeerNodeInfo> = Vec::new();
    let mut i: usize = 0;
    while i < roster.len()
        invariant
            i <= roster.len(),
            out@.len() == i,
            forall|j: int| 0 <= j < i ==> (#[trigger] out@[j])@ == joined(roster@[j]@, cache@),
        decreases roster.len() - i,
    {
        let mut p = roster[i].duplicate();
        match cache.get(p.ip.as_str()) {
            Some(m) => {
                p.latency_ms = Some(m.0);
                p.latency_at = Some(m.1);
            },
            None => {
                p.latency_ms = None;
                p.latency_at = None;
            },
        }
        out.push(p);
        i += 1;
    }
    assert(peer_views(out@) =~= snapshot(peer_views(roster@), cache@));
    out
}

/// A latency measured for an address shows in the snapshot at each roster
/// entry with that address, and an entry whose address the cache does not
/// know shows none.
pub proof fn lemma_latency_round_trip(
    roster: Seq<PeerView>,
    cache: Map<Seq<char>, (u64, u64)>,
    addr: Seq<char>,
    latency_ms: u64,
    measured_at: u64,
    i: int,
)
    requires
        0 <= i < roster.len(),
    ensures
        ({
            let after = cache.insert(addr, (latency_ms, measured_at));
            let shown = snapshot(roster, after)[i];
            &&& roster[i].ip == addr ==> shown.latency_ms == Some(latency_ms) && shown.latency_at
                == Some(measured_at)
            &&& !after.contains_key(roster[i].ip) ==> shown.latency_ms is None && shown.latency_at
                is None
            &&& roster[i].ip != addr ==> shown == snapshot(roster, cache)[i]
        }),
{
}

} // verus!
