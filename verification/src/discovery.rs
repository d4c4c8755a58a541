//! Peer discovery data: peer addresses and identities, the peer cache with
//! its staleness rule, and the parsing of discovery records. The mDNS
//! daemon itself lives in the embedding program and feeds this cache.

use vstd::prelude::*;

use crate::clock::now_millis;
use crate::security::DeviceId;
use crate::text::{all_digits, digits_val, strip_spaces};

verus! {

/// Default service port.
pub const DEFAULT_SERVICE_PORT: u16 = 7070;

/// Seconds after which a silent peer is considered stale.
pub const STALE_PEER_TIMEOUT_SECS: u64 = 120;

/// A peer's socket address, modeled as plain values.
#[derive(Debug, Clone, Copy, PartialEq, Eq, Structural)]
pub enum PeerAddr {
    /// An IPv4 address and port.
    V4 {
        /// The four address octets.
        a: u8,
        /// Second octet.
        b: u8,
        /// Third octet.
        c: u8,
        /// Fourth octet.
        d: u8,
        /// The port.
        port: u16,
    },
    /// An IPv6 address and port.
    V6 {
        /// The high 64 bits of the address.
        hi: u64,
        /// The low 64 bits of the address.
        lo: u64,
        /// The port.
        port: u16,
    },
}

impl PeerAddr {
    /// True for IPv4 addresses.
    pub fn is_ipv4(&self) -> (r: bool)
        ensures
            r == is_v4(*self),
    {
        matches!(self, PeerAddr::V4 { .. })
    }
}

/// Events emitted while browsing for peers.
#[derive(Debug, Clone)]
pub enum PeerEvent {
    /// A new peer appeared.
    Discovered(PeerInfo),
    /// A known peer's record changed.
    Updated(PeerInfo),
    /// A peer went away.
    Lost(DeviceId),
}

/// What is known about one discovered peer.
#[derive(Debug, Clone)]
pub struct PeerInfo {
    /// The peer's device identifier.
    pub device_id: DeviceId,
    /// The peer's device name.
    pub device_name: String,
    /// The peer's addresses, in discovery order.
    pub addresses: Vec<PeerAddr>,
    /// The peer's protocol version, when advertised.
    pub protocol_version: Option<u8>,
    /// Wall-clock milliseconds when the peer was last seen.
    pub last_seen: u64,
}

/// True for IPv4 addresses.
pub open spec fn is_v4(a: PeerAddr) -> bool {
    a matches PeerAddr::V4 { .. }
}

/// The first IPv4 address of `addrs`, else the first address, if any.
pub open spec fn spec_primary_address(addrs: Seq<PeerAddr>) -> Option<PeerAddr> {
    if exists|i: int| 0 <= i < addrs.len() && is_v4(#[trigger] addrs[i]) {
        let i = choose|i: int|
            0 <= i < addrs.len() && is_v4(#[trigger] addrs[i]) && (forall|j: int|
                0 <= j < i ==> !is_v4(#[trigger] addrs[j]));
        Some(addrs[i])
    } else if addrs.len() > 0 {
        Some(addrs[0])
    } else {
        None
    }
}

impl PeerInfo {
    /// Builds a peer record last seen now.
    pub fn new(device_id: DeviceId, device_name: String, addresses: Vec<PeerAddr>) -> (r: PeerInfo)
        ensures
            r.device_id == device_id,
            r.device_name == device_name,
            r.addresses == addresses,
            r.protocol_version is None,
    {
        PeerInfo { device_id, device_name, addresses, protocol_version: None, last_seen: now_millis() }
    }

    /// Marks the peer as seen now.
    pub fn update_last_seen(&mut self)
        ensures
            final(self).device_id == old(self).device_id,
            final(self).device_name == old(self).device_name,
            final(self).addresses == old(self).addresses,
            final(self).protocol_version == old(self).protocol_version,
    {
        self.last_seen = now_millis();
    }

    /// Milliseconds since the peer was last seen, by the wall clock.
    pub fn age(&self) -> u64 {
        let now = now_millis();
        if now >= self.last_seen {
            now - self.last_seen
        } else {
            0
        }
    }

    /// The address to connect to: the first IPv4 address, else the first
    /// address of any kind, else nothing.
    pub fn primary_address(&self) -> (r: Option<PeerAddr>)
        ensures
            r == spec_primary_address(self.addresses@),
    {
        let n = self.addresses.len();
        let mut i: usize = 0;
        while i < n
            invariant
                0 <= i <= n,
                n == self.addresses@.len(),
                forall|j: int| 0 <= j < i ==> !is_v4(#[trigger] self.addresses@[j]),
            decreases n - i,
        {
            if self.addresses[i].is_ipv4() {
                proof {
                    let addrs = self.addresses@;
                    assert(0 <= i < addrs.len() && is_v4(addrs[i as int]) && (forall|j: int|
                        0 <= j < i ==> !is_v4(#[trigger] addrs[j])));
                    let w = choose|k: int|
                        0 <= k < addrs.len() && is_v4(#[trigger] addrs[k]) && (forall|j: int|
                            0 <= j < k ==> !is_v4(#[trigger] addrs[j]));
                    assert(w == i as int) by {
                        if w < i {
                            assert(!is_v4(addrs[w]));
                        }
                        if w > i {
                            assert(!is_v4(addrs[i as int]));
                        }
                    }
                }
                return Some(self.addresses[i]);
            }
            i += 1;
        }
        proof {
            assert(forall|j: int|
                0 <= j < self.addresses@.len() ==> !is_v4(#[trigger] self.addresses@[j]));
        }
        if self.addresses.len() > 0 {
            Some(self.addresses[0])
        } else {
            None
        }
    }
}

/// The cache of discovered peers, keyed by device identifier.
#[derive(Debug)]
pub struct PeerCache {
    peers: Vec<PeerInfo>,
}

impl PeerCache {
    /// The cached peers.
    pub closed spec fn spec_peers(&self) -> Seq<PeerInfo> {
        self.peers@
    }

    /// Each device identifier appears at most once.
    pub open spec fn wf(&self) -> bool {
        forall|i: int, j: int|
            0 <= i < j < self.spec_peers().len() ==> self.spec_peers()[i].device_id@
                != self.spec_peers()[j].device_id@
    }

    /// Whether the cache holds a peer with this identifier.
    pub open spec fn spec_has_peer(&self, id: u32) -> bool {
        exists|i: int| 0 <= i < self.spec_peers().len() && self.spec_peers()[i].device_id@ == id
    }

    /// Creates an empty cache.
    pub fn new() -> (r: PeerCache)
        ensures
            r.wf(),
            r.spec_peers() =~= Seq::<PeerInfo>::empty(),
    {
        PeerCache { peers: Vec::new() }
    }

    /// Number of cached peers.
    pub fn len(&self) -> (r: usize)
        ensures
            r == self.spec_peers().len(),
    {
        self.peers.len()
    }

    /// The position of a peer with this identifier, if cached.
    fn find_index(&self, id: u32) -> (r: Option<usize>)
        ensures
            r matches Some(i) ==> i < self.spec_peers().len() && self.spec_peers()[i as int].device_id@
                == id,
            r is None ==> !self.spec_has_peer(id),
    {
        let n = self.peers.len();
        let mut i: usize = 0;
        while i < n
            invariant
                0 <= i <= n,
                n == self.spec_peers().len(),
                forall|j: int| 0 <= j < i ==> self.spec_peers()[j].device_id@ != id,
            decreases n - i,
        {
            if self.peers[i].device_id.as_u32() == id {
                return Some(i);
            }
            i += 1;
        }
        None
    }

    /// Whether the cache holds a peer with this identifier.
    pub fn has_peer(&self, device_id: &DeviceId) -> (r: bool)
        ensures
            r == self.spec_has_peer(device_id@),
    {
        match self.find_index(device_id.as_u32()) {
            Some(_) => true,
            None => false,
        }
    }

    /// A clone of the cached record of this peer, if any.
    pub fn get_peer(&self, device_id: &DeviceId) -> (r: Option<PeerInfo>)
        ensures
            r matches Some(p) ==> self.spec_has_peer(device_id@) && p.device_id@ == device_id@,
            r is None ==> !self.spec_has_peer(device_id@),
    {
        match self.find_index(device_id.as_u32()) {
            Some(i) => Some(self.peers[i].clone_info()),
            None => None,
        }
    }

    /// Adds a peer, or replaces the record of an already known peer.
    /// Returns true when the peer is new to the cache.
    pub fn add_peer(&mut self, info: PeerInfo) -> (r: bool)
        requires
            old(self).wf(),
        ensures
            final(self).wf(),
            r == !old(self).spec_has_peer(info.device_id@),
            final(self).spec_has_peer(info.device_id@),
            r ==> final(self).spec_peers() == old(self).spec_peers().push(info),
            !r ==> final(self).spec_peers().len() == old(self).spec_peers().len(),
    {
        match self.find_index(info.device_id.as_u32()) {
            Some(i) => {
                self.peers.remove(i);
                proof {
                    let oldp = old(self).spec_peers();
                    assert forall|a: int, b: int|
                        0 <= a < b < self.peers@.len() implies self.peers@[a].device_id@
                        != self.peers@[b].device_id@ by {
                        let oa = if a < i { a } else { a + 1 };
                        let ob = if b < i { b } else { b + 1 };
                        assert(oldp[oa].device_id@ != oldp[ob].device_id@);
                    }
                    assert forall|k: int|
                        0 <= k < self.peers@.len() implies self.peers@[k].device_id@
                        != info.device_id@ by {
                        let ok = if k < i { k } else { k + 1 };
                        let oldp2 = old(self).spec_peers();
                        assert(self.peers@[k] == oldp2[ok]);
                        if ok != i {
                            assert(oldp2[ok].device_id@ != oldp2[i as int].device_id@);
                        }
                    }
                }
                let ghost mid = self.peers@;
                self.peers.push(info);
                proof {
                    assert forall|a: int, b: int|
                        0 <= a < b < self.peers@.len() implies self.peers@[a].device_id@
                        != self.peers@[b].device_id@ by {
                        if b < self.peers@.len() - 1 {
                            assert(mid[a].device_id@ != mid[b].device_id@);
                        } else {
                            assert(mid[a].device_id@ != info.device_id@);
                        }
                    }
                    assert(self.peers@[self.peers@.len() - 1].device_id@ == info.device_id@);
                }
                false
            },
            None => {
                self.peers.push(info);
                proof {
                    assert forall|a: int, b: int|
                        0 <= a < b < self.peers@.len() implies self.peers@[a].device_id@
                        != self.peers@[b].device_id@ by {
                        if b < self.peers@.len() - 1 {
                            assert(old(self).spec_peers()[a].device_id@ != old(self).spec_peers()[b].device_id@);
                        }
                    }
                }
                true
            },
        }
    }

    /// Removes a peer. Returns true when the peer was cached.
    pub fn remove_peer(&mut self, device_id: &DeviceId) -> (r: bool)
        requires
            old(self).wf(),
        ensures
            final(self).wf(),
            r == old(self).spec_has_peer(device_id@),
            !final(self).spec_has_peer(device_id@),
    {
        match self.find_index(device_id.as_u32()) {
            Some(i) => {
                self.peers.remove(i);
                proof {
                    let oldp = old(self).spec_peers();
                    assert forall|a: int, b: int|
                        0 <= a < b < self.peers@.len() implies self.peers@[a].device_id@
                        != self.peers@[b].device_id@ by {
                        let oa = if a < i {
                            a
                        } else {
                            a + 1
                        };
                        let ob = if b < i {
                            b
                        } else {
                            b + 1
                        };
                        assert(oldp[oa].device_id@ != oldp[ob].device_id@);
                    }
                    assert forall|k: int|
                        0 <= k < self.peers@.len() implies self.peers@[k].device_id@ != device_id@
                        by {
                        let ok = if k < i {
                            k
                        } else {
                            k + 1
                        };
                        assert(self.peers@[k] == oldp[ok]);
                        if ok != i {
                            assert(oldp[ok].device_id@ != oldp[i as int].device_id@);
                        }
                    }
                }
                true
            },
            None => false,
        }
    }

    /// Clones of all cached peers, in cache order.
    pub fn all_peers(&self) -> (r: Vec<PeerInfo>)
        ensures
            r@.len() == self.spec_peers().len(),
            forall|i: int|
                0 <= i < r@.len() ==> #[trigger] r@[i].device_id@
                    == self.spec_peers()[i].device_id@,
    {
        let n = self.peers.len();
        let mut out: Vec<PeerInfo> = Vec::new();
        let mut i: usize = 0;
        while i < n
            invariant
                0 <= i <= n,
                n == self.spec_peers().len(),
                out@.len() == i,
                forall|j: int|
                    0 <= j < i ==> #[trigger] out@[j].device_id@
                        == self.spec_peers()[j].device_id@,
            decreases n - i,
        {
            out.push(self.peers[i].clone_info());
            i += 1;
        }
        out
    }

    /// The cached addresses of a peer: exactly the stored address list of
    /// the peer with this identifier, when the peer is cached and its list
    /// is nonempty; nothing otherwise.
    pub fn resolve(&self, device_id: &DeviceId) -> (r: Option<Vec<PeerAddr>>)
        requires
            self.wf(),
        ensures
            r matches Some(addrs) ==> exists|i: int|
                0 <= i < self.spec_peers().len() && (#[trigger] self.spec_peers()[i]).device_id@
                    == device_id@ && addrs@ == self.spec_peers()[i].addresses@ && addrs@.len() > 0,
            r is None ==> forall|i: int|
                0 <= i < self.spec_peers().len() && (#[trigger] self.spec_peers()[i]).device_id@
                    == device_id@ ==> self.spec_peers()[i].addresses@.len() == 0,
    {
        match self.find_index(device_id.as_u32()) {
            Some(i) => {
                if self.peers[i].addresses.len() > 0 {
                    let mut addrs: Vec<PeerAddr> = Vec::new();
                    let m = self.peers[i].addresses.len();
                    let mut j: usize = 0;
                    while j < m
                        invariant
                            0 <= j <= m,
                            i < self.spec_peers().len(),
                            m == self.spec_peers()[i as int].addresses@.len(),
                            addrs@ == self.spec_peers()[i as int].addresses@.take(j as int),
                        decreases m - j,
                    {
                        addrs.push(self.peers[i].addresses[j]);
                        proof {
                            assert(self.spec_peers()[i as int].addresses@.take(j + 1)
                                =~= self.spec_peers()[i as int].addresses@.take(j as int).push(
                                self.spec_peers()[i as int].addresses@[j as int],
                            ));
                        }
                        j += 1;
                    }
                    proof {
                        assert(self.spec_peers()[i as int].addresses@.take(m as int)
                            =~= self.spec_peers()[i as int].addresses@);
                    }
                    Some(addrs)
                } else {
                    proof {
                        assert forall|k: int|
                            0 <= k < self.spec_peers().len() && (
                            #[trigger] self.spec_peers()[k]).device_id@ == device_id@ implies self.spec_peers()[k].addresses@.len()
                            == 0 by {
                            if k != i {
                                assert(self.spec_peers()[k].device_id@
                                    != self.spec_peers()[i as int].device_id@);
                            }
                        }
                    }
                    None
                }
            },
            None => None,
        }
    }

    /// Law: after the sweep, every remaining peer was seen within the
    /// cutoff, and every cached peer seen within the cutoff remains.
    pub fn cleanup_stale_peers(&mut self, now_ms: u64, cutoff_ms: u64)
        requires
            old(self).wf(),
        ensures
            final(self).wf(),
            forall|i: int|
                0 <= i < final(self).spec_peers().len() ==> #[trigger] final(self).spec_peers()[i].last_seen + cutoff_ms >= now_ms,
            forall|i: int|
                0 <= i < old(self).spec_peers().len() && #[trigger] old(self).spec_peers()[i].last_seen + cutoff_ms >= now_ms ==> final(self).spec_peers().contains(old(self).spec_peers()[i]),
    {
        let ghost orig = self.peers@;
        let ghost k: int = 0;
        let mut kept: Vec<PeerInfo> = Vec::new();
        while self.peers.len() > 0
            invariant
                0 <= k <= orig.len(),
                self.peers@ == orig.subrange(k, orig.len() as int),
                forall|a: int, b: int|
                    0 <= a < b < orig.len() ==> #[trigger] orig[a].device_id@ != #[trigger] orig[b].device_id@,
                forall|j: int|
                    0 <= j < kept@.len() ==> #[trigger] kept@[j].last_seen + cutoff_ms >= now_ms,
                forall|a: int|
                    0 <= a < kept@.len() ==> exists|w: int| 0 <= w < k && orig[w] == #[trigger] kept@[a],
                forall|j: int|
                    0 <= j < k && #[trigger] orig[j].last_seen + cutoff_ms >= now_ms
                        ==> kept@.contains(orig[j]),
                forall|a: int, b: int|
                    0 <= a < b < kept@.len() ==> #[trigger] kept@[a].device_id@ != #[trigger] kept@[b].device_id@,
            decreases self.peers@.len(),
        {
            let p = self.peers.remove(0);
            proof {
                assert(p == orig[k]);
                assert(self.peers@ =~= orig.subrange(k + 1, orig.len() as int));
            }
            let keep = if now_ms >= p.last_seen {
                now_ms - p.last_seen <= cutoff_ms
            } else {
                true
            };
            let ghost kept_before = kept@;
            if keep {
                kept.push(p);
            }
            proof {
                if keep {
                    assert forall|a: int, b: int|
                        0 <= a < b < kept@.len() implies #[trigger] kept@[a].device_id@
                        != #[trigger] kept@[b].device_id@ by {
                        if b < kept@.len() - 1 {
                            assert(kept_before[a].device_id@ != kept_before[b].device_id@);
                        } else {
                            assert(kept@[a] == kept_before[a]);
                            let w = choose|w: int| 0 <= w < k && orig[w] == kept_before[a];
                            assert(orig[w].device_id@ != orig[k].device_id@);
                        }
                    }
                    assert forall|a: int|
                        0 <= a < kept@.len() implies exists|w: int|
                        0 <= w < k + 1 && orig[w] == #[trigger] kept@[a] by {
                        if a < kept@.len() - 1 {
                            assert(kept@[a] == kept_before[a]);
                            let w = choose|w: int| 0 <= w < k && orig[w] == kept_before[a];
                            assert(0 <= w < k + 1 && orig[w] == kept@[a]);
                        } else {
                            assert(orig[k] == kept@[a]);
                        }
                    }
                    assert forall|j: int|
                        0 <= j < k + 1 && #[trigger] orig[j].last_seen + cutoff_ms >= now_ms
                        implies kept@.contains(orig[j]) by {
                        if j < k {
                            let w = choose|w: int|
                                0 <= w < kept_before.len() && kept_before[w] == orig[j];
                            assert(kept@[w] == orig[j]);
                        } else {
                            assert(kept@[kept@.len() - 1] == orig[j]);
                        }
                    }
                } else {
                    assert(!(orig[k].last_seen + cutoff_ms >= now_ms));
                    assert forall|j: int|
                        0 <= j < k + 1 && #[trigger] orig[j].last_seen + cutoff_ms >= now_ms
                        implies kept@.contains(orig[j]) by {
                        let w = choose|w: int| 0 <= w < kept@.len() && kept@[w] == orig[j];
                    }
                }
                k = k + 1;
            }
        }
        self.peers = kept;
    }
}

impl PeerInfo {
    /// A field-by-field copy of this record.
    pub fn clone_info(&self) -> (r: PeerInfo)
        ensures
            r.device_id == self.device_id,
            r.device_name@ == self.device_name@,
            r.addresses@ == self.addresses@,
            r.protocol_version == self.protocol_version,
            r.last_seen == self.last_seen,
    {
        let mut addresses: Vec<PeerAddr> = Vec::new();
        let n = self.addresses.len();
        let mut i: usize = 0;
        while i < n
            invariant
                0 <= i <= n,
                n == self.addresses@.len(),
                addresses@ == self.addresses@.take(i as int),
            decreases n - i,
        {
            addresses.push(self.addresses[i]);
            proof {
                assert(self.addresses@.take(i + 1) =~= self.addresses@.take(i as int).push(
                    self.addresses@[i as int],
                ));
            }
            i += 1;
        }
        proof {
            assert(self.addresses@.take(n as int) =~= self.addresses@);
        }
        let r = PeerInfo {
            device_id: self.device_id,
            device_name: self.device_name.clone(),
            addresses,
            protocol_version: self.protocol_version,
            last_seen: self.last_seen,
        };
        proof {
            assert(r.addresses@ =~= self.addresses@);
        }
        r
    }
}

/// Parses the decimal device identifier out of a discovery TXT value.
///
/// Accepts exactly the values whose non-space characters are digits forming
/// an identifier in the nine-digit range.
pub fn parse_txt_device_id(value: &str) -> (r: Option<DeviceId>)
    ensures
        r matches Some(d) ==> {
            let cleaned = strip_spaces(value@);
            all_digits(cleaned) && cleaned.len() > 0 && digits_val(cleaned) == d@ && d.valid()
        },
        r is None ==> !{
            let cleaned = strip_spaces(value@);
            &&& all_digits(cleaned)
            &&& cleaned.len() > 0
            &&& digits_val(cleaned) <= u32::MAX
            &&& 100_000_000 <= digits_val(cleaned) <= 999_999_999
        },
{
    match DeviceId::parse_str(value) {
        Ok(d) => Some(d),
        Err(_) => None,
    }
}

/// Parses the device identifier out of a discovery instance full name of
/// the form `remotedesk-<digits>.<service...>`: the name must carry the
/// advertisement prefix, and the digits up to the first dot must form an
/// identifier in the nine-digit range.
pub fn parse_instance_fullname(fullname: &str) -> (r: Option<DeviceId>)
    ensures
        r matches Some(d) ==> {
            &&& fullname@.len() >= 11
            &&& fullname@.take(11) == "remotedesk-"@
            &&& d.valid()
        },
{
    let n = fullname.unicode_len();
    proof {
        reveal_strlit("remotedesk-");
    }
    if n < 11 {
        return None;
    }
    let prefix = "remotedesk-";
    let mut i: usize = 0;
    while i < 11
        invariant
            0 <= i <= 11,
            n == fullname@.len(),
            n >= 11,
            prefix@ == "remotedesk-"@,
            prefix@.len() == 11,
            forall|j: int| 0 <= j < i ==> fullname@[j] == prefix@[j],
        decreases 11 - i,
    {
        if fullname.get_char(i) != prefix.get_char(i) {
            return None;
        }
        i += 1;
    }
    proof {
        assert(fullname@.take(11) =~= "remotedesk-"@);
    }
    let mut digits: Vec<char> = Vec::new();
    let mut k: usize = 11;
    while k < n
        invariant
            11 <= k <= n,
            n == fullname@.len(),
        decreases n - k,
    {
        let c = fullname.get_char(k);
        if c == '.' {
            break;
        }
        digits.push(c);
        k += 1;
    }
    match crate::text::parse_u32_digits(&digits) {
        Some(v) => match DeviceId::from_u32(v) {
            Ok(d) => Some(d),
            Err(_) => None,
        },
        None => None,
    }
}

} // verus!
