//! ARP resolution and the address-resolution cache.
//!
//! The cache is an explicit service object, one instance per address
//! family, passed into every layer that looks up or learns a neighbour.
//! Entries are append-only; call sites look up first and learn only on a
//! miss, so a lookup never becomes order-dependent.

use crate::ethernet::ETHERNET_TYPE_IPV4;
use crate::util::be16;
use crate::util::be16_of;
use crate::util::be32;
use crate::util::be32_of;
use crate::util::lemma_be16_value;
use crate::util::lemma_be32_value;
use crate::util::put_mac;
use crate::util::put_u16;
use crate::util::put_u32;
use crate::util::read_mac_at;
use crate::util::read_u16_at;
use crate::util::read_u32_at;
use crate::util::UtilsError;
use vstd::prelude::*;

verus! {

/// Hardware type of Ethernet.
pub const ARP_HARDWARE_TYPE: u16 = 0x0001;

/// Operation code of an ARP request.
pub const ARP_OPERATION_TYPE_REQUEST: u16 = 0x0001;

/// Operation code of an ARP reply.
pub const ARP_OPERATION_TYPE_REPLY: u16 = 0x0002;

/// One learned binding of an IPv4 address to a link-layer address.
#[derive(Debug, Clone, Copy)]
pub struct ArpTable {
    /// The neighbour's link-layer address.
    pub mac_addr: [u8; 6],
    /// The neighbour's IPv4 address.
    pub ip_addr: u32,
}

/// One learned binding of an IPv6 address to a link-layer address.
#[derive(Debug, Clone, Copy)]
pub struct ArpTableV6 {
    /// The neighbour's link-layer address.
    pub mac_addr: [u8; 6],
    /// The neighbour's IPv6 address.
    pub ip_addr: u128,
}

/// The IPv4 address-resolution cache: learned bindings in insertion order.
pub struct ArpCache {
    /// The learned entries, oldest first.
    pub entries: Vec<ArpTable>,
}

/// The IPv6 address-resolution cache, independent of the IPv4 one.
pub struct ArpCacheV6 {
    /// The learned entries, oldest first.
    pub entries: Vec<ArpTableV6>,
}

impl View for ArpCache {
    type V = Seq<(Seq<u8>, u32)>;

    open spec fn view(&self) -> Seq<(Seq<u8>, u32)> {
        self.entries@.map(|i: int, e: ArpTable| (e.mac_addr@, e.ip_addr))
    }
}

impl View for ArpCacheV6 {
    type V = Seq<(Seq<u8>, u128)>;

    open spec fn view(&self) -> Seq<(Seq<u8>, u128)> {
        self.entries@.map(|i: int, e: ArpTableV6| (e.mac_addr@, e.ip_addr))
    }
}

/// The all-zero link-layer address: the "not found" sentinel of cache
/// lookups at the boundary, never a real programmed address.
pub open spec fn zero_mac() -> Seq<u8> {
    seq![0u8, 0u8, 0u8, 0u8, 0u8, 0u8]
}

/// The link-layer address of the first entry for `ip`, if any.
pub open spec fn lookup_v4(entries: Seq<(Seq<u8>, u32)>, ip: u32) -> Option<Seq<u8>>
    decreases entries.len(),
{
    if entries.len() == 0 {
        None
    } else if entries[0].1 == ip {
        Some(entries[0].0)
    } else {
        lookup_v4(entries.subrange(1, entries.len() as int), ip)
    }
}

/// The link-layer address of the first entry for `ip`, if any.
pub open spec fn lookup_v6(entries: Seq<(Seq<u8>, u128)>, ip: u128) -> Option<Seq<u8>>
    decreases entries.len(),
{
    if entries.len() == 0 {
        None
    } else if entries[0].1 == ip {
        Some(entries[0].0)
    } else {
        lookup_v6(entries.subrange(1, entries.len() as int), ip)
    }
}

/// Whether `ip` has no usable binding yet: no entry, or only the zero
/// sentinel.
pub open spec fn unresolved_v4(entries: Seq<(Seq<u8>, u32)>, ip: u32) -> bool {
    lookup_v4(entries, ip) == Option::<Seq<u8>>::None || lookup_v4(entries, ip) == Some(zero_mac())
}

/// Whether `ip` has no usable binding yet: no entry, or only the zero
/// sentinel.
pub open spec fn unresolved_v6(entries: Seq<(Seq<u8>, u128)>, ip: u128) -> bool {
    lookup_v6(entries, ip) == Option::<Seq<u8>>::None || lookup_v6(entries, ip) == Some(zero_mac())
}

/// The cache after a layer observes the binding `(mac, ip)`: appended when
/// `ip` was not yet resolvable, unchanged otherwise.
pub open spec fn learned_v4(entries: Seq<(Seq<u8>, u32)>, mac: Seq<u8>, ip: u32) -> Seq<
    (Seq<u8>, u32),
> {
    if unresolved_v4(entries, ip) {
        entries.push((mac, ip))
    } else {
        entries
    }
}

/// The cache after a layer observes the binding `(mac, ip)`: appended when
/// `ip` was not yet resolvable, unchanged otherwise.
pub open spec fn learned_v6(entries: Seq<(Seq<u8>, u128)>, mac: Seq<u8>, ip: u128) -> Seq<
    (Seq<u8>, u128),
> {
    if unresolved_v6(entries, ip) {
        entries.push((mac, ip))
    } else {
        entries
    }
}

/// Whether `mac` is the all-zero sentinel.
pub(crate) fn mac_is_zero(mac: &[u8; 6]) -> (r: bool)
    ensures
        r == (mac@ == zero_mac()),
{
    let r = mac[0] == 0 && mac[1] == 0 && mac[2] == 0 && mac[3] == 0 && mac[4] == 0 && mac[5] == 0;
    proof {
        if r {
            assert(mac@ =~= zero_mac());
        }
    }
    r
}

impl ArpCache {
    /// An empty cache.
    pub fn new() -> (r: ArpCache)
        ensures
            r@ == Seq::<(Seq<u8>, u32)>::empty(),
    {
        let r = ArpCache { entries: Vec::new() };
        proof {
            assert(r@ =~= Seq::<(Seq<u8>, u32)>::empty());
        }
        r
    }

    /// Linear scan: the link-layer address of the first entry for
    /// `ip_addr`, or the all-zero sentinel when none is found.
    pub fn search_arp_tables(&self, ip_addr: u32) -> (r: [u8; 6])
        ensures
            match lookup_v4(self@, ip_addr) {
                Some(m) => r@ == m,
                None => r@ == zero_mac(),
            },
    {
        let mut i: usize = 0;
        proof {
            assert(self@.subrange(0, self@.len() as int) =~= self@);
        }
        while i < self.entries.len()
            invariant
                i <= self.entries@.len(),
                self.entries@.len() == self@.len(),
                lookup_v4(self@, ip_addr) == lookup_v4(
                    self@.subrange(i as int, self@.len() as int),
                    ip_addr,
                ),
            decreases self.entries@.len() - i,
        {
            let suffix = Ghost(self@.subrange(i as int, self@.len() as int));
            if self.entries[i].ip_addr == ip_addr {
                proof {
                    assert(suffix@[0] == self@[i as int]);
                }
                return self.entries[i].mac_addr;
            }
            proof {
                assert(suffix@[0] == self@[i as int]);
                assert(suffix@.subrange(1, suffix@.len() as int) =~= self@.subrange(
                    i + 1,
                    self@.len() as int,
                ));
            }
            i = i + 1;
        }
        proof {
            assert(self@.subrange(i as int, self@.len() as int).len() == 0);
        }
        let r = [0u8, 0u8, 0u8, 0u8, 0u8, 0u8];
        proof {
            assert(r@ =~= zero_mac());
        }
        r
    }

    /// Learns the binding `(mac_addr, ip_addr)` by appending it
    /// unconditionally; call sites look up first and learn only on a miss.
    pub fn add_arp_tables(&mut self, mac_addr: [u8; 6], ip_addr: u32)
        ensures
            final(self)@ == old(self)@.push((mac_addr@, ip_addr)),
    {
        self.entries.push(ArpTable { mac_addr, ip_addr });
        proof {
            assert(self@ =~= old(self)@.push((mac_addr@, ip_addr)));
        }
    }
}

impl ArpCacheV6 {
    /// An empty cache.
    pub fn new() -> (r: ArpCacheV6)
        ensures
            r@ == Seq::<(Seq<u8>, u128)>::empty(),
    {
        let r = ArpCacheV6 { entries: Vec::new() };
        proof {
            assert(r@ =~= Seq::<(Seq<u8>, u128)>::empty());
        }
        r
    }

    /// Linear scan: the link-layer address of the first entry for
    /// `ip_addr`, or the all-zero sentinel when none is found.
    pub fn search_arp_tables_v6(&self, ip_addr: u128) -> (r: [u8; 6])
        ensures
            match lookup_v6(self@, ip_addr) {
                Some(m) => r@ == m,
                None => r@ == zero_mac(),
            },
    {
        let mut i: usize = 0;
        proof {
            assert(self@.subrange(0, self@.len() as int) =~= self@);
        }
        while i < self.entries.len()
            invariant
                i <= self.entries@.len(),
                self.entries@.len() == self@.len(),
                lookup_v6(self@, ip_addr) == lookup_v6(
                    self@.subrange(i as int, self@.len() as int),
                    ip_addr,
                ),
            decreases self.entries@.len() - i,
        {
            let suffix = Ghost(self@.subrange(i as int, self@.len() as int));
            if self.entries[i].ip_addr == ip_addr {
                proof {
                    assert(suffix@[0] == self@[i as int]);
                }
                return self.entries[i].mac_addr;
            }
            proof {
                assert(suffix@[0] == self@[i as int]);
                assert(suffix@.subrange(1, suffix@.len() as int) =~= self@.subrange(
                    i + 1,
                    self@.len() as int,
                ));
            }
            i = i + 1;
        }
        proof {
            assert(self@.subrange(i as int, self@.len() as int).len() == 0);
        }
        let r = [0u8, 0u8, 0u8, 0u8, 0u8, 0u8];
        proof {
            assert(r@ =~= zero_mac());
        }
        r
    }

    /// Learns the binding `(mac_addr, ip_addr)` by appending it
    /// unconditionally; call sites look up first and learn only on a miss.
    pub fn add_arp_tables_v6(&mut self, mac_addr: [u8; 6], ip_addr: u128)
        ensures
            final(self)@ == old(self)@.push((mac_addr@, ip_addr)),
    {
        self.entries.push(ArpTableV6 { mac_addr, ip_addr });
        proof {
            assert(self@ =~= old(self)@.push((mac_addr@, ip_addr)));
        }
    }
}

/// Looks up `ip_addr` in `cache` and learns `(mac_addr, ip_addr)` exactly
/// when no usable binding exists yet.
pub(crate) fn learn_on_miss_v4(cache: &mut ArpCache, mac_addr: [u8; 6], ip_addr: u32)
    ensures
        final(cache)@ == learned_v4(old(cache)@, mac_addr@, ip_addr),
{
    let looked = cache.search_arp_tables(ip_addr);
    if mac_is_zero(&looked) {
        cache.add_arp_tables(mac_addr, ip_addr);
    }
}

/// Looks up `ip_addr` in `cache` and learns `(mac_addr, ip_addr)` exactly
/// when no usable binding exists yet.
pub(crate) fn learn_on_miss_v6(cache: &mut ArpCacheV6, mac_addr: [u8; 6], ip_addr: u128)
    ensures
        final(cache)@ == learned_v6(old(cache)@, mac_addr@, ip_addr),
{
    let looked = cache.search_arp_tables_v6(ip_addr);
    if mac_is_zero(&looked) {
        cache.add_arp_tables_v6(mac_addr, ip_addr);
    }
}

/// The decoded fields of a 28-byte ARP message.
pub ghost struct ArpFields {
    /// Hardware type; 1 for Ethernet.
    pub hardware_type: u16,
    /// Protocol type; `0x0800` for IPv4.
    pub protocol_type: u16,
    /// Length of a hardware address; 6 here.
    pub hardware_addr_len: u8,
    /// Length of a protocol address; 4 here.
    pub protocol_addr_len: u8,
    /// 1 for a request, 2 for a reply.
    pub operation_type: u16,
    /// Sender link-layer address.
    pub src_mac_addr: Seq<u8>,
    /// Sender IPv4 address.
    pub src_ip_addr: u32,
    /// Target link-layer address.
    pub dst_mac_addr: Seq<u8>,
    /// Target IPv4 address.
    pub dst_ip_addr: u32,
}

/// Field-level reading of a 28-byte ARP body.
pub open spec fn arp_parse(s: Seq<u8>) -> ArpFields {
    ArpFields {
        hardware_type: be16(s, 0),
        protocol_type: be16(s, 2),
        hardware_addr_len: s[4],
        protocol_addr_len: s[5],
        operation_type: be16(s, 6),
        src_mac_addr: s.subrange(8, 14),
        src_ip_addr: be32(s, 14),
        dst_mac_addr: s.subrange(18, 24),
        dst_ip_addr: be32(s, 24),
    }
}

/// The 28-byte wire encoding of an ARP message.
pub open spec fn arp_encode(m: ArpFields) -> Seq<u8> {
    be16_of(m.hardware_type as int) + be16_of(m.protocol_type as int) + seq![
        m.hardware_addr_len,
        m.protocol_addr_len,
    ] + be16_of(m.operation_type as int) + m.src_mac_addr + be32_of(m.src_ip_addr as int)
        + m.dst_mac_addr + be32_of(m.dst_ip_addr as int)
}

/// The reply the resolver sends for a request `m`: operation 2, the local
/// station as sender, the request's sender as target.
pub open spec fn arp_reply_for(m: ArpFields, my_mac: Seq<u8>, my_ip: u32) -> ArpFields {
    ArpFields {
        hardware_type: ARP_HARDWARE_TYPE,
        protocol_type: ETHERNET_TYPE_IPV4,
        hardware_addr_len: 6,
        protocol_addr_len: 4,
        operation_type: ARP_OPERATION_TYPE_REPLY,
        src_mac_addr: my_mac,
        src_ip_addr: my_ip,
        dst_mac_addr: m.src_mac_addr,
        dst_ip_addr: m.src_ip_addr,
    }
}

/// Cache and output of the ARP resolver on body `s`: a short body is a
/// typed failure; otherwise the sender is learned on a miss, and a request
/// targeting the local address yields `(sender address, encoded reply)`
/// while anything else yields `(0, empty)`.
pub open spec fn arp_outcome(
    entries: Seq<(Seq<u8>, u32)>,
    s: Seq<u8>,
    my_mac: Seq<u8>,
    my_ip: u32,
) -> (Seq<(Seq<u8>, u32)>, Result<(u32, Seq<u8>), UtilsError>) {
    if s.len() < 28 {
        (entries, Err(UtilsError::TruncatedPacket))
    } else {
        let m = arp_parse(s);
        let learned = learned_v4(entries, m.src_mac_addr, m.src_ip_addr);
        if m.operation_type == ARP_OPERATION_TYPE_REQUEST && m.dst_ip_addr == my_ip {
            (learned, Ok((m.src_ip_addr, arp_encode(arp_reply_for(m, my_mac, my_ip)))))
        } else {
            (learned, Ok((0u32, Seq::<u8>::empty())))
        }
    }
}

/// A decoded ARP message.
pub struct ArpMessage {
    /// Hardware type; 1 for Ethernet.
    pub hardware_type: u16,
    /// Protocol type; `0x0800` for IPv4.
    pub protocol_type: u16,
    /// Length of a hardware address; 6 here.
    pub hardware_addr_len: u8,
    /// Length of a protocol address; 4 here.
    pub protocol_addr_len: u8,
    /// 1 for a request, 2 for a reply.
    pub operation_type: u16,
    /// Sender link-layer address.
    pub src_mac_addr: [u8; 6],
    /// Sender IPv4 address.
    pub src_ip_addr: u32,
    /// Target link-layer address.
    pub dst_mac_addr: [u8; 6],
    /// Target IPv4 address.
    pub dst_ip_addr: u32,
}

impl View for ArpMessage {
    type V = ArpFields;

    open spec fn view(&self) -> ArpFields {
        ArpFields {
            hardware_type: self.hardware_type,
            protocol_type: self.protocol_type,
            hardware_addr_len: self.hardware_addr_len,
            protocol_addr_len: self.protocol_addr_len,
            operation_type: self.operation_type,
            src_mac_addr: self.src_mac_addr@,
            src_ip_addr: self.src_ip_addr,
            dst_mac_addr: self.dst_mac_addr@,
            dst_ip_addr: self.dst_ip_addr,
        }
    }
}

/// Decodes an ARP body, learns the sender's binding on a cache miss, and
/// answers a request that targets the local IPv4 address with an encoded
/// reply; any other message yields `(0, empty)`.
pub fn read_arp_packet(
    cache: &mut ArpCache,
    packet: Vec<u8>,
    my_mac_addr: [u8; 6],
    my_ip_addr: u32,
) -> (r: Result<(u32, Vec<u8>), UtilsError>)
    ensures
        final(cache)@ == arp_outcome(old(cache)@, packet@, my_mac_addr@, my_ip_addr).0,
        ({
            let res = arp_outcome(old(cache)@, packet@, my_mac_addr@, my_ip_addr).1;
            match (r, res) {
                (Ok(p), Ok(q)) => p.0 == q.0 && p.1@ == q.1,
                (Err(e), Err(f)) => e == f,
                _ => false,
            }
        }),
{
    if packet.len() < 28 {
        return Err(UtilsError::TruncatedPacket);
    }
    let arp_message = ArpMessage {
        hardware_type: read_u16_at(&packet, 0),
        protocol_type: read_u16_at(&packet, 2),
        hardware_addr_len: packet[4],
        protocol_addr_len: packet[5],
        operation_type: read_u16_at(&packet, 6),
        src_mac_addr: read_mac_at(&packet, 8),
        src_ip_addr: read_u32_at(&packet, 14),
        dst_mac_addr: read_mac_at(&packet, 18),
        dst_ip_addr: read_u32_at(&packet, 24),
    };
    proof {
        assert(arp_message@ == arp_parse(packet@));
    }
    learn_on_miss_v4(cache, arp_message.src_mac_addr, arp_message.src_ip_addr);
    if arp_message.operation_type == ARP_OPERATION_TYPE_REQUEST && arp_message.dst_ip_addr
        == my_ip_addr {
        let src_ip = arp_message.src_ip_addr;
        let reply = out_arp_reply(arp_message, my_mac_addr, my_ip_addr);
        Ok((src_ip, reply))
    } else {
        Ok((0, Vec::new()))
    }
}

/// Encodes the reply to the request `arp_req`: operation 2, the local
/// station as sender, the request's sender as target.
pub fn out_arp_reply(arp_req: ArpMessage, my_mac_addr: [u8; 6], my_ip_addr: u32) -> (r: Vec<u8>)
    ensures
        r@ == arp_encode(arp_reply_for(arp_req@, my_mac_addr@, my_ip_addr)),
{
    let mut buf: Vec<u8> = Vec::new();
    put_u16(&mut buf, ARP_HARDWARE_TYPE);
    put_u16(&mut buf, ETHERNET_TYPE_IPV4);
    buf.push(6);
    buf.push(4);
    put_u16(&mut buf, ARP_OPERATION_TYPE_REPLY);
    put_mac(&mut buf, &my_mac_addr);
    put_u32(&mut buf, my_ip_addr);
    put_mac(&mut buf, &arp_req.src_mac_addr);
    put_u32(&mut buf, arp_req.src_ip_addr);
    proof {
        assert(buf@ =~= arp_encode(arp_reply_for(arp_req@, my_mac_addr@, my_ip_addr)));
    }
    buf
}

proof fn lemma_lookup_push_v4(entries: Seq<(Seq<u8>, u32)>, e: (Seq<u8>, u32), q: u32)
    ensures
        lookup_v4(entries.push(e), q) == (match lookup_v4(entries, q) {
            Some(m) => Some(m),
            None => if e.1 == q {
                Some(e.0)
            } else {
                None::<Seq<u8>>
            },
        }),
    decreases entries.len(),
{
    let pushed = entries.push(e);
    if entries.len() == 0 {
        assert(pushed[0] == e);
        assert(lookup_v4(entries, q) == Option::<Seq<u8>>::None);
        if e.1 == q {
            assert(lookup_v4(pushed, q) == Some(e.0));
        } else {
            assert(pushed.subrange(1, 1).len() == 0);
            assert(lookup_v4(pushed.subrange(1, 1), q) == Option::<Seq<u8>>::None);
            assert(lookup_v4(pushed, q) == Option::<Seq<u8>>::None);
        }
    } else {
        assert(pushed[0] == entries[0]);
        if entries[0].1 == q {
            assert(lookup_v4(pushed, q) == Some(entries[0].0));
            assert(lookup_v4(entries, q) == Some(entries[0].0));
        } else {
            let rest = entries.subrange(1, entries.len() as int);
            assert(pushed.subrange(1, pushed.len() as int) =~= rest.push(e));
            lemma_lookup_push_v4(rest, e, q);
            assert(lookup_v4(pushed, q) == lookup_v4(rest.push(e), q));
            assert(lookup_v4(entries, q) == lookup_v4(rest, q));
        }
    }
}

/// Law of repeated learning: appending the same `(link address, address)`
/// binding twice leaves every lookup exactly as it is after appending it
/// once, so a duplicate entry can never make lookups order-dependent.
pub proof fn lemma_repeated_learn_consistent(
    entries: Seq<(Seq<u8>, u32)>,
    mac: Seq<u8>,
    ip: u32,
    q: u32,
)
    ensures
        lookup_v4(entries.push((mac, ip)).push((mac, ip)), q) == lookup_v4(
            entries.push((mac, ip)),
            q,
        ),
{
    lemma_lookup_push_v4(entries.push((mac, ip)), (mac, ip), q);
    lemma_lookup_push_v4(entries, (mac, ip), q);
}

/// Decoding an encoded ARP message gives back its fields.
pub proof fn lemma_arp_parse_encode(m: ArpFields)
    requires
        m.src_mac_addr.len() == 6,
        m.dst_mac_addr.len() == 6,
    ensures
        arp_encode(m).len() == 28,
        arp_parse(arp_encode(m)) == m,
{
    let s = arp_encode(m);
    lemma_be16_value(m.hardware_type);
    lemma_be16_value(m.protocol_type);
    lemma_be16_value(m.operation_type);
    lemma_be32_value(m.src_ip_addr);
    lemma_be32_value(m.dst_ip_addr);
    assert(arp_parse(s).src_mac_addr =~= m.src_mac_addr);
    assert(arp_parse(s).dst_mac_addr =~= m.dst_mac_addr);
}

/// Law of the ARP round trip: an encoded request whose target is the local
/// IPv4 address makes the resolver answer with the encoded reply — operation
/// 2, the local station as sender, the request's sender as target — and
/// leaves the sender's binding resolvable in the cache.
pub proof fn lemma_arp_round_trip(
    entries: Seq<(Seq<u8>, u32)>,
    m: ArpFields,
    my_mac: Seq<u8>,
    my_ip: u32,
)
    requires
        m.src_mac_addr.len() == 6,
        m.dst_mac_addr.len() == 6,
        m.operation_type == ARP_OPERATION_TYPE_REQUEST,
        m.dst_ip_addr == my_ip,
        lookup_v4(entries, m.src_ip_addr) == Option::<Seq<u8>>::None || lookup_v4(
            entries,
            m.src_ip_addr,
        ) == Some(m.src_mac_addr),
    ensures
        ({
            let reply = arp_reply_for(m, my_mac, my_ip);
            let (entries2, res) = arp_outcome(entries, arp_encode(m), my_mac, my_ip);
            &&& res == Ok::<(u32, Seq<u8>), UtilsError>((m.src_ip_addr, arp_encode(reply)))
            &&& reply.operation_type == ARP_OPERATION_TYPE_REPLY
            &&& reply.src_mac_addr == my_mac
            &&& reply.src_ip_addr == my_ip
            &&& reply.dst_mac_addr == m.src_mac_addr
            &&& reply.dst_ip_addr == m.src_ip_addr
            &&& lookup_v4(entries2, m.src_ip_addr) == Some(m.src_mac_addr)
        }),
{
    lemma_arp_parse_encode(m);
    lemma_lookup_push_v4(entries, (m.src_mac_addr, m.src_ip_addr), m.src_ip_addr);
}

/// Law of the non-target request: an encoded ARP message that is not a
/// request for the local address produces no output, yet the sender's
/// binding is still resolvable in the cache afterwards.
pub proof fn lemma_arp_non_target(
    entries: Seq<(Seq<u8>, u32)>,
    m: ArpFields,
    my_mac: Seq<u8>,
    my_ip: u32,
)
    requires
        m.src_mac_addr.len() == 6,
        m.dst_mac_addr.len() == 6,
        !(m.operation_type == ARP_OPERATION_TYPE_REQUEST && m.dst_ip_addr == my_ip),
        lookup_v4(entries, m.src_ip_addr) == Option::<Seq<u8>>::None || lookup_v4(
            entries,
            m.src_ip_addr,
        ) == Some(m.src_mac_addr),
    ensures
        arp_outcome(entries, arp_encode(m), my_mac, my_ip).1 == Ok::<(u32, Seq<u8>), UtilsError>(
            (0u32, Seq::<u8>::empty()),
        ),
        lookup_v4(arp_outcome(entries, arp_encode(m), my_mac, my_ip).0, m.src_ip_addr) == Some(
            m.src_mac_addr,
        ),
{
    lemma_arp_parse_encode(m);
    lemma_lookup_push_v4(entries, (m.src_mac_addr, m.src_ip_addr), m.src_ip_addr);
}

} // verus!
