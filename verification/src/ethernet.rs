//! Ethernet frame dispatch: header decoding, ownership filtering, protocol
//! dispatch, and the single outbound path that wraps reply payloads in a
//! fresh frame whose destination is resolved through the address cache.

use crate::arp::arp_outcome;
use crate::arp::lookup_v4;
use crate::arp::lookup_v6;
use crate::arp::read_arp_packet;
use crate::arp::zero_mac;
use crate::arp::ArpCache;
use crate::arp::ArpCacheV6;
use crate::ipv4::ipv4_outcome;
use crate::ipv4::read_ipv4_packet;
use crate::ipv6::ipv6_outcome;
use crate::ipv6::read_ipv6_packet;
use crate::util::be128_of;
use crate::util::be16;
use crate::util::be16_of;
use crate::util::be32_of;
use crate::util::mac_eq_at;
use crate::util::put_bytes;
use crate::util::put_mac;
use crate::util::put_u128;
use crate::util::put_u16;
use crate::util::put_u32;
use crate::util::read_mac_at;
use crate::util::read_u16_at;
use crate::util::vec_suffix;
use crate::util::UtilsError;
use vstd::prelude::*;

verus! {

broadcast use crate::util::lemma_be128_of_len;

/// Ethertype of IPv4.
pub const ETHERNET_TYPE_IPV4: u16 = 0x0800;

/// Ethertype of ARP.
pub const ETHERNET_TYPE_ARP: u16 = 0x0806;

/// Ethertype of IPv6.
pub const ETHERNET_TYPE_IPV6: u16 = 0x86DD;

/// A decoded 14-byte Ethernet header.
pub struct EthernetHeader {
    /// Destination station.
    pub dst_mac_addr: [u8; 6],
    /// Sending station.
    pub src_mac_addr: [u8; 6],
    /// Protocol of the payload.
    pub ethernet_type: u16,
}

/// The locally configured protocol address, if any, handed in by the I/O
/// layer once per received frame.
#[derive(Debug, Clone, Copy)]
pub enum HostIpAddr {
    /// An IPv4 address as its 32-bit value.
    V4(u32),
    /// An IPv6 address as its 128-bit value.
    V6(u128),
}

/// The local IPv4 address implied by `a`: the configured address, or 0
/// when none is configured or the configured one is IPv6.
pub open spec fn local_v4(a: Option<HostIpAddr>) -> u32 {
    match a {
        Some(HostIpAddr::V4(x)) => x,
        _ => 0u32,
    }
}

/// The local IPv6 address implied by `a`: the configured address, or 0
/// when none is configured or the configured one is IPv4.
pub open spec fn local_v6(a: Option<HostIpAddr>) -> u128 {
    match a {
        Some(HostIpAddr::V6(x)) => x,
        _ => 0u128,
    }
}

/// The local address octets handed to the DNS responder: four bytes for an
/// IPv4 address, sixteen for IPv6, none when no address is configured.
pub open spec fn local_octets(a: Option<HostIpAddr>) -> Seq<u8> {
    match a {
        Some(HostIpAddr::V4(x)) => be32_of(x as int),
        Some(HostIpAddr::V6(x)) => be128_of(x as int),
        None => Seq::<u8>::empty(),
    }
}

/// An outbound frame: destination station, source station, ethertype,
/// payload.
pub open spec fn eth_frame_bytes(
    dst_mac: Seq<u8>,
    src_mac: Seq<u8>,
    ether_type: u16,
    payload: Seq<u8>,
) -> Seq<u8> {
    dst_mac + src_mac + be16_of(ether_type as int) + payload
}

/// The link-layer address an outbound IPv4 payload is sent to: the cached
/// binding of the destination, or the all-zero sentinel when unresolved.
pub open spec fn resolved_mac_v4(entries: Seq<(Seq<u8>, u32)>, ip: u32) -> Seq<u8> {
    match lookup_v4(entries, ip) {
        Some(m) => m,
        None => zero_mac(),
    }
}

/// The link-layer address an outbound IPv6 payload is sent to: the cached
/// binding of the destination, or the all-zero sentinel when unresolved.
pub open spec fn resolved_mac_v6(entries: Seq<(Seq<u8>, u128)>, ip: u128) -> Seq<u8> {
    match lookup_v6(entries, ip) {
        Some(m) => m,
        None => zero_mac(),
    }
}

/// Caches and output of the frame dispatcher on frame `s`: a frame shorter
/// than the header is a typed failure; a frame for another station is
/// dropped untouched; otherwise the remaining bytes go by ethertype to the
/// ARP resolver or the IPv4 or IPv6 engine, and an inner reply for a
/// non-zero peer is wrapped in a frame addressed to that peer's cached
/// link address.
pub open spec fn eth_outcome(
    v4: Seq<(Seq<u8>, u32)>,
    v6: Seq<(Seq<u8>, u128)>,
    s: Seq<u8>,
    my_mac: Seq<u8>,
    my_ip: Option<HostIpAddr>,
) -> (Seq<(Seq<u8>, u32)>, Seq<(Seq<u8>, u128)>, Result<Seq<u8>, UtilsError>) {
    if s.len() < 14 {
        (v4, v6, Err(UtilsError::TruncatedPacket))
    } else if s.subrange(0, 6) != my_mac {
        (v4, v6, Ok(Seq::<u8>::empty()))
    } else {
        let src_mac = s.subrange(6, 12);
        let ether_type = be16(s, 12);
        let rest = s.subrange(14, s.len() as int);
        if ether_type == ETHERNET_TYPE_IPV4 {
            let (v4b, res) = ipv4_outcome(v4, src_mac, rest, local_v4(my_ip), local_octets(my_ip));
            match res {
                Err(e) => (v4b, v6, Err(e)),
                Ok((dest_ip, payload)) => if dest_ip != 0 {
                    (
                        v4b,
                        v6,
                        Ok(
                            eth_frame_bytes(
                                resolved_mac_v4(v4b, dest_ip),
                                my_mac,
                                ETHERNET_TYPE_IPV4,
                                payload,
                            ),
                        ),
                    )
                } else {
                    (v4b, v6, Ok(Seq::<u8>::empty()))
                },
            }
        } else if ether_type == ETHERNET_TYPE_ARP {
            let (v4b, res) = arp_outcome(v4, rest, my_mac, local_v4(my_ip));
            match res {
                Err(e) => (v4b, v6, Err(e)),
                Ok((dest_ip, payload)) => if dest_ip != 0 {
                    (
                        v4b,
                        v6,
                        Ok(
                            eth_frame_bytes(
                                resolved_mac_v4(v4b, dest_ip),
                                my_mac,
                                ETHERNET_TYPE_ARP,
                                payload,
                            ),
                        ),
                    )
                } else {
                    (v4b, v6, Ok(Seq::<u8>::empty()))
                },
            }
        } else if ether_type == ETHERNET_TYPE_IPV6 {
            let (v6b, res) = ipv6_outcome(v6, src_mac, rest, local_v6(my_ip));
            match res {
                Err(e) => (v4, v6b, Err(e)),
                Ok((dest_ip, payload)) => if dest_ip != 0 {
                    (
                        v4,
                        v6b,
                        Ok(
                            eth_frame_bytes(
                                resolved_mac_v6(v6b, dest_ip),
                                my_mac,
                                ETHERNET_TYPE_IPV6,
                                payload,
                            ),
                        ),
                    )
                } else {
                    (v4, v6b, Ok(Seq::<u8>::empty()))
                },
            }
        } else {
            (v4, v6, Ok(Seq::<u8>::empty()))
        }
    }
}

/// Decodes the Ethernet header of a received frame, drops frames not
/// addressed to the local station, dispatches the payload by ethertype to
/// the ARP resolver or the IPv4 or IPv6 engine, and wraps a reply in an
/// outgoing frame whose destination link address is resolved through the
/// matching cache; an empty result means there is nothing to send.
#[verifier::rlimit(100)]
#[verifier::spinoff_prover]
pub fn read_ethernet(
    arp_cache: &mut ArpCache,
    arp_cache_v6: &mut ArpCacheV6,
    packet: Vec<u8>,
    my_mac_addr: [u8; 6],
    my_ip_addr: Option<HostIpAddr>,
) -> (r: Result<Vec<u8>, UtilsError>)
    requires
        packet@.len() <= 1514,
    ensures
        final(arp_cache)@ == eth_outcome(
            old(arp_cache)@,
            old(arp_cache_v6)@,
            packet@,
            my_mac_addr@,
            my_ip_addr,
        ).0,
        final(arp_cache_v6)@ == eth_outcome(
            old(arp_cache)@,
            old(arp_cache_v6)@,
            packet@,
            my_mac_addr@,
            my_ip_addr,
        ).1,
        ({
            let res = eth_outcome(
                old(arp_cache)@,
                old(arp_cache_v6)@,
                packet@,
                my_mac_addr@,
                my_ip_addr,
            ).2;
            match (r, res) {
                (Ok(v), Ok(sv)) => v@ == sv,
                (Err(e), Err(f)) => e == f,
                _ => false,
            }
        }),
{
    if packet.len() < 14 {
        return Err(UtilsError::TruncatedPacket);
    }
    if !mac_eq_at(&packet, 0, &my_mac_addr) {
        return Ok(Vec::new());
    }
    let eth_header = EthernetHeader {
        dst_mac_addr: read_mac_at(&packet, 0),
        src_mac_addr: read_mac_at(&packet, 6),
        ethernet_type: read_u16_at(&packet, 12),
    };
    let mut ipv4_addr: u32 = 0;
    let mut ipv6_addr: u128 = 0;
    let mut local_addr: Vec<u8> = Vec::new();
    match my_ip_addr {
        Some(HostIpAddr::V4(ipv4)) => {
            ipv4_addr = ipv4;
            put_u32(&mut local_addr, ipv4);
        },
        Some(HostIpAddr::V6(ipv6)) => {
            ipv6_addr = ipv6;
            put_u128(&mut local_addr, ipv6);
        },
        None => {},
    }
    proof {
        assert(ipv4_addr == local_v4(my_ip_addr));
        assert(ipv6_addr == local_v6(my_ip_addr));
        assert(local_addr@ =~= local_octets(my_ip_addr));
    }
    let rest = vec_suffix(&packet, 14);
    if eth_header.ethernet_type == ETHERNET_TYPE_IPV4 {
        match read_ipv4_packet(arp_cache, &eth_header, rest, ipv4_addr, &local_addr) {
            Err(e) => Err(e),
            Ok((dest_ip_addr, reply)) => {
                if dest_ip_addr != 0 {
                    let dest_mac_addr = arp_cache.search_arp_tables(dest_ip_addr);
                    Ok(out_ethernet(my_mac_addr, dest_mac_addr, reply, ETHERNET_TYPE_IPV4))
                } else {
                    Ok(Vec::new())
                }
            },
        }
    } else if eth_header.ethernet_type == ETHERNET_TYPE_ARP {
        match read_arp_packet(arp_cache, rest, my_mac_addr, ipv4_addr) {
            Err(e) => Err(e),
            Ok((dest_ip_addr, reply)) => {
                if dest_ip_addr != 0 {
                    let dest_mac_addr = arp_cache.search_arp_tables(dest_ip_addr);
                    Ok(out_ethernet(my_mac_addr, dest_mac_addr, reply, ETHERNET_TYPE_ARP))
                } else {
                    Ok(Vec::new())
                }
            },
        }
    } else if eth_header.ethernet_type == ETHERNET_TYPE_IPV6 {
        match read_ipv6_packet(arp_cache_v6, &eth_header, rest, ipv6_addr) {
            Err(e) => Err(e),
            Ok((dest_ip_addr, reply)) => {
                if dest_ip_addr != 0 {
                    let dest_mac_addr = arp_cache_v6.search_arp_tables_v6(dest_ip_addr);
                    Ok(out_ethernet(my_mac_addr, dest_mac_addr, reply, ETHERNET_TYPE_IPV6))
                } else {
                    Ok(Vec::new())
                }
            },
        }
    } else {
        Ok(Vec::new())
    }
}

/// Builds an outgoing frame: destination station, source station,
/// ethertype, then the payload verbatim.
pub fn out_ethernet(
    src_mac_addr: [u8; 6],
    dest_mac_addr: [u8; 6],
    packet: Vec<u8>,
    ether_type: u16,
) -> (r: Vec<u8>)
    ensures
        r@ == eth_frame_bytes(dest_mac_addr@, src_mac_addr@, ether_type, packet@),
{
    let mut buf: Vec<u8> = Vec::new();
    put_mac(&mut buf, &dest_mac_addr);
    put_mac(&mut buf, &src_mac_addr);
    put_u16(&mut buf, ether_type);
    put_bytes(&mut buf, &packet);
    proof {
        assert(buf@ =~= eth_frame_bytes(dest_mac_addr@, src_mac_addr@, ether_type, packet@));
    }
    buf
}

} // verus!
