//! IPv6 engine: decodes the fixed 40-byte header, learns the sender's link
//! address in the IPv6 cache, dispatches ICMPv6, and wraps replies in a
//! fresh header. IPv6 itself carries no checksum; integrity lives in the
//! upper layer's pseudo-header checksum.

use crate::arp::learn_on_miss_v6;
use crate::arp::learned_v6;
use crate::arp::ArpCacheV6;
use crate::ethernet::EthernetHeader;
use crate::icmpv6::icmpv6_outcome;
use crate::icmpv6::read_icmpv6_packet;
use crate::icmpv6::IP_PROTOCOL_NUMBER_ICMPV6;
use crate::util::be128;
use crate::util::be128_of;
use crate::util::be16;
use crate::util::be16_of;
use crate::util::be32;
use crate::util::be32_of;
use crate::util::put_bytes;
use crate::util::put_u128;
use crate::util::put_u16;
use crate::util::put_u32;
use crate::util::read_u128_at;
use crate::util::read_u16_at;
use crate::util::read_u32_at;
use crate::util::vec_suffix;
use crate::util::UtilsError;
use vstd::prelude::*;

verus! {

broadcast use crate::util::lemma_be128_of_len;

/// First 32 bits of every outgoing IPv6 header: version 6, traffic class
/// 0, and this stack's fixed flow label.
pub const IPV6_FIRST_WORD: u32 = 0x600fc929;

/// A decoded IPv6 header (fixed 40 bytes; extension headers are out of
/// scope).
pub struct IPv6Header {
    /// Version nibble; 6 for IPv6.
    pub version: u8,
    /// Traffic class.
    pub traffic_class: u8,
    /// Flow label.
    pub flow_label: u32,
    /// Payload length field.
    pub header_length: u16,
    /// Protocol of the payload.
    pub next_header: u8,
    /// Remaining hop count.
    pub hop_limit: u8,
    /// Sender address.
    pub src_addr: u128,
    /// Destination address.
    pub dst_addr: u128,
}

/// Field-level reading of a fixed 40-byte IPv6 header.
pub open spec fn ipv6_parse(s: Seq<u8>) -> IPv6Header {
    IPv6Header {
        version: (be32(s, 0) / 0x10000000) as u8,
        traffic_class: ((be32(s, 0) / 0x100000) % 0x100) as u8,
        flow_label: (be32(s, 0) % 0x100000) as u32,
        header_length: be16(s, 4),
        next_header: s[6],
        hop_limit: s[7],
        src_addr: be128(s, 8),
        dst_addr: be128(s, 24),
    }
}

/// The header-plus-payload bytes of a reply packet: version 6, traffic
/// class 0, the fixed flow label, the payload length, the given next
/// header, and hop limit 64.
pub open spec fn ipv6_out_bytes(src_addr: u128, dst_addr: u128, protocol: u8, payload: Seq<u8>) -> Seq<
    u8,
> {
    be32_of(IPV6_FIRST_WORD as int) + be16_of(payload.len() as int) + seq![protocol, 64u8]
        + be128_of(src_addr as int) + be128_of(dst_addr as int) + payload
}

/// Cache and output of the IPv6 engine on packet `s` arriving from link
/// address `src_mac`: a packet shorter than the header is a typed failure;
/// a packet for another destination is dropped with the cache untouched;
/// otherwise the sender is learned on a miss and an ICMPv6 payload is
/// handed to the echo responder, whose non-empty reply is wrapped in a
/// fresh header addressed back to the sender.
pub open spec fn ipv6_outcome(
    entries: Seq<(Seq<u8>, u128)>,
    src_mac: Seq<u8>,
    s: Seq<u8>,
    my_ip: u128,
) -> (Seq<(Seq<u8>, u128)>, Result<(u128, Seq<u8>), UtilsError>) {
    if s.len() < 40 {
        (entries, Err(UtilsError::TruncatedPacket))
    } else {
        let h = ipv6_parse(s);
        if h.dst_addr != my_ip {
            (entries, Ok((0u128, Seq::<u8>::empty())))
        } else {
            let learned = learned_v6(entries, src_mac, h.src_addr);
            let rest = s.subrange(40, s.len() as int);
            if h.next_header == IP_PROTOCOL_NUMBER_ICMPV6 {
                match icmpv6_outcome(h.dst_addr, h.src_addr, rest) {
                    Err(e) => (learned, Err(e)),
                    Ok(rep) => if rep.len() == 0 {
                        (learned, Ok((0u128, Seq::<u8>::empty())))
                    } else {
                        (
                            learned,
                            Ok(
                                (
                                    h.src_addr,
                                    ipv6_out_bytes(
                                        h.dst_addr,
                                        h.src_addr,
                                        IP_PROTOCOL_NUMBER_ICMPV6,
                                        rep,
                                    ),
                                ),
                            ),
                        )
                    },
                }
            } else {
                (learned, Ok((0u128, Seq::<u8>::empty())))
            }
        }
    }
}

/// Decodes an IPv6 packet that arrived in the frame described by
/// `eth_header`, drops it silently when it is not addressed to `ipv6`,
/// learns the sender's link address on a cache miss, and hands ICMPv6
/// payloads to the echo responder; returns the peer address and reply
/// bytes, or `(0, empty)` when there is nothing to send.
pub fn read_ipv6_packet(
    cache: &mut ArpCacheV6,
    eth_header: &EthernetHeader,
    packet: Vec<u8>,
    ipv6: u128,
) -> (r: Result<(u128, Vec<u8>), UtilsError>)
    requires
        packet@.len() <= 0xff00,
    ensures
        final(cache)@ == ipv6_outcome(old(cache)@, eth_header.src_mac_addr@, packet@, ipv6).0,
        ({
            let res = ipv6_outcome(old(cache)@, eth_header.src_mac_addr@, packet@, ipv6).1;
            match (r, res) {
                (Ok(p), Ok(q)) => p.0 == q.0 && p.1@ == q.1,
                (Err(e), Err(f)) => e == f,
                _ => false,
            }
        }),
{
    if packet.len() < 40 {
        return Err(UtilsError::TruncatedPacket);
    }
    let first_32_bits = read_u32_at(&packet, 0);
    let ipv6_header = IPv6Header {
        version: (first_32_bits / 0x10000000) as u8,
        traffic_class: ((first_32_bits / 0x100000) % 0x100) as u8,
        flow_label: first_32_bits % 0x100000,
        header_length: read_u16_at(&packet, 4),
        next_header: packet[6],
        hop_limit: packet[7],
        src_addr: read_u128_at(&packet, 8),
        dst_addr: read_u128_at(&packet, 24),
    };
    proof {
        assert(ipv6_header == ipv6_parse(packet@));
    }
    if ipv6 != ipv6_header.dst_addr {
        return Ok((0, Vec::new()));
    }
    learn_on_miss_v6(cache, eth_header.src_mac_addr, ipv6_header.src_addr);
    let rest = vec_suffix(&packet, 40);
    if ipv6_header.next_header == IP_PROTOCOL_NUMBER_ICMPV6 {
        match read_icmpv6_packet(ipv6_header.dst_addr, ipv6_header.src_addr, rest) {
            Err(e) => Err(e),
            Ok(reply) => {
                if reply.len() == 0 {
                    Ok((0, Vec::new()))
                } else {
                    Ok(
                        (
                            ipv6_header.src_addr,
                            out_ipv6_packet(
                                ipv6_header.dst_addr,
                                ipv6_header.src_addr,
                                IP_PROTOCOL_NUMBER_ICMPV6,
                                reply,
                            ),
                        ),
                    )
                }
            },
        }
    } else {
        Ok((0, Vec::new()))
    }
}

/// Builds a reply packet: a fresh 40-byte header with version 6, the fixed
/// flow label, the payload length, the given next header and hop limit 64,
/// followed by the payload.
pub fn out_ipv6_packet(src_addr: u128, dest_addr: u128, protocol: u8, payload: Vec<u8>) -> (r: Vec<
    u8,
>)
    requires
        payload@.len() <= 0xffff,
    ensures
        r@ == ipv6_out_bytes(src_addr, dest_addr, protocol, payload@),
{
    let mut buf: Vec<u8> = Vec::new();
    put_u32(&mut buf, IPV6_FIRST_WORD);
    put_u16(&mut buf, payload.len() as u16);
    buf.push(protocol);
    buf.push(64);
    put_u128(&mut buf, src_addr);
    put_u128(&mut buf, dest_addr);
    put_bytes(&mut buf, &payload);
    proof {
        reveal(crate::util::be128_of);
        assert(buf@ =~= ipv6_out_bytes(src_addr, dest_addr, protocol, payload@));
    }
    buf
}

} // verus!
