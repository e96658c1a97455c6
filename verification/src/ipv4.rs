//! IPv4 engine: decodes and validates the fixed 20-byte header, learns the
//! sender's link address, dispatches the payload by protocol number, and
//! wraps replies in a fresh header with a recomputed checksum.

use crate::arp::learn_on_miss_v4;
use crate::arp::learned_v4;
use crate::arp::ArpCache;
use crate::ethernet::EthernetHeader;
use crate::icmp::icmp_outcome;
use crate::icmp::read_icmp_packet;
use crate::tcp::read_tcp_packet;
use crate::tcp::tcp_outcome;
use crate::udp::read_udp_packet;
use crate::udp::udp_outcome;
use crate::util::be16;
use crate::util::be16_of;
use crate::util::be32;
use crate::util::be32_of;
use crate::util::checksum;
use crate::util::checksum_spec;
use crate::util::lemma_be16_of_u16;
use crate::util::put_bytes;
use crate::util::put_u16;
use crate::util::put_u32;
use crate::util::read_u16_at;
use crate::util::read_u32_at;
use crate::util::vec_suffix;
use crate::util::UtilsError;
use vstd::prelude::*;

verus! {

/// Protocol number of ICMP.
pub const IP_PROTOCOL_NUMBER_ICMP: u8 = 1;

/// Protocol number of TCP.
pub const IP_PROTOCOL_NUMBER_TCP: u8 = 6;

/// Protocol number of UDP.
pub const IP_PROTOCOL_NUMBER_UDP: u8 = 17;

/// A decoded IPv4 header (fixed 20 bytes; options are out of scope).
pub struct IPv4Header {
    /// Version nibble; 4 for IPv4.
    pub version: u8,
    /// Header length in bytes, from the length nibble.
    pub header_length: u8,
    /// Type of service.
    pub tos: u8,
    /// Length of header plus payload.
    pub total_len: u16,
    /// Identification of the datagram.
    pub identity_num: u16,
    /// Flag bits and fragment offset.
    pub frag_offset: u16,
    /// Remaining hop count.
    pub ttl: u8,
    /// Protocol number of the payload.
    pub protocol: u8,
    /// Header checksum as received.
    pub checksum: u16,
    /// Sender address.
    pub src_addr: u32,
    /// Destination address.
    pub dst_addr: u32,
}

/// Field-level reading of a fixed 20-byte IPv4 header.
pub open spec fn ipv4_parse(s: Seq<u8>) -> IPv4Header {
    IPv4Header {
        version: (s[0] / 16) as u8,
        header_length: ((s[0] % 16) * 4) as u8,
        tos: s[1],
        total_len: be16(s, 2),
        identity_num: be16(s, 4),
        frag_offset: be16(s, 6),
        ttl: s[8],
        protocol: s[9],
        checksum: be16(s, 10),
        src_addr: be32(s, 12),
        dst_addr: be32(s, 16),
    }
}

/// The header-plus-payload bytes of a reply datagram: version 4, a 20-byte
/// header, default type of service, total length 20 plus the payload
/// length, TTL 64, and the Internet checksum of the header bytes alone
/// written into bytes 10 and 11.
pub open spec fn ipv4_out_bytes(src_addr: u32, dst_addr: u32, protocol: u8, payload: Seq<u8>) -> Seq<
    u8,
> {
    let zeroed = seq![0x45u8, 0u8] + be16_of(20 + payload.len() as int) + be16_of(0) + be16_of(0) + seq![
        64u8,
        protocol,
    ] + be16_of(0) + be32_of(src_addr as int) + be32_of(dst_addr as int);
    let c = checksum_spec(zeroed);
    zeroed.update(10, be16_of(c)[0]).update(11, be16_of(c)[1]) + payload
}

/// Cache and output of the IPv4 engine on packet `s` arriving from link
/// address `src_mac`: a packet shorter than the header is a typed failure;
/// a packet for another destination is dropped with the cache untouched;
/// otherwise the sender is learned on a miss and the payload dispatched by
/// protocol — ICMP through the echo responder, TCP decode-only, UDP through
/// the demultiplexer — and a non-empty reply is wrapped in a fresh header
/// addressed back to the sender.
pub open spec fn ipv4_outcome(
    entries: Seq<(Seq<u8>, u32)>,
    src_mac: Seq<u8>,
    s: Seq<u8>,
    my_ip: u32,
    local: Seq<u8>,
) -> (Seq<(Seq<u8>, u32)>, Result<(u32, Seq<u8>), UtilsError>) {
    if s.len() < 20 {
        (entries, Err(UtilsError::TruncatedPacket))
    } else {
        let h = ipv4_parse(s);
        if h.dst_addr != my_ip {
            (entries, Ok((0u32, Seq::<u8>::empty())))
        } else {
            let learned = learned_v4(entries, src_mac, h.src_addr);
            let rest = s.subrange(20, s.len() as int);
            if h.protocol == IP_PROTOCOL_NUMBER_ICMP {
                match icmp_outcome(rest) {
                    Err(e) => (learned, Err(e)),
                    Ok(rep) => if rep.len() == 0 {
                        (learned, Ok((0u32, Seq::<u8>::empty())))
                    } else {
                        (
                            learned,
                            Ok(
                                (
                                    h.src_addr,
                                    ipv4_out_bytes(
                                        h.dst_addr,
                                        h.src_addr,
                                        IP_PROTOCOL_NUMBER_ICMP,
                                        rep,
                                    ),
                                ),
                            ),
                        )
                    },
                }
            } else if h.protocol == IP_PROTOCOL_NUMBER_TCP {
                match tcp_outcome(rest) {
                    Err(e) => (learned, Err(e)),
                    Ok(_) => (learned, Ok((0u32, Seq::<u8>::empty()))),
                }
            } else if h.protocol == IP_PROTOCOL_NUMBER_UDP {
                match udp_outcome(h, rest, local) {
                    Err(e) => (learned, Err(e)),
                    Ok(rep) => if rep.len() == 0 {
                        (learned, Ok((0u32, Seq::<u8>::empty())))
                    } else {
                        (
                            learned,
                            Ok(
                                (
                                    h.src_addr,
                                    ipv4_out_bytes(
                                        h.dst_addr,
                                        h.src_addr,
                                        IP_PROTOCOL_NUMBER_UDP,
                                        rep,
                                    ),
                                ),
                            ),
                        )
                    },
                }
            } else {
                (learned, Ok((0u32, Seq::<u8>::empty())))
            }
        }
    }
}

/// Law of not-for-us: an IPv4 packet of at least header size whose
/// destination is not the local address yields no peer and no output, and
/// leaves the cache exactly as it was — nothing is learned from it.
pub proof fn lemma_ipv4_not_for_us(
    entries: Seq<(Seq<u8>, u32)>,
    src_mac: Seq<u8>,
    s: Seq<u8>,
    my_ip: u32,
    local: Seq<u8>,
)
    requires
        s.len() >= 20,
        ipv4_parse(s).dst_addr != my_ip,
    ensures
        ipv4_outcome(entries, src_mac, s, my_ip, local) == (
            entries,
            Ok::<(u32, Seq<u8>), UtilsError>((0u32, Seq::<u8>::empty())),
        ),
{
}

/// Decodes an IPv4 packet that arrived in the frame described by
/// `eth_header`, drops it silently when it is not addressed to `ipv4`,
/// learns the sender's link address on a cache miss, and dispatches the
/// payload by protocol number; returns the peer address and reply bytes,
/// or `(0, empty)` when there is nothing to send.
#[verifier::rlimit(60)]
#[verifier::spinoff_prover]
pub fn read_ipv4_packet(
    cache: &mut ArpCache,
    eth_header: &EthernetHeader,
    packet: Vec<u8>,
    ipv4: u32,
    local_addr: &Vec<u8>,
) -> (r: Result<(u32, Vec<u8>), UtilsError>)
    requires
        packet@.len() <= 0xff00,
        local_addr@.len() <= 16,
    ensures
        final(cache)@ == ipv4_outcome(
            old(cache)@,
            eth_header.src_mac_addr@,
            packet@,
            ipv4,
            local_addr@,
        ).0,
        ({
            let res = ipv4_outcome(
                old(cache)@,
                eth_header.src_mac_addr@,
                packet@,
                ipv4,
                local_addr@,
            ).1;
            match (r, res) {
                (Ok(p), Ok(q)) => p.0 == q.0 && p.1@ == q.1,
                (Err(e), Err(f)) => e == f,
                _ => false,
            }
        }),
{
    if packet.len() < 20 {
        return Err(UtilsError::TruncatedPacket);
    }
    let ipv4_header = IPv4Header {
        version: packet[0] / 16,
        header_length: (packet[0] % 16) * 4,
        tos: packet[1],
        total_len: read_u16_at(&packet, 2),
        identity_num: read_u16_at(&packet, 4),
        frag_offset: read_u16_at(&packet, 6),
        ttl: packet[8],
        protocol: packet[9],
        checksum: read_u16_at(&packet, 10),
        src_addr: read_u32_at(&packet, 12),
        dst_addr: read_u32_at(&packet, 16),
    };
    proof {
        assert(ipv4_header == ipv4_parse(packet@));
    }
    if ipv4 != ipv4_header.dst_addr {
        return Ok((0, Vec::new()));
    }
    learn_on_miss_v4(cache, eth_header.src_mac_addr, ipv4_header.src_addr);
    let rest = vec_suffix(&packet, 20);
    if ipv4_header.protocol == IP_PROTOCOL_NUMBER_ICMP {
        match read_icmp_packet(rest) {
            Err(e) => Err(e),
            Ok(reply) => {
                if reply.len() == 0 {
                    Ok((0, Vec::new()))
                } else {
                    Ok(
                        (
                            ipv4_header.src_addr,
                            out_ipv4_packet(
                                ipv4_header.dst_addr,
                                ipv4_header.src_addr,
                                IP_PROTOCOL_NUMBER_ICMP,
                                reply,
                            ),
                        ),
                    )
                }
            },
        }
    } else if ipv4_header.protocol == IP_PROTOCOL_NUMBER_TCP {
        match read_tcp_packet(rest) {
            Err(e) => Err(e),
            Ok(_) => Ok((0, Vec::new())),
        }
    } else if ipv4_header.protocol == IP_PROTOCOL_NUMBER_UDP {
        match read_udp_packet(&ipv4_header, rest, local_addr) {
            Err(e) => Err(e),
            Ok(reply) => {
                if reply.len() == 0 {
                    Ok((0, Vec::new()))
                } else {
                    Ok(
                        (
                            ipv4_header.src_addr,
                            out_ipv4_packet(
                                ipv4_header.dst_addr,
                                ipv4_header.src_addr,
                                IP_PROTOCOL_NUMBER_UDP,
                                reply,
                            ),
                        ),
                    )
                }
            },
        }
    } else {
        Ok((0, Vec::new()))
    }
}

/// Builds a reply datagram: a fresh 20-byte header with version 4, TTL 64,
/// total length 20 plus the payload length and a recomputed header
/// checksum, followed by the payload.
pub fn out_ipv4_packet(src_addr: u32, dest_addr: u32, protocol: u8, payload: Vec<u8>) -> (r: Vec<
    u8,
>)
    requires
        payload@.len() + 20 <= 0xffff,
    ensures
        r@ == ipv4_out_bytes(src_addr, dest_addr, protocol, payload@),
{
    let ghost zeroed = seq![0x45u8, 0u8] + be16_of(20 + payload@.len() as int) + be16_of(0) + be16_of(0)
        + seq![64u8, protocol] + be16_of(0) + be32_of(src_addr as int) + be32_of(dest_addr as int);
    let mut buf: Vec<u8> = Vec::new();
    buf.push(0x45);
    buf.push(0);
    put_u16(&mut buf, 20 + payload.len() as u16);
    put_u16(&mut buf, 0);
    put_u16(&mut buf, 0);
    buf.push(64);
    buf.push(protocol);
    put_u16(&mut buf, 0);
    put_u32(&mut buf, src_addr);
    put_u32(&mut buf, dest_addr);
    proof {
        assert(buf@ =~= zeroed);
    }
    let c = checksum(&buf);
    proof {
        lemma_be16_of_u16(c);
    }
    buf.set(10, (c / 0x100) as u8);
    buf.set(11, (c % 0x100) as u8);
    put_bytes(&mut buf, &payload);
    proof {
        assert(buf@ =~= ipv4_out_bytes(src_addr, dest_addr, protocol, payload@));
    }
    buf
}

} // verus!
