//! UDP demultiplexer: decodes the 8-byte header, hands port-53 payloads to
//! the DNS responder, and wraps its answer in a UDP reply with a fresh
//! pseudo-header checksum.

use crate::dns::dns_outcome;
use crate::dns::read_dns_packet;
use crate::ipv4::IPv4Header;
use crate::util::be16;
use crate::util::be16_of;
use crate::util::be32_of;
use crate::util::checksum;
use crate::util::checksum_spec;
use crate::util::lemma_be16_of_u16;
use crate::util::put_bytes;
use crate::util::put_u16;
use crate::util::put_u32;
use crate::util::read_u16_at;
use crate::util::vec_suffix;
use crate::util::UtilsError;
use vstd::prelude::*;

verus! {

/// Destination port of the DNS responder.
pub const UDP_PORT_DNS: u16 = 53;

/// A decoded UDP header.
pub struct UDPHeader {
    /// Sending port.
    pub src_port: u16,
    /// Destination port.
    pub dst_port: u16,
    /// Length of header plus payload.
    pub length: u16,
    /// Checksum as received.
    pub checksum: u16,
}

/// Field-level reading of an 8-byte UDP header.
pub open spec fn udp_parse(s: Seq<u8>) -> UDPHeader {
    UDPHeader { src_port: be16(s, 0), dst_port: be16(s, 2), length: be16(s, 4), checksum: be16(
        s,
        6,
    ) }
}

/// The UDP reply that carries `payload` back to the sender of `recv`:
/// ports swapped, length 8 plus the payload length, and a checksum
/// computed over the IPv4 pseudo-header (reply source address, reply
/// destination address, protocol 17, UDP length) concatenated with the
/// zeroed datagram, written into bytes 6 and 7.
pub open spec fn udp_out_bytes(
    reply_src_addr: u32,
    reply_dst_addr: u32,
    recv: UDPHeader,
    payload: Seq<u8>,
) -> Seq<u8> {
    let zeroed = be16_of(recv.dst_port as int) + be16_of(recv.src_port as int) + be16_of(8 + payload.len() as int) + be16_of(0) + payload;
    let pseudo = be32_of(reply_src_addr as int) + be32_of(reply_dst_addr as int) + be16_of(17)
        + be16_of(zeroed.len() as int);
    let c = checksum_spec(pseudo + zeroed);
    zeroed.update(6, be16_of(c)[0]).update(7, be16_of(c)[1])
}

/// Output of the UDP demultiplexer on datagram `s` inside the received
/// IPv4 header `h`: a datagram shorter than the header is a typed failure;
/// only destination port 53 is served, by handing the payload to the DNS
/// responder and wrapping a non-empty answer; everything else yields no
/// output.
pub open spec fn udp_outcome(h: IPv4Header, s: Seq<u8>, local: Seq<u8>) -> Result<
    Seq<u8>,
    UtilsError,
> {
    if s.len() < 8 {
        Err(UtilsError::TruncatedPacket)
    } else {
        let u = udp_parse(s);
        if u.dst_port != UDP_PORT_DNS {
            Ok(Seq::<u8>::empty())
        } else {
            match dns_outcome(s.subrange(8, s.len() as int), local) {
                Err(e) => Err(e),
                Ok(d) => if d.len() == 0 {
                    Ok(Seq::<u8>::empty())
                } else {
                    Ok(udp_out_bytes(h.dst_addr, h.src_addr, u, d))
                },
            }
        }
    }
}

/// Decodes a UDP datagram and serves destination port 53 through the DNS
/// responder; any other destination port yields no output.
pub fn read_udp_packet(ipv4_header: &IPv4Header, packet: Vec<u8>, local_addr: &Vec<u8>) -> (r:
    Result<Vec<u8>, UtilsError>)
    requires
        packet@.len() + local_addr@.len() + 28 <= 0xffff,
        local_addr@.len() <= 16,
    ensures
        match (r, udp_outcome(*ipv4_header, packet@, local_addr@)) {
            (Ok(v), Ok(sv)) => v@ == sv,
            (Err(e), Err(f)) => e == f,
            _ => false,
        },
{
    if packet.len() < 8 {
        return Err(UtilsError::TruncatedPacket);
    }
    let udp = UDPHeader {
        src_port: read_u16_at(&packet, 0),
        dst_port: read_u16_at(&packet, 2),
        length: read_u16_at(&packet, 4),
        checksum: read_u16_at(&packet, 6),
    };
    if udp.dst_port != UDP_PORT_DNS {
        return Ok(Vec::new());
    }
    let payload = vec_suffix(&packet, 8);
    match read_dns_packet(payload, local_addr) {
        Err(e) => Err(e),
        Ok(dns_response) => {
            if dns_response.len() == 0 {
                Ok(Vec::new())
            } else {
                Ok(out_udp_packet(ipv4_header, udp, dns_response))
            }
        },
    }
}

/// Builds the UDP reply that carries `packet` back to the sender described
/// by `recv_udpheader`, inside the addressing of `ipv4_header`.
pub fn out_udp_packet(ipv4_header: &IPv4Header, recv_udpheader: UDPHeader, packet: Vec<u8>) -> (r:
    Vec<u8>)
    requires
        8 + packet@.len() <= 0xffff,
    ensures
        r@ == udp_out_bytes(ipv4_header.dst_addr, ipv4_header.src_addr, recv_udpheader, packet@),
{
    let ghost zeroed = be16_of(recv_udpheader.dst_port as int) + be16_of(
        recv_udpheader.src_port as int,
    ) + be16_of(8 + packet@.len() as int) + be16_of(0) + packet@;
    let mut buf: Vec<u8> = Vec::new();
    put_u16(&mut buf, recv_udpheader.dst_port);
    put_u16(&mut buf, recv_udpheader.src_port);
    put_u16(&mut buf, 8 + packet.len() as u16);
    put_u16(&mut buf, 0);
    put_bytes(&mut buf, &packet);
    proof {
        assert(buf@ =~= zeroed);
    }
    let mut calc_checksum_buf: Vec<u8> = Vec::new();
    put_u32(&mut calc_checksum_buf, ipv4_header.dst_addr);
    put_u32(&mut calc_checksum_buf, ipv4_header.src_addr);
    put_u16(&mut calc_checksum_buf, 17);
    put_u16(&mut calc_checksum_buf, buf.len() as u16);
    put_bytes(&mut calc_checksum_buf, &buf);
    proof {
        let pseudo = be32_of(ipv4_header.dst_addr as int) + be32_of(ipv4_header.src_addr as int)
            + be16_of(17) + be16_of(zeroed.len() as int);
        assert(calc_checksum_buf@ =~= pseudo + zeroed);
    }
    let c = checksum(&calc_checksum_buf);
    proof {
        lemma_be16_of_u16(c);
    }
    buf.set(6, (c / 0x100) as u8);
    buf.set(7, (c % 0x100) as u8);
    proof {
        assert(buf@ =~= udp_out_bytes(
            ipv4_header.dst_addr,
            ipv4_header.src_addr,
            recv_udpheader,
            packet@,
        ));
    }
    buf
}

} // verus!
