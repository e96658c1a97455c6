//! ICMPv6 echo responder: answers echo requests with echo replies whose
//! checksum binds the message to the IPv6 addresses through a pseudo-header.

use crate::util::be128;
use crate::util::be128_of;
use crate::util::be16;
use crate::util::be16_of;
use crate::util::be32_of;
use crate::util::checksum;
use crate::util::checksum_spec;
use crate::util::lemma_be16_of_u16;
use crate::util::put_bytes;
use crate::util::put_u128;
use crate::util::put_u16;
use crate::util::put_u32;
use crate::util::read_u128_at;
use crate::util::read_u16_at;
use crate::util::vec_suffix;
use crate::util::UtilsError;
use vstd::prelude::*;

verus! {

broadcast use crate::util::lemma_be128_of_len;

/// Message type of an ICMPv6 echo request.
pub const ICMPV6_TYPE_ECHO_REQUEST: u8 = 128;

/// Message type of an ICMPv6 echo reply.
pub const ICMPV6_TYPE_ECHO_REPLY: u8 = 129;

/// Next-header number of ICMPv6.
pub const IP_PROTOCOL_NUMBER_ICMPV6: u8 = 58;

/// The echo-specific part of an ICMPv6 echo message.
pub struct ICMPV6Echo {
    /// Identifier of the echo exchange.
    pub identify: u16,
    /// Sequence number within the exchange.
    pub sequence: u16,
    /// Timestamp carried before the opaque payload in this echo layout.
    pub timestamp: u128,
    /// Opaque payload, echoed verbatim.
    pub data: Vec<u8>,
}

/// The ICMPv6 pseudo-header: source and destination address, the
/// upper-layer length and the next-header number 58, the last two padded
/// to 32 bits.
pub open spec fn icmpv6_pseudo(src: u128, dst: u128, len: int) -> Seq<u8> {
    be128_of(src as int) + be128_of(dst as int) + be32_of(len) + be32_of(
        IP_PROTOCOL_NUMBER_ICMPV6 as int,
    )
}

/// The reply to an echo request: type 129, code 0, identifier, sequence,
/// timestamp and payload echoed, checksum computed over the pseudo-header
/// concatenated with the zeroed reply and written into bytes 2 and 3. The
/// pseudo-header carries the reply's addresses: the local address as
/// source, the peer as destination.
pub open spec fn icmpv6_echo_reply_bytes(
    src: u128,
    dst: u128,
    id: u16,
    seq_no: u16,
    ts: u128,
    data: Seq<u8>,
) -> Seq<u8> {
    let zeroed = seq![ICMPV6_TYPE_ECHO_REPLY, 0u8, 0u8, 0u8] + be16_of(id as int) + be16_of(
        seq_no as int,
    ) + be128_of(ts as int) + data;
    let c = checksum_spec(icmpv6_pseudo(src, dst, zeroed.len() as int) + zeroed);
    zeroed.update(2, be16_of(c)[0]).update(3, be16_of(c)[1])
}

/// Output of the ICMPv6 responder on message `s`: a short message is a
/// typed failure, a non-request is dropped (empty output), and an echo
/// request yields the echo reply bound to `(src, dst)`.
pub open spec fn icmpv6_outcome(src: u128, dst: u128, s: Seq<u8>) -> Result<Seq<u8>, UtilsError> {
    if s.len() < 4 {
        Err(UtilsError::TruncatedPacket)
    } else if s[0] != ICMPV6_TYPE_ECHO_REQUEST {
        Ok(Seq::<u8>::empty())
    } else if s.len() < 24 {
        Err(UtilsError::TruncatedPacket)
    } else {
        Ok(
            icmpv6_echo_reply_bytes(
                src,
                dst,
                be16(s, 4),
                be16(s, 6),
                be128(s, 8),
                s.subrange(24, s.len() as int),
            ),
        )
    }
}

/// Decodes an ICMPv6 message and answers an echo request with an echo
/// reply whose pseudo-header carries `src_addr` (local) and `dst_addr`
/// (peer); every other message type produces no output.
pub fn read_icmpv6_packet(src_addr: u128, dst_addr: u128, icmp_packet: Vec<u8>) -> (r: Result<
    Vec<u8>,
    UtilsError,
>)
    requires
        icmp_packet@.len() <= 0x20000 - 64,
    ensures
        match (r, icmpv6_outcome(src_addr, dst_addr, icmp_packet@)) {
            (Ok(v), Ok(sv)) => v@ == sv,
            (Err(e), Err(f)) => e == f,
            _ => false,
        },
{
    if icmp_packet.len() < 4 {
        return Err(UtilsError::TruncatedPacket);
    }
    if icmp_packet[0] != ICMPV6_TYPE_ECHO_REQUEST {
        return Ok(Vec::new());
    }
    if icmp_packet.len() < 24 {
        return Err(UtilsError::TruncatedPacket);
    }
    let echo = ICMPV6Echo {
        identify: read_u16_at(&icmp_packet, 4),
        sequence: read_u16_at(&icmp_packet, 6),
        timestamp: read_u128_at(&icmp_packet, 8),
        data: vec_suffix(&icmp_packet, 24),
    };
    Ok(icmpv6_echo_reply(src_addr, dst_addr, echo))
}

/// Builds the echo reply for a decoded request: type 129, code 0, the
/// request's identifier, sequence, timestamp and payload, with the checksum
/// computed over the pseudo-header and the whole reply.
pub fn icmpv6_echo_reply(src_addr: u128, dst_addr: u128, icmpv6echo: ICMPV6Echo) -> (r: Vec<u8>)
    requires
        icmpv6echo.data@.len() + 64 <= 0x20000,
    ensures
        r@ == icmpv6_echo_reply_bytes(
            src_addr,
            dst_addr,
            icmpv6echo.identify,
            icmpv6echo.sequence,
            icmpv6echo.timestamp,
            icmpv6echo.data@,
        ),
{
    let ghost zeroed = seq![ICMPV6_TYPE_ECHO_REPLY, 0u8, 0u8, 0u8] + be16_of(
        icmpv6echo.identify as int,
    ) + be16_of(icmpv6echo.sequence as int) + be128_of(icmpv6echo.timestamp as int)
        + icmpv6echo.data@;
    let mut buf: Vec<u8> = Vec::new();
    buf.push(ICMPV6_TYPE_ECHO_REPLY);
    buf.push(0);
    buf.push(0);
    buf.push(0);
    put_u16(&mut buf, icmpv6echo.identify);
    put_u16(&mut buf, icmpv6echo.sequence);
    put_u128(&mut buf, icmpv6echo.timestamp);
    put_bytes(&mut buf, &icmpv6echo.data);
    proof {
        reveal(crate::util::be128_of);
        assert(buf@ =~= zeroed);
    }
    let mut calc_checksum_buf: Vec<u8> = Vec::new();
    put_u128(&mut calc_checksum_buf, src_addr);
    put_u128(&mut calc_checksum_buf, dst_addr);
    put_u32(&mut calc_checksum_buf, buf.len() as u32);
    put_u32(&mut calc_checksum_buf, IP_PROTOCOL_NUMBER_ICMPV6 as u32);
    put_bytes(&mut calc_checksum_buf, &buf);
    proof {
        reveal(crate::util::be128_of);
        assert(calc_checksum_buf@ =~= icmpv6_pseudo(src_addr, dst_addr, zeroed.len() as int)
            + zeroed);
    }
    let c = checksum(&calc_checksum_buf);
    proof {
        lemma_be16_of_u16(c);
    }
    buf.set(2, (c / 0x100) as u8);
    buf.set(3, (c % 0x100) as u8);
    proof {
        reveal(crate::util::be128_of);
        assert(buf@ =~= icmpv6_echo_reply_bytes(
            src_addr,
            dst_addr,
            icmpv6echo.identify,
            icmpv6echo.sequence,
            icmpv6echo.timestamp,
            icmpv6echo.data@,
        ));
    }
    buf
}

} // verus!
