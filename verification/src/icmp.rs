//! ICMP echo responder: answers echo requests with echo replies whose
//! checksum is recomputed over the whole message.

use crate::util::be16;
use crate::util::be16_of;
use crate::util::checksum;
use crate::util::checksum_spec;
use crate::util::lemma_be16_of_u16;
use crate::util::put_bytes;
use crate::util::put_u16;
use crate::util::read_u16_at;
use crate::util::vec_suffix;
use crate::util::UtilsError;
use vstd::prelude::*;

verus! {

/// Message type of an ICMP echo reply.
pub const ICMP_MESSAGE_TYPE_ECHO_REPLY: u8 = 0;

/// Message type of an ICMP echo request.
pub const ICMP_MESSAGE_TYPE_ECHO_REQUEST: u8 = 8;

/// A decoded ICMP header.
pub struct ICMPHeader {
    /// Message type.
    pub icmp_type: u8,
    /// Message code.
    pub icmp_code: u8,
    /// Checksum as received.
    pub checksum: u16,
}

/// The echo-specific part of an ICMP echo message.
pub struct ICMPEchoMessage {
    /// Identifier of the echo exchange.
    pub identity_number: u16,
    /// Sequence number within the exchange.
    pub sequence_number: u16,
    /// Opaque payload, echoed verbatim.
    pub data: Vec<u8>,
}

/// The reply to an echo request: type 0, the request's code, identifier,
/// sequence and payload, with the checksum recomputed over the whole
/// message (zeroed field) and written into bytes 2 and 3.
pub open spec fn icmp_echo_reply_bytes(code: u8, id: u16, seq_no: u16, data: Seq<u8>) -> Seq<u8> {
    let zeroed = seq![ICMP_MESSAGE_TYPE_ECHO_REPLY, code, 0u8, 0u8] + be16_of(id as int) + be16_of(
        seq_no as int,
    ) + data;
    let c = checksum_spec(zeroed);
    zeroed.update(2, be16_of(c)[0]).update(3, be16_of(c)[1])
}

/// Output of the ICMP responder on message `s`: a short message is a typed
/// failure, a non-request is dropped (empty output), and an echo request
/// yields the echo reply.
pub open spec fn icmp_outcome(s: Seq<u8>) -> Result<Seq<u8>, UtilsError> {
    if s.len() < 4 {
        Err(UtilsError::TruncatedPacket)
    } else if s[0] != ICMP_MESSAGE_TYPE_ECHO_REQUEST {
        Ok(Seq::<u8>::empty())
    } else if s.len() < 8 {
        Err(UtilsError::TruncatedPacket)
    } else {
        Ok(icmp_echo_reply_bytes(s[1], be16(s, 4), be16(s, 6), s.subrange(8, s.len() as int)))
    }
}

/// Decodes an ICMP message and answers an echo request with an echo reply;
/// every other message type produces no output.
pub fn read_icmp_packet(icmp_packet: Vec<u8>) -> (r: Result<Vec<u8>, UtilsError>)
    requires
        icmp_packet@.len() <= 0x20000 - 8,
    ensures
        match (r, icmp_outcome(icmp_packet@)) {
            (Ok(v), Ok(sv)) => v@ == sv,
            (Err(e), Err(f)) => e == f,
            _ => false,
        },
{
    if icmp_packet.len() < 4 {
        return Err(UtilsError::TruncatedPacket);
    }
    let icmp_header = ICMPHeader {
        icmp_type: icmp_packet[0],
        icmp_code: icmp_packet[1],
        checksum: read_u16_at(&icmp_packet, 2),
    };
    if icmp_header.icmp_type != ICMP_MESSAGE_TYPE_ECHO_REQUEST {
        return Ok(Vec::new());
    }
    if icmp_packet.len() < 8 {
        return Err(UtilsError::TruncatedPacket);
    }
    let echo = ICMPEchoMessage {
        identity_number: read_u16_at(&icmp_packet, 4),
        sequence_number: read_u16_at(&icmp_packet, 6),
        data: vec_suffix(&icmp_packet, 8),
    };
    Ok(icmp_echo_reply(icmp_header, echo))
}

/// Builds the echo reply for a decoded request: type 0, the request's code,
/// identifier, sequence and payload, with a freshly computed checksum.
pub fn icmp_echo_reply(header: ICMPHeader, mes: ICMPEchoMessage) -> (r: Vec<u8>)
    requires
        mes.data@.len() + 8 <= 0x20000,
    ensures
        r@ == icmp_echo_reply_bytes(
            header.icmp_code,
            mes.identity_number,
            mes.sequence_number,
            mes.data@,
        ),
{
    let ghost zeroed = seq![ICMP_MESSAGE_TYPE_ECHO_REPLY, header.icmp_code, 0u8, 0u8] + be16_of(
        mes.identity_number as int,
    ) + be16_of(mes.sequence_number as int) + mes.data@;
    let mut buf: Vec<u8> = Vec::new();
    buf.push(ICMP_MESSAGE_TYPE_ECHO_REPLY);
    buf.push(header.icmp_code);
    buf.push(0);
    buf.push(0);
    put_u16(&mut buf, mes.identity_number);
    put_u16(&mut buf, mes.sequence_number);
    put_bytes(&mut buf, &mes.data);
    proof {
        assert(buf@ =~= zeroed);
    }
    let c = checksum(&buf);
    proof {
        lemma_be16_of_u16(c);
    }
    buf.set(2, (c / 0x100) as u8);
    buf.set(3, (c % 0x100) as u8);
    proof {
        assert(buf@ =~= icmp_echo_reply_bytes(
            header.icmp_code,
            mes.identity_number,
            mes.sequence_number,
            mes.data@,
        ));
    }
    buf
}

} // verus!
