//! TCP header decoding. Only the fixed header is read; no TCP state
//! machine exists in this stack, so nothing is ever answered.

use crate::util::be16;
use crate::util::be32;
use crate::util::read_u16_at;
use crate::util::read_u32_at;
use crate::util::UtilsError;
use vstd::prelude::*;

verus! {

/// A decoded TCP header.
pub struct TCPHeader {
    /// Sending port.
    pub src_port: u16,
    /// Destination port.
    pub dst_port: u16,
    /// Sequence number.
    pub seq: u32,
    /// Acknowledgement number.
    pub ack: u32,
    /// Raw data-offset byte, scaled down by four.
    pub offset: u8,
    /// Flag bits.
    pub flag: u8,
    /// Receive window.
    pub window_size: u16,
    /// Checksum as received.
    pub checksum: u16,
    /// Urgent pointer.
    pub urg_pt: u16,
}

/// Field-level reading of a fixed 20-byte TCP header.
pub open spec fn tcp_parse(s: Seq<u8>) -> TCPHeader {
    TCPHeader {
        src_port: be16(s, 0),
        dst_port: be16(s, 2),
        seq: be32(s, 4),
        ack: be32(s, 8),
        offset: (s[12] / 4) as u8,
        flag: s[13],
        window_size: be16(s, 14),
        checksum: be16(s, 16),
        urg_pt: be16(s, 18),
    }
}

/// Output of the TCP decoder on segment `s`: the decoded header, or a
/// typed failure for a segment shorter than the fixed header.
pub open spec fn tcp_outcome(s: Seq<u8>) -> Result<TCPHeader, UtilsError> {
    if s.len() < 20 {
        Err(UtilsError::TruncatedPacket)
    } else {
        Ok(tcp_parse(s))
    }
}

/// Decodes a fixed 20-byte TCP header. Decode only: the caller drops the
/// segment afterwards, as answering TCP is out of this stack's scope.
pub fn read_tcp_packet(tcp_packet: Vec<u8>) -> (r: Result<TCPHeader, UtilsError>)
    ensures
        r == tcp_outcome(tcp_packet@),
{
    if tcp_packet.len() < 20 {
        return Err(UtilsError::TruncatedPacket);
    }
    let tcp = TCPHeader {
        src_port: read_u16_at(&tcp_packet, 0),
        dst_port: read_u16_at(&tcp_packet, 2),
        seq: read_u32_at(&tcp_packet, 4),
        ack: read_u32_at(&tcp_packet, 8),
        offset: tcp_packet[12] / 4,
        flag: tcp_packet[13],
        window_size: read_u16_at(&tcp_packet, 14),
        checksum: read_u16_at(&tcp_packet, 16),
        urg_pt: read_u16_at(&tcp_packet, 18),
    };
    Ok(tcp)
}

} // verus!
