//! Minimal DNS responder: answers a single-question query with one
//! A-record answer bound to the locally configured address.
//!
//! The question is located by counting backward from the end of the
//! datagram: the last four bytes are record type and class, everything
//! between the fixed header and them is the wire-encoded domain name.

use crate::util::be16;
use crate::util::be16_of;
use crate::util::be32_of;
use crate::util::put_bytes;
use crate::util::put_u16;
use crate::util::put_u32;
use crate::util::read_u16_at;
use crate::util::vec_range;
use crate::util::UtilsError;
use vstd::prelude::*;

verus! {

/// The decoded question of a single-question query.
struct Question {
    /// Wire-encoded domain name.
    domain: Vec<u8>,
    /// Queried record type.
    record_type: u16,
    /// Queried class.
    class: u16,
}

/// The reply to a single-question query: the echoed id; the flag bytes
/// `0x81 0x80` (a recursion-desired, recursion-available response with no
/// error); one question and one answer; the question copied verbatim; and
/// an answer whose name is the compression pointer `0xC0 0x0C` (offset 12,
/// the question's name), type A, class IN, a fixed small TTL, and the
/// local address octets as its data.
pub open spec fn dns_answer_bytes(
    id: u16,
    domain: Seq<u8>,
    record_type: u16,
    class: u16,
    local: Seq<u8>,
) -> Seq<u8> {
    be16_of(id as int) + seq![0x81u8, 0x80u8] + be16_of(1) + be16_of(1) + be16_of(0) + be16_of(0)
        + domain + be16_of(record_type as int) + be16_of(class as int) + seq![0xc0u8, 12u8]
        + be16_of(1) + be16_of(1) + be32_of(0xe1) + be16_of(local.len() as int) + local
}

/// Output of the DNS responder on datagram `s` with local address octets
/// `local`: a datagram too short for the fixed header or the question tail
/// is a typed failure, a question count other than 1 is unsupported (empty
/// output), and a single-question query yields the answer.
pub open spec fn dns_outcome(s: Seq<u8>, local: Seq<u8>) -> Result<Seq<u8>, UtilsError> {
    if s.len() < 12 {
        Err(UtilsError::TruncatedPacket)
    } else if be16(s, 4) != 1 {
        Ok(Seq::<u8>::empty())
    } else if s.len() < 16 {
        Err(UtilsError::TruncatedPacket)
    } else {
        Ok(
            dns_answer_bytes(
                be16(s, 0),
                s.subrange(12, s.len() - 4),
                be16(s, s.len() - 4),
                be16(s, s.len() - 2),
                local,
            ),
        )
    }
}

/// Decodes a DNS query and answers it when it carries exactly one
/// question; any other question count is unsupported and yields no output.
pub fn read_dns_packet(dns_packet: Vec<u8>, local_addr: &Vec<u8>) -> (r: Result<
    Vec<u8>,
    UtilsError,
>)
    requires
        local_addr@.len() <= 16,
    ensures
        match (r, dns_outcome(dns_packet@, local_addr@)) {
            (Ok(v), Ok(sv)) => v@ == sv,
            (Err(e), Err(f)) => e == f,
            _ => false,
        },
{
    if dns_packet.len() < 12 {
        return Err(UtilsError::TruncatedPacket);
    }
    let id = read_u16_at(&dns_packet, 0);
    let qd_cnt = read_u16_at(&dns_packet, 4);
    if qd_cnt != 1 {
        return Ok(Vec::new());
    }
    if dns_packet.len() < 16 {
        return Err(UtilsError::TruncatedPacket);
    }
    let tail = dns_packet.len() - 4;
    let question = Question {
        domain: vec_range(&dns_packet, 12, tail),
        record_type: read_u16_at(&dns_packet, tail),
        class: read_u16_at(&dns_packet, tail + 2),
    };
    Ok(dns_response(id, question, local_addr))
}

/// Builds the reply for the question of a single-question query `id`.
fn dns_response(id: u16, question: Question, local_addr: &Vec<u8>) -> (r: Vec<u8>)
    requires
        local_addr@.len() <= 16,
    ensures
        r@ == dns_answer_bytes(
            id,
            question.domain@,
            question.record_type,
            question.class,
            local_addr@,
        ),
{
    let mut buf: Vec<u8> = Vec::new();
    put_u16(&mut buf, id);
    buf.push(0x81);
    buf.push(0x80);
    put_u16(&mut buf, 1);
    put_u16(&mut buf, 1);
    put_u16(&mut buf, 0);
    put_u16(&mut buf, 0);
    put_bytes(&mut buf, &question.domain);
    put_u16(&mut buf, question.record_type);
    put_u16(&mut buf, question.class);
    buf.push(0xc0);
    buf.push(12);
    put_u16(&mut buf, 1);
    put_u16(&mut buf, 1);
    put_u32(&mut buf, 0xe1);
    put_u16(&mut buf, local_addr.len() as u16);
    put_bytes(&mut buf, local_addr);
    proof {
        assert(buf@ =~= dns_answer_bytes(
            id,
            question.domain@,
            question.record_type,
            question.class,
            local_addr@,
        ));
    }
    buf
}

} // verus!
