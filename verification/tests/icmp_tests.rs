use netstack::icmp::read_icmp_packet;
use netstack::icmpv6::read_icmpv6_packet;
use netstack::util::checksum;
use netstack::util::UtilsError;

#[test]
fn icmp_echo_request_gets_echo_reply() {
    // type 8, code 0, some stale checksum, id 0x1234, seq 0x0001, data AA BB
    let req: Vec<u8> = vec![8, 0, 0xde, 0xad, 0x12, 0x34, 0x00, 0x01, 0xaa, 0xbb];
    let reply = read_icmp_packet(req).unwrap();
    // type 0, code 0, freshly recomputed checksum, echoed id/seq/data
    assert_eq!(reply, vec![0x00, 0x00, 0x43, 0x0f, 0x12, 0x34, 0x00, 0x01, 0xaa, 0xbb]);
}

#[test]
fn icmp_reply_checksum_self_checks() {
    let req: Vec<u8> = vec![8, 0, 0, 0, 0x12, 0x34, 0x00, 0x01, 0xaa, 0xbb, 0xcc];
    let reply = read_icmp_packet(req).unwrap();
    assert_eq!(checksum(&reply), 0);
}

#[test]
fn icmp_other_type_is_dropped() {
    let msg: Vec<u8> = vec![0, 0, 0x43, 0x0f, 0x12, 0x34, 0x00, 0x01];
    let reply = read_icmp_packet(msg).unwrap();
    assert!(reply.is_empty());
}

#[test]
fn icmp_truncated_header_is_typed_failure() {
    let r = read_icmp_packet(vec![8, 0, 0]);
    assert!(matches!(r, Err(UtilsError::TruncatedPacket)));
}

#[test]
fn icmp_truncated_echo_is_typed_failure() {
    let r = read_icmp_packet(vec![8, 0, 0, 0, 1, 2]);
    assert!(matches!(r, Err(UtilsError::TruncatedPacket)));
}

const LOCAL_V6: u128 = 0x20010db8_00000000_00000000_00000001;
const PEER_V6: u128 = 0x20010db8_00000000_00000000_00000002;

fn icmpv6_request(id: u16, seq: u16, ts: u128, data: &[u8]) -> Vec<u8> {
    let mut p: Vec<u8> = vec![128, 0, 0, 0];
    p.extend_from_slice(&id.to_be_bytes());
    p.extend_from_slice(&seq.to_be_bytes());
    p.extend_from_slice(&ts.to_be_bytes());
    p.extend_from_slice(data);
    p
}

#[test]
fn icmpv6_echo_request_gets_echo_reply() {
    let req = icmpv6_request(0x4321, 7, 0x1122334455667788_99aabbccddeeff00, &[0x55, 0x66]);
    let reply = read_icmpv6_packet(LOCAL_V6, PEER_V6, req.clone()).unwrap();
    assert_eq!(reply.len(), req.len());
    assert_eq!(reply[0], 129);
    assert_eq!(reply[1], 0);
    // identifier, sequence, timestamp and payload are echoed verbatim
    assert_eq!(&reply[4..], &req[4..]);
    // the patched checksum self-checks over the pseudo-header plus reply
    let mut pseudo: Vec<u8> = Vec::new();
    pseudo.extend_from_slice(&LOCAL_V6.to_be_bytes());
    pseudo.extend_from_slice(&PEER_V6.to_be_bytes());
    pseudo.extend_from_slice(&(reply.len() as u32).to_be_bytes());
    pseudo.extend_from_slice(&58u32.to_be_bytes());
    pseudo.extend_from_slice(&reply);
    assert_eq!(checksum(&pseudo), 0);
}

#[test]
fn icmpv6_other_type_is_dropped() {
    let msg: Vec<u8> = vec![135, 0, 0, 0, 0, 0, 0, 0];
    let reply = read_icmpv6_packet(LOCAL_V6, PEER_V6, msg).unwrap();
    assert!(reply.is_empty());
}

#[test]
fn icmpv6_truncated_echo_is_typed_failure() {
    let r = read_icmpv6_packet(LOCAL_V6, PEER_V6, vec![128, 0, 0, 0, 1, 2, 3, 4]);
    assert!(matches!(r, Err(UtilsError::TruncatedPacket)));
}
