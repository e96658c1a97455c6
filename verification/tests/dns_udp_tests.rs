use netstack::dns::read_dns_packet;
use netstack::ipv4::IPv4Header;
use netstack::udp::read_udp_packet;
use netstack::util::checksum;
use netstack::util::UtilsError;

const LOCAL_IP: u32 = 0xc0a80102;
const PEER_IP: u32 = 0x0a000002;

/// A single-question query for "example.com", type A, class IN, id 0x1a2b.
fn dns_query() -> Vec<u8> {
    let mut q: Vec<u8> = vec![
        0x1a, 0x2b, // id
        0x01, 0x00, // recursion desired
        0x00, 0x01, // one question
        0x00, 0x00, 0x00, 0x00, 0x00, 0x00, // no answer/authority/additional
    ];
    q.extend_from_slice(&[7]);
    q.extend_from_slice(b"example");
    q.extend_from_slice(&[3]);
    q.extend_from_slice(b"com");
    q.push(0);
    q.extend_from_slice(&[0x00, 0x01, 0x00, 0x01]); // type A, class IN
    q
}

fn local_octets() -> Vec<u8> {
    LOCAL_IP.to_be_bytes().to_vec()
}

#[test]
fn dns_single_question_gets_answer() {
    let answer = read_dns_packet(dns_query(), &local_octets()).unwrap();
    let mut expected: Vec<u8> = vec![
        0x1a, 0x2b, // echoed id
        0x81, 0x80, // response, recursion desired and available, no error
        0x00, 0x01, 0x00, 0x01, 0x00, 0x00, 0x00, 0x00, // one question, one answer
    ];
    expected.extend_from_slice(&dns_query()[12..]); // question echoed verbatim
    expected.extend_from_slice(&[0xc0, 0x0c]); // name pointer to offset 12
    expected.extend_from_slice(&[0x00, 0x01, 0x00, 0x01]); // type A, class IN
    expected.extend_from_slice(&[0x00, 0x00, 0x00, 0xe1]); // TTL
    expected.extend_from_slice(&[0x00, 0x04]); // rdata length
    expected.extend_from_slice(&LOCAL_IP.to_be_bytes());
    assert_eq!(answer, expected);
}

#[test]
fn dns_multi_question_is_unsupported() {
    let mut q = dns_query();
    q[5] = 2; // question count 2
    let answer = read_dns_packet(q, &local_octets()).unwrap();
    assert!(answer.is_empty());
}

#[test]
fn dns_truncated_header_is_typed_failure() {
    let r = read_dns_packet(vec![0x1a, 0x2b, 0x01, 0x00], &local_octets());
    assert!(matches!(r, Err(UtilsError::TruncatedPacket)));
}

#[test]
fn dns_truncated_question_is_typed_failure() {
    let mut q = dns_query();
    q.truncate(14);
    let r = read_dns_packet(q, &local_octets());
    assert!(matches!(r, Err(UtilsError::TruncatedPacket)));
}

fn received_ipv4_header() -> IPv4Header {
    IPv4Header {
        version: 4,
        header_length: 20,
        tos: 0,
        total_len: 0,
        identity_num: 0,
        frag_offset: 0,
        ttl: 64,
        protocol: 17,
        checksum: 0,
        src_addr: PEER_IP,
        dst_addr: LOCAL_IP,
    }
}

fn udp_datagram(src_port: u16, dst_port: u16, payload: &[u8]) -> Vec<u8> {
    let mut d: Vec<u8> = Vec::new();
    d.extend_from_slice(&src_port.to_be_bytes());
    d.extend_from_slice(&dst_port.to_be_bytes());
    d.extend_from_slice(&((8 + payload.len()) as u16).to_be_bytes());
    d.extend_from_slice(&[0, 0]);
    d.extend_from_slice(payload);
    d
}

#[test]
fn udp_dns_end_to_end() {
    let header = received_ipv4_header();
    let datagram = udp_datagram(12345, 53, &dns_query());
    let reply = read_udp_packet(&header, datagram, &local_octets()).unwrap();
    // ports swapped, length of header plus answer
    assert_eq!(&reply[0..2], &53u16.to_be_bytes());
    assert_eq!(&reply[2..4], &12345u16.to_be_bytes());
    assert_eq!(&reply[4..6], &(reply.len() as u16).to_be_bytes());
    // the answer: a response with one answer record ...
    let dns = &reply[8..];
    assert_eq!(dns[2] & 0x80, 0x80); // qr = 1
    assert_eq!(&dns[6..8], &[0x00, 0x01]); // one answer
    // ... whose record uses the name pointer, type A, class IN ...
    let record = &dns[dns.len() - 16..];
    assert_eq!(&record[0..2], &[0xc0, 0x0c]);
    assert_eq!(&record[2..4], &[0x00, 0x01]);
    assert_eq!(&record[4..6], &[0x00, 0x01]);
    // ... and whose data is the configured local address
    assert_eq!(&record[12..16], &LOCAL_IP.to_be_bytes());
    // the returned checksum self-checks over the pseudo-header plus message;
    // the reply's source is the local address, its destination the peer
    let mut pseudo: Vec<u8> = Vec::new();
    pseudo.extend_from_slice(&LOCAL_IP.to_be_bytes());
    pseudo.extend_from_slice(&PEER_IP.to_be_bytes());
    pseudo.extend_from_slice(&17u16.to_be_bytes());
    pseudo.extend_from_slice(&(reply.len() as u16).to_be_bytes());
    pseudo.extend_from_slice(&reply);
    assert_eq!(checksum(&pseudo), 0);
}

#[test]
fn udp_other_port_yields_no_output() {
    let header = received_ipv4_header();
    let datagram = udp_datagram(12345, 80, &dns_query());
    let reply = read_udp_packet(&header, datagram, &local_octets()).unwrap();
    assert!(reply.is_empty());
}

#[test]
fn udp_truncated_header_is_typed_failure() {
    let header = received_ipv4_header();
    let r = read_udp_packet(&header, vec![0, 53, 0, 12], &local_octets());
    assert!(matches!(r, Err(UtilsError::TruncatedPacket)));
}
