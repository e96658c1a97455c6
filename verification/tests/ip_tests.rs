use netstack::arp::ArpCache;
use netstack::arp::ArpCacheV6;
use netstack::ethernet::EthernetHeader;
use netstack::ipv4::read_ipv4_packet;
use netstack::ipv6::read_ipv6_packet;
use netstack::tcp::read_tcp_packet;
use netstack::util::checksum;
use netstack::util::UtilsError;

const MY_MAC: [u8; 6] = [0x02, 0x00, 0x00, 0x00, 0x00, 0x01];
const MAC_A: [u8; 6] = [0xde, 0xad, 0xbe, 0xef, 0x00, 0x01];
const LOCAL_IP: u32 = 0xc0a80101;
const PEER_IP: u32 = 0x0a000002;
const LOCAL_V6: u128 = 0x20010db8_00000000_00000000_00000001;
const PEER_V6: u128 = 0x20010db8_00000000_00000000_00000002;

fn eth_from_peer() -> EthernetHeader {
    EthernetHeader { dst_mac_addr: MY_MAC, src_mac_addr: MAC_A, ethernet_type: 0x0800 }
}

fn ipv4_packet(src: u32, dst: u32, protocol: u8, payload: &[u8]) -> Vec<u8> {
    let mut p: Vec<u8> = vec![0x45, 0x00];
    p.extend_from_slice(&((20 + payload.len()) as u16).to_be_bytes());
    p.extend_from_slice(&[0, 0, 0, 0]); // identification, fragment info
    p.push(64);
    p.push(protocol);
    p.extend_from_slice(&[0, 0]); // stale checksum; not validated on input
    p.extend_from_slice(&src.to_be_bytes());
    p.extend_from_slice(&dst.to_be_bytes());
    p.extend_from_slice(payload);
    p
}

#[test]
fn ipv4_not_for_us_is_dropped_without_learning() {
    let mut cache = ArpCache::new();
    let local = Vec::new();
    let pkt = ipv4_packet(PEER_IP, 0xc0a80999, 1, &[8, 0, 0, 0, 0, 1, 0, 1]);
    let (dest, reply) = read_ipv4_packet(&mut cache, &eth_from_peer(), pkt, LOCAL_IP, &local)
        .unwrap();
    assert_eq!(dest, 0);
    assert!(reply.is_empty());
    // no cache mutation at all, in particular none for the destination
    assert_eq!(cache.entries.len(), 0);
}

#[test]
fn ipv4_icmp_echo_end_to_end() {
    let mut cache = ArpCache::new();
    let local = Vec::new();
    let icmp: Vec<u8> = vec![8, 0, 0xde, 0xad, 0x12, 0x34, 0x00, 0x01, 0xaa, 0xbb];
    let pkt = ipv4_packet(PEER_IP, LOCAL_IP, 1, &icmp);
    let (dest, reply) = read_ipv4_packet(&mut cache, &eth_from_peer(), pkt, LOCAL_IP, &local)
        .unwrap();
    assert_eq!(dest, PEER_IP);
    assert_eq!(reply.len(), 30);
    assert_eq!(reply[0], 0x45);
    assert_eq!(&reply[2..4], &30u16.to_be_bytes()); // total length
    assert_eq!(reply[8], 64); // TTL
    assert_eq!(reply[9], 1); // protocol
    assert_eq!(&reply[12..16], &LOCAL_IP.to_be_bytes());
    assert_eq!(&reply[16..20], &PEER_IP.to_be_bytes());
    // the stamped header checksum self-checks over the 20 header bytes
    let header: Vec<u8> = reply[0..20].to_vec();
    assert_eq!(checksum(&header), 0);
    // the wrapped payload is the echo reply
    assert_eq!(&reply[20..], &[0x00, 0x00, 0x43, 0x0f, 0x12, 0x34, 0x00, 0x01, 0xaa, 0xbb]);
    // the sender's link address was learned
    assert_eq!(cache.search_arp_tables(PEER_IP), MAC_A);
}

#[test]
fn ipv4_unknown_protocol_is_dropped_but_sender_learned() {
    let mut cache = ArpCache::new();
    let local = Vec::new();
    let pkt = ipv4_packet(PEER_IP, LOCAL_IP, 99, &[1, 2, 3]);
    let (dest, reply) = read_ipv4_packet(&mut cache, &eth_from_peer(), pkt, LOCAL_IP, &local)
        .unwrap();
    assert_eq!(dest, 0);
    assert!(reply.is_empty());
    assert_eq!(cache.search_arp_tables(PEER_IP), MAC_A);
}

#[test]
fn ipv4_tcp_is_decoded_only() {
    let mut cache = ArpCache::new();
    let local = Vec::new();
    let tcp: Vec<u8> = vec![
        0x30, 0x39, 0x00, 0x50, // ports 12345 -> 80
        0, 0, 0, 1, // sequence
        0, 0, 0, 0, // acknowledgement
        0x50, 0x02, // offset byte, SYN flag
        0xff, 0xff, // window
        0, 0, // checksum
        0, 0, // urgent pointer
    ];
    let pkt = ipv4_packet(PEER_IP, LOCAL_IP, 6, &tcp);
    let (dest, reply) = read_ipv4_packet(&mut cache, &eth_from_peer(), pkt, LOCAL_IP, &local)
        .unwrap();
    assert_eq!(dest, 0);
    assert!(reply.is_empty());
}

#[test]
fn ipv4_truncated_header_is_typed_failure() {
    let mut cache = ArpCache::new();
    let local = Vec::new();
    let r = read_ipv4_packet(&mut cache, &eth_from_peer(), vec![0x45; 19], LOCAL_IP, &local);
    assert!(matches!(r, Err(UtilsError::TruncatedPacket)));
}

#[test]
fn tcp_header_fields_decode_exactly() {
    let seg: Vec<u8> = vec![
        0x30, 0x39, 0x00, 0x50, 0x01, 0x02, 0x03, 0x04, 0x0a, 0x0b, 0x0c, 0x0d, 0x50, 0x12,
        0xfa, 0xf0, 0xbe, 0xef, 0x00, 0x07,
    ];
    let h = read_tcp_packet(seg).unwrap();
    assert_eq!(h.src_port, 12345);
    assert_eq!(h.dst_port, 80);
    assert_eq!(h.seq, 0x01020304);
    assert_eq!(h.ack, 0x0a0b0c0d);
    assert_eq!(h.offset, 0x50 / 4);
    assert_eq!(h.flag, 0x12);
    assert_eq!(h.window_size, 0xfaf0);
    assert_eq!(h.checksum, 0xbeef);
    assert_eq!(h.urg_pt, 7);
}

#[test]
fn tcp_truncated_segment_is_typed_failure() {
    let r = read_tcp_packet(vec![0u8; 19]);
    assert!(matches!(r, Err(UtilsError::TruncatedPacket)));
}

fn eth_from_peer_v6() -> EthernetHeader {
    EthernetHeader { dst_mac_addr: MY_MAC, src_mac_addr: MAC_A, ethernet_type: 0x86dd }
}

fn ipv6_packet(src: u128, dst: u128, next_header: u8, payload: &[u8]) -> Vec<u8> {
    let mut p: Vec<u8> = vec![0x60, 0x00, 0x00, 0x00];
    p.extend_from_slice(&(payload.len() as u16).to_be_bytes());
    p.push(next_header);
    p.push(64);
    p.extend_from_slice(&src.to_be_bytes());
    p.extend_from_slice(&dst.to_be_bytes());
    p.extend_from_slice(payload);
    p
}

fn icmpv6_echo_request() -> Vec<u8> {
    let mut m: Vec<u8> = vec![128, 0, 0, 0, 0x43, 0x21, 0x00, 0x07];
    m.extend_from_slice(&0x1122334455667788_99aabbccddeeff00u128.to_be_bytes());
    m.extend_from_slice(&[0x55, 0x66]);
    m
}

#[test]
fn ipv6_not_for_us_is_dropped_without_learning() {
    let mut cache = ArpCacheV6::new();
    let pkt = ipv6_packet(PEER_V6, LOCAL_V6 + 7, 58, &icmpv6_echo_request());
    let (dest, reply) = read_ipv6_packet(&mut cache, &eth_from_peer_v6(), pkt, LOCAL_V6).unwrap();
    assert_eq!(dest, 0);
    assert!(reply.is_empty());
    assert_eq!(cache.entries.len(), 0);
}

#[test]
fn ipv6_icmpv6_echo_end_to_end() {
    let mut cache = ArpCacheV6::new();
    let req = icmpv6_echo_request();
    let pkt = ipv6_packet(PEER_V6, LOCAL_V6, 58, &req);
    let (dest, reply) = read_ipv6_packet(&mut cache, &eth_from_peer_v6(), pkt, LOCAL_V6).unwrap();
    assert_eq!(dest, PEER_V6);
    assert_eq!(reply.len(), 40 + req.len());
    // fresh header: version 6 and this stack's fixed flow label
    assert_eq!(&reply[0..4], &[0x60, 0x0f, 0xc9, 0x29]);
    assert_eq!(&reply[4..6], &(req.len() as u16).to_be_bytes());
    assert_eq!(reply[6], 58);
    assert_eq!(reply[7], 64);
    assert_eq!(&reply[8..24], &LOCAL_V6.to_be_bytes());
    assert_eq!(&reply[24..40], &PEER_V6.to_be_bytes());
    assert_eq!(reply[40], 129);
    // the sender's link address was learned in the IPv6 cache
    assert_eq!(cache.search_arp_tables_v6(PEER_V6), MAC_A);
}

#[test]
fn ipv6_truncated_header_is_typed_failure() {
    let mut cache = ArpCacheV6::new();
    let r = read_ipv6_packet(&mut cache, &eth_from_peer_v6(), vec![0x60; 39], LOCAL_V6);
    assert!(matches!(r, Err(UtilsError::TruncatedPacket)));
}
