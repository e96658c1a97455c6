use netstack::arp::ArpCache;
use netstack::arp::ArpCacheV6;
use netstack::ethernet::out_ethernet;
use netstack::ethernet::read_ethernet;
use netstack::ethernet::HostIpAddr;
use netstack::util::UtilsError;

const MY_MAC: [u8; 6] = [0x02, 0x00, 0x00, 0x00, 0x00, 0x01];
const MAC_A: [u8; 6] = [0xde, 0xad, 0xbe, 0xef, 0x00, 0x01];
const LOCAL_IP: u32 = 0xc0a80101;
const PEER_IP: u32 = 0x0a000002;
const LOCAL_V6: u128 = 0x20010db8_00000000_00000000_00000001;
const PEER_V6: u128 = 0x20010db8_00000000_00000000_00000002;

fn frame(dst: [u8; 6], src: [u8; 6], ether_type: u16, payload: &[u8]) -> Vec<u8> {
    let mut f: Vec<u8> = Vec::new();
    f.extend_from_slice(&dst);
    f.extend_from_slice(&src);
    f.extend_from_slice(&ether_type.to_be_bytes());
    f.extend_from_slice(payload);
    f
}

fn arp_request_for_local() -> Vec<u8> {
    let mut p: Vec<u8> = vec![0x00, 0x01, 0x08, 0x00, 6, 4, 0x00, 0x01];
    p.extend_from_slice(&MAC_A);
    p.extend_from_slice(&PEER_IP.to_be_bytes());
    p.extend_from_slice(&[0u8; 6]);
    p.extend_from_slice(&LOCAL_IP.to_be_bytes());
    p
}

#[test]
fn ethernet_foreign_destination_is_ignored() {
    let mut v4 = ArpCache::new();
    let mut v6 = ArpCacheV6::new();
    let f = frame([0xff; 6], MAC_A, 0x0806, &arp_request_for_local());
    let out = read_ethernet(&mut v4, &mut v6, f, MY_MAC, Some(HostIpAddr::V4(LOCAL_IP))).unwrap();
    assert!(out.is_empty());
    assert_eq!(v4.entries.len(), 0);
    assert_eq!(v6.entries.len(), 0);
}

#[test]
fn ethernet_arp_request_is_answered_in_a_frame() {
    let mut v4 = ArpCache::new();
    let mut v6 = ArpCacheV6::new();
    let f = frame(MY_MAC, MAC_A, 0x0806, &arp_request_for_local());
    let out = read_ethernet(&mut v4, &mut v6, f, MY_MAC, Some(HostIpAddr::V4(LOCAL_IP))).unwrap();
    assert_eq!(out.len(), 14 + 28);
    // destination resolved through the cache that just learned the sender
    assert_eq!(&out[0..6], &MAC_A);
    assert_eq!(&out[6..12], &MY_MAC);
    assert_eq!(&out[12..14], &0x0806u16.to_be_bytes());
    assert_eq!(&out[14..22], &[0x00, 0x01, 0x08, 0x00, 6, 4, 0x00, 0x02]);
    assert_eq!(&out[22..28], &MY_MAC);
    assert_eq!(&out[28..32], &LOCAL_IP.to_be_bytes());
    assert_eq!(&out[32..38], &MAC_A);
    assert_eq!(&out[38..42], &PEER_IP.to_be_bytes());
}

#[test]
fn ethernet_ipv4_icmp_echo_is_answered_in_a_frame() {
    let mut v4 = ArpCache::new();
    let mut v6 = ArpCacheV6::new();
    let mut ip: Vec<u8> = vec![0x45, 0x00, 0x00, 30, 0, 0, 0, 0, 64, 1, 0, 0];
    ip.extend_from_slice(&PEER_IP.to_be_bytes());
    ip.extend_from_slice(&LOCAL_IP.to_be_bytes());
    ip.extend_from_slice(&[8, 0, 0, 0, 0x12, 0x34, 0x00, 0x01, 0xaa, 0xbb]);
    let f = frame(MY_MAC, MAC_A, 0x0800, &ip);
    let out = read_ethernet(&mut v4, &mut v6, f, MY_MAC, Some(HostIpAddr::V4(LOCAL_IP))).unwrap();
    assert_eq!(out.len(), 14 + 30);
    assert_eq!(&out[0..6], &MAC_A); // learned from the inbound datagram
    assert_eq!(&out[6..12], &MY_MAC);
    assert_eq!(&out[12..14], &0x0800u16.to_be_bytes());
    assert_eq!(out[14], 0x45);
    assert_eq!(&out[34..], &[0x00, 0x00, 0x43, 0x0f, 0x12, 0x34, 0x00, 0x01, 0xaa, 0xbb]);
}

#[test]
fn ethernet_ipv6_echo_is_answered_in_a_frame() {
    let mut v4 = ArpCache::new();
    let mut v6 = ArpCacheV6::new();
    let mut icmp: Vec<u8> = vec![128, 0, 0, 0, 0x43, 0x21, 0x00, 0x07];
    icmp.extend_from_slice(&[0u8; 16]);
    let mut ip: Vec<u8> = vec![0x60, 0x00, 0x00, 0x00];
    ip.extend_from_slice(&(icmp.len() as u16).to_be_bytes());
    ip.push(58);
    ip.push(64);
    ip.extend_from_slice(&PEER_V6.to_be_bytes());
    ip.extend_from_slice(&LOCAL_V6.to_be_bytes());
    ip.extend_from_slice(&icmp);
    let f = frame(MY_MAC, MAC_A, 0x86dd, &ip);
    let out = read_ethernet(&mut v4, &mut v6, f, MY_MAC, Some(HostIpAddr::V6(LOCAL_V6))).unwrap();
    assert_eq!(out.len(), 14 + 40 + icmp.len());
    assert_eq!(&out[0..6], &MAC_A);
    assert_eq!(&out[12..14], &0x86ddu16.to_be_bytes());
    assert_eq!(out[54], 129);
}

#[test]
fn ethernet_unknown_ethertype_is_ignored() {
    let mut v4 = ArpCache::new();
    let mut v6 = ArpCacheV6::new();
    let f = frame(MY_MAC, MAC_A, 0x88cc, &[1, 2, 3]);
    let out = read_ethernet(&mut v4, &mut v6, f, MY_MAC, Some(HostIpAddr::V4(LOCAL_IP))).unwrap();
    assert!(out.is_empty());
}

#[test]
fn ethernet_truncated_frame_is_typed_failure() {
    let mut v4 = ArpCache::new();
    let mut v6 = ArpCacheV6::new();
    let r = read_ethernet(&mut v4, &mut v6, vec![0u8; 13], MY_MAC, None);
    assert!(matches!(r, Err(UtilsError::TruncatedPacket)));
}

#[test]
fn out_ethernet_builds_the_frame() {
    let out = out_ethernet(MY_MAC, MAC_A, vec![9, 8, 7], 0x0800);
    let mut expected: Vec<u8> = Vec::new();
    expected.extend_from_slice(&MAC_A);
    expected.extend_from_slice(&MY_MAC);
    expected.extend_from_slice(&[0x08, 0x00]);
    expected.extend_from_slice(&[9, 8, 7]);
    assert_eq!(out, expected);
}
