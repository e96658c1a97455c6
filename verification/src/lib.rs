//! A small user-space network protocol stack: Ethernet frame dispatch,
//! ARP resolution with a learning address cache, IPv4/IPv6 engines,
//! ICMP/ICMPv6 echo responders, a UDP demultiplexer and a minimal DNS
//! responder, all sharing one Internet-checksum routine.
//!
//! Every layer decodes fixed-offset big-endian header fields from a byte
//! buffer, validates ownership of the destination address, and builds reply
//! bytes whose exact contents are stated in the function contracts.

pub mod arp;
pub mod dns;
pub mod ethernet;
pub mod icmp;
pub mod icmpv6;
pub mod ipv4;
pub mod ipv6;
pub mod tcp;
pub mod udp;
pub mod util;

pub use util::UtilsError;
