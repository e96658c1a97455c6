use netstack::util::checksum;
use netstack::util::to_u16;
use netstack::util::to_u32;

#[test]
fn checksum_exact_value() {
    let buf: Vec<u8> = vec![0x00, 0x01, 0xf2, 0x03, 0xf4, 0xf5, 0xf6, 0xf7];
    assert_eq!(checksum(&buf), 0x220d);
}

#[test]
fn checksum_empty_buffer() {
    let buf: Vec<u8> = vec![];
    assert_eq!(checksum(&buf), 0xffff);
}

#[test]
fn checksum_odd_length_pads_low_half() {
    let buf: Vec<u8> = vec![0x01, 0x02, 0x03];
    // words 0x0102 and 0x0300: sum 0x0402, complement 0xfbfd
    assert_eq!(checksum(&buf), 0xfbfd);
}

#[test]
fn checksum_involution_scenario() {
    // A buffer with its (word-aligned) checksum field zeroed ...
    let mut buf: Vec<u8> = vec![0x12, 0x34, 0x00, 0x00, 0xab, 0xcd];
    let c = checksum(&buf);
    assert_eq!(c, 0x41fe);
    // ... recomputes to zero once the computed checksum is inserted.
    buf[2] = (c / 0x100) as u8;
    buf[3] = (c % 0x100) as u8;
    assert_eq!(checksum(&buf), 0);
}

#[test]
fn to_u16_reads_big_endian() {
    let buf: [u8; 4] = [0x12, 0x34, 0x56, 0x78];
    assert_eq!(to_u16(&buf), 0x1234);
}

#[test]
fn to_u32_reads_big_endian() {
    let buf: [u8; 4] = [0x12, 0x34, 0x56, 0x78];
    assert_eq!(to_u32(&buf), 0x12345678);
}
