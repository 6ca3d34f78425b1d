use icmp_header::inet::{inet_cksum, InetCkSum};
use icmp_header::text::{decimal, other_label};

#[test]
fn empty_buffer_checksum_is_all_ones() {
    assert_eq!(inet_cksum(&[]), 0xFFFF);
}

#[test]
fn odd_length_buffer_is_padded_with_zero() {
    assert_eq!(inet_cksum(&[0x01]), 0xFEFF);
    assert_eq!(inet_cksum(&[0x12, 0x34, 0x56]), !(0x1234u16 + 0x5600));
}

#[test]
fn carry_wraps_around() {
    // 0xFFFF + 0x0002 = 0x1_0001, folded to 0x0002.
    assert_eq!(inet_cksum(&[0xFF, 0xFF, 0x00, 0x02]), 0xFFFD);
}

#[test]
fn known_ipv4_header_checksum() {
    // A classic IPv4 header with its checksum field cleared; its checksum is 0xB861.
    let hdr = [
        0x45, 0x00, 0x00, 0x73, 0x00, 0x00, 0x40, 0x00, 0x40, 0x11, 0x00, 0x00, 0xC0, 0xA8, 0x00,
        0x01, 0xC0, 0xA8, 0x00, 0xC7,
    ];
    assert_eq!(inet_cksum(&hdr), 0xB861);
    let mut with_sum = hdr;
    with_sum[10] = 0xB8;
    with_sum[11] = 0x61;
    assert_eq!(inet_cksum(&with_sum), 0);
}

#[test]
fn checksum_field_zero_and_conversion() {
    assert!(InetCkSum::zero().is_zero());
    let c: InetCkSum = 0x1234u16.into();
    assert_eq!(c, InetCkSum(0x1234));
    assert!(!c.is_zero());
}

#[test]
fn decimal_rendering() {
    assert_eq!(decimal(0), "0");
    assert_eq!(decimal(7), "7");
    assert_eq!(decimal(10), "10");
    assert_eq!(decimal(99), "99");
    assert_eq!(decimal(100), "100");
    assert_eq!(decimal(255), "255");
    for n in 0..=255u8 {
        assert_eq!(decimal(n), n.to_string());
    }
    assert_eq!(other_label(17), "Oth(17)");
}
