use icmp_header::icmp::{
    classify_code, describe, BadIPHeaderCode, DebugICMPCode, ExtendedErrorCode, ICMPCode,
    ICMPCodeKind, ICMPType, ICMPTypeKind, RedirectCode, TimeExceededCode, UnreachCode, HEADER_LEN,
    ICMP,
};
use icmp_header::inet::InetCkSum;

fn echo_request() -> ICMP {
    ICMP { ty: ICMPType(8), code: ICMPCode(0), cksum: InetCkSum(0), un: 0x0001_0001 }
}

#[test]
fn wire_layout_is_big_endian() {
    let h = ICMP { ty: ICMPType(3), code: ICMPCode(1), cksum: InetCkSum(0xABCD), un: 0x0102_0304 };
    assert_eq!(h.as_buf(), [3, 1, 0xAB, 0xCD, 1, 2, 3, 4]);
    assert_eq!(h.as_buf().len(), HEADER_LEN);
}

#[test]
fn read_header_from_buffer() {
    let buf = [0u8, 0, 0x12, 0x34, 0xDE, 0xAD, 0xBE, 0xEF, 0x99];
    let h = ICMP::from_buf(&buf).unwrap();
    assert_eq!(h.ty, ICMPType(0));
    assert_eq!(h.cksum, InetCkSum(0x1234));
    assert_eq!(h.un, 0xDEAD_BEEF);
    assert_eq!(h.as_buf(), [0, 0, 0x12, 0x34, 0xDE, 0xAD, 0xBE, 0xEF]);
    assert!(ICMP::from_buf(&buf[..7]).is_none());
    assert!(ICMP::from_buf(&[]).is_none());
}

#[test]
fn checksummed_echo_request_has_known_checksum() {
    // 0x0800 + 0x0001 + 0x0001 = 0x0802, complemented 0xF7FD.
    let h = echo_request().checksummed();
    assert_eq!(h.cksum, InetCkSum(0xF7FD));
    assert_eq!(h.as_buf()[2..4], [0xF7, 0xFD]);
    assert_eq!(h.ty, ICMPType(8));
    assert_eq!(h.un, 0x0001_0001);
}

#[test]
fn checksummed_ignores_previous_checksum() {
    let mut stale = echo_request();
    stale.cksum = InetCkSum(0x5555);
    assert_eq!(stale.checksummed(), echo_request().checksummed());
}

#[test]
fn recomputing_twice_is_a_fixed_point() {
    for h in [
        echo_request(),
        ICMP { ty: ICMPType(0xFF), code: ICMPCode(0xFF), cksum: InetCkSum(0xFFFF), un: u32::MAX },
        ICMP { ty: ICMPType(0), code: ICMPCode(0), cksum: InetCkSum(0), un: 0 },
    ] {
        let once = h.checksummed();
        assert_eq!(once.checksummed(), once);
        assert_eq!(once.checksummed().as_buf(), once.as_buf());
    }
}

#[test]
fn checksummed_header_verifies() {
    assert!(echo_request().checksummed().verify_cksum());
    let zero = ICMP { ty: ICMPType(0), code: ICMPCode(0), cksum: InetCkSum(0), un: 0 };
    let z = zero.checksummed();
    assert_eq!(z.cksum, InetCkSum(0xFFFF));
    assert!(z.verify_cksum());
    let ones = ICMP { ty: ICMPType(0xFF), code: ICMPCode(0xFF), cksum: InetCkSum(0), un: u32::MAX };
    assert!(ones.checksummed().verify_cksum());
    assert!(!echo_request().verify_cksum());
}

#[test]
fn every_single_bit_flip_is_detected() {
    let good = ICMP { ty: ICMPType(11), code: ICMPCode(1), cksum: InetCkSum(0), un: 0x1234_5678 }
        .checksummed();
    let bytes = good.as_buf();
    for i in 0..HEADER_LEN {
        for k in 0..8 {
            let mut flipped = bytes;
            flipped[i] ^= 1 << k;
            let h = ICMP::from_buf(&flipped).unwrap();
            assert!(!h.verify_cksum(), "flip of bit {} in byte {} went unnoticed", k, i);
        }
    }
}

#[test]
fn type_bytes_round_trip() {
    let named = [0u8, 3, 5, 8, 9, 10, 11, 12, 13, 14, 42, 43];
    for b in 0..=255u8 {
        let kind = ICMPTypeKind::from(ICMPType(b));
        assert_eq!(kind.to_bits(), b);
        assert_eq!(matches!(kind, ICMPTypeKind::Oth(_)), !named.contains(&b));
    }
    assert_eq!(ICMPTypeKind::from(ICMPType(0)), ICMPTypeKind::EchoReply);
    assert_eq!(ICMPTypeKind::from(ICMPType(43)), ICMPTypeKind::ExtendedEchoReply);
    assert_eq!(ICMPTypeKind::from(ICMPType(1)), ICMPTypeKind::Oth(1));
    assert_eq!(ICMPTypeKind::Oth(200).to_bits(), 200);
}

#[test]
fn code_ranges_per_table() {
    for c in 0..=255u8 {
        let code = ICMPCode(c);
        let u = UnreachCode::from(code);
        assert_eq!(matches!(u, UnreachCode::Oth(_)), c > 15);
        assert_eq!(u.to_bits(), c);
        let r = RedirectCode::from(code);
        assert_eq!(matches!(r, RedirectCode::Oth(_)), c > 3);
        assert_eq!(r.to_bits(), c);
        let t = TimeExceededCode::from(code);
        assert_eq!(matches!(t, TimeExceededCode::Oth(_)), c > 1);
        assert_eq!(t.to_bits(), c);
        let b = BadIPHeaderCode::from(code);
        assert_eq!(matches!(b, BadIPHeaderCode::Oth(_)), c > 2);
        assert_eq!(b.to_bits(), c);
        let e = ExtendedErrorCode::from(code);
        assert_eq!(matches!(e, ExtendedErrorCode::Oth(_)), c > 4);
        assert_eq!(e.to_bits(), c);
    }
    assert_eq!(UnreachCode::from(ICMPCode(15)), UnreachCode::PrecedenceCutOff);
    assert_eq!(UnreachCode::from(ICMPCode(16)), UnreachCode::Oth(16));
    assert_eq!(RedirectCode::from(ICMPCode(3)), RedirectCode::ForToSAndHost);
    assert_eq!(TimeExceededCode::from(ICMPCode(0)), TimeExceededCode::TTLExpired);
    assert_eq!(BadIPHeaderCode::from(ICMPCode(2)), BadIPHeaderCode::BadLen);
    assert_eq!(
        ExtendedErrorCode::from(ICMPCode(4)),
        ExtendedErrorCode::MultipleInterfacesSatisfyQuery
    );
}

#[test]
fn code_table_follows_the_type() {
    assert_eq!(
        classify_code(ICMPTypeKind::DestinationUnreachable, ICMPCode(3)),
        ICMPCodeKind::Unreach(UnreachCode::DstPortUnreachable)
    );
    assert_eq!(
        classify_code(ICMPTypeKind::RedirectMessage, ICMPCode(3)),
        ICMPCodeKind::Redirect(RedirectCode::ForToSAndHost)
    );
    assert_eq!(classify_code(ICMPTypeKind::EchoRequest, ICMPCode(3)), ICMPCodeKind::Plain(3));
    assert_eq!(classify_code(ICMPTypeKind::Oth(99), ICMPCode(3)), ICMPCodeKind::Plain(3));
    assert_eq!(
        classify_code(ICMPTypeKind::ExtendedEchoReply, ICMPCode(9)),
        ICMPCodeKind::ExtendedError(ExtendedErrorCode::Oth(9))
    );
}

#[test]
fn describe_examples() {
    assert_eq!(
        describe(3, 3),
        ("DestinationUnreachable".to_string(), "DstPortUnreachable".to_string())
    );
    assert_eq!(describe(0, 0), ("EchoReply".to_string(), "0".to_string()));
    assert_eq!(
        describe(11, 1),
        ("TimeExceeded".to_string(), "FragmentReassemblyTimeExceeded".to_string())
    );
    assert_eq!(describe(99, 7), ("Oth(99)".to_string(), "7".to_string()));
    assert_eq!(describe(3, 200), ("DestinationUnreachable".to_string(), "Oth(200)".to_string()));
    assert_eq!(describe(12, 2), ("BadParam".to_string(), "BadLen".to_string()));
    assert_eq!(describe(8, 255), ("EchoRequest".to_string(), "255".to_string()));
}

#[test]
fn describe_is_total() {
    for ty in 0..=255u8 {
        for code in 0..=255u8 {
            let (t, c) = describe(ty, code);
            assert!(!t.is_empty());
            assert!(!c.is_empty());
        }
    }
}

#[test]
fn header_code_text_follows_its_type() {
    let h = ICMP { ty: ICMPType(5), code: ICMPCode(1), cksum: InetCkSum(0), un: 0 };
    let d = h.debug_icmp_code();
    assert_eq!(d, DebugICMPCode::new(ICMPType(5), ICMPCode(1)));
    assert_eq!(d.describe(), "ForHost");
    assert_eq!(DebugICMPCode::new(ICMPType(13), ICMPCode(1)).describe(), "1");
}
