use uat_decode::header::{AddressQualifier, UatHeader};

#[test]
fn header_fields_sit_at_their_bit_ranges() {
    let h = UatHeader(0b10101_011_0000_0000_0000_0000_0000_0001);
    assert_eq!(h.code(), 0b10101);
    assert_eq!(h.qualifier(), 0b011);
    assert_eq!(h.address(), 1);

    let h = UatHeader(0x00AB_CDEF);
    assert_eq!(h.code(), 0);
    assert_eq!(h.qualifier(), 0);
    assert_eq!(h.address(), 0xABCDEF);

    let h = UatHeader(u32::MAX);
    assert_eq!(h.code(), 31);
    assert_eq!(h.qualifier(), 7);
    assert_eq!(h.address(), 0xFF_FFFF);
}

#[test]
fn header_round_trip_on_chosen_words() {
    let words = [
        0u32,
        1,
        0x00AB_CDEF,
        0x0800_0000,
        0x0700_0000,
        0x7FFF_FFFF,
        0x8000_0000,
        0xDEAD_BEEF,
        0x1234_5678,
        u32::MAX,
    ];
    for v in words {
        let h = UatHeader(v);
        assert_eq!((h.code() << 27) | (h.qualifier() << 24) | h.address(), v);
    }
}

#[test]
fn header_round_trip_on_a_sweep() {
    let mut v: u32 = 0;
    for _ in 0..100_000 {
        let h = UatHeader(v);
        assert_eq!((h.code() << 27) | (h.qualifier() << 24) | h.address(), v);
        v = v.wrapping_mul(1_664_525).wrapping_add(1_013_904_223);
    }
}

#[test]
fn qualifier_codes_name_the_eight_qualifiers() {
    assert_eq!(AddressQualifier::from_code(0), Some(AddressQualifier::AdsbStandard));
    assert_eq!(AddressQualifier::from_code(1), Some(AddressQualifier::AdsbSelfAssigned));
    assert_eq!(AddressQualifier::from_code(2), Some(AddressQualifier::TisbStandard));
    assert_eq!(AddressQualifier::from_code(3), Some(AddressQualifier::TisbTrackFile));
    assert_eq!(AddressQualifier::from_code(4), Some(AddressQualifier::SurfaceVehicle));
    assert_eq!(AddressQualifier::from_code(5), Some(AddressQualifier::AdsbFixed));
    assert_eq!(AddressQualifier::from_code(6), Some(AddressQualifier::Reserved1));
    assert_eq!(AddressQualifier::from_code(7), Some(AddressQualifier::Reserved2));
    assert_eq!(AddressQualifier::from_code(8), None);
    assert_eq!(AddressQualifier::from_code(u32::MAX), None);
}

#[test]
fn qualifier_names_match_the_debug_names() {
    for code in 0..8 {
        let q = AddressQualifier::from_code(code).unwrap();
        assert_eq!(q.name(), format!("{:?}", q));
    }
}

#[test]
fn header_qualifier_follows_the_qualifier_code() {
    for code in 0u32..8 {
        let h = UatHeader(code << 24);
        assert_eq!(Some(h.address_qualifier()), AddressQualifier::from_code(code));
    }
    assert_eq!(UatHeader(0x0B00_0000).address_qualifier(), AddressQualifier::TisbTrackFile);
}

#[test]
fn header_block_text() {
    assert_eq!(
        UatHeader(0x00AB_CDEF).to_text(),
        "HDR:\n MDB Type:           0\n Address:            ABCDEF (AdsbStandard)\n"
    );
    assert_eq!(
        UatHeader(0x0A00_00FF).to_text(),
        "HDR:\n MDB Type:           1\n Address:            FF (TisbStandard)\n"
    );
    assert_eq!(
        UatHeader(u32::MAX).to_text(),
        "HDR:\n MDB Type:           31\n Address:            FFFFFF (Reserved2)\n"
    );
    assert_eq!(
        UatHeader(0).to_text(),
        "HDR:\n MDB Type:           0\n Address:            0 (AdsbStandard)\n"
    );
}

#[test]
fn header_block_text_matches_std_formatting() {
    let mut v: u32 = 12345;
    for _ in 0..2000 {
        let h = UatHeader(v);
        let expected = format!(
            "HDR:\n MDB Type:           {}\n Address:            {:X} ({:?})\n",
            v >> 27,
            v & 0xFF_FFFF,
            h.address_qualifier()
        );
        assert_eq!(h.to_text(), expected);
        v = v.wrapping_mul(1_664_525).wrapping_add(1_013_904_223);
    }
}
