use uat_decode::state_vector::{
    altitude_from_code, angle_from_code, velocity_string, StateVector,
};

fn with_field(word: u128, lsb: u32, value: u128) -> u128 {
    word | (value << lsb)
}

fn lat_word(code: u128) -> StateVector {
    StateVector(with_field(0, 105, code))
}

fn lng_word(code: u128) -> StateVector {
    StateVector(with_field(0, 81, code))
}

fn velocity_word(air_ground: u128, ns: u128, ew: u128) -> StateVector {
    StateVector(with_field(with_field(with_field(0, 62, air_ground), 50, ns), 39, ew))
}

#[test]
fn state_vector_fields_sit_at_their_bit_ranges() {
    let mut word: u128 = 0;
    word = with_field(word, 105, 0x12_3456);
    word = with_field(word, 81, 0xAB_CDEF);
    word = with_field(word, 80, 1);
    word = with_field(word, 68, 0x9A5);
    word = with_field(word, 64, 0xB);
    word = with_field(word, 62, 2);
    word = with_field(word, 60, 1);
    word = with_field(word, 50, 0x2C3);
    word = with_field(word, 49, 0);
    word = with_field(word, 39, 0x1F4);
    word = with_field(word, 38, 1);
    word = with_field(word, 37, 0);
    word = with_field(word, 28, 0x155);
    word = with_field(word, 27, 1);
    let sv = StateVector(word);
    assert_eq!(sv.raw_lat(), 0x12_3456);
    assert_eq!(sv.raw_lng(), 0xAB_CDEF);
    assert!(sv.raw_alt_type());
    assert_eq!(sv.raw_alt(), 0x9A5);
    assert_eq!(sv.raw_nic(), 0xB);
    assert_eq!(sv.raw_ag(), 2);
    assert!(sv.raw_ns());
    assert_eq!(sv.raw_ns_vel(), 0x2C3);
    assert!(!sv.raw_ew());
    assert_eq!(sv.raw_ew_vel(), 0x1F4);
    assert!(sv.raw_vv_source());
    assert!(!sv.raw_vv_sign());
    assert_eq!(sv.raw_vv(), 0x155);
    assert!(sv.raw_utc());
}

#[test]
fn state_vector_fields_of_the_extreme_words() {
    let ones = StateVector(u128::MAX);
    assert_eq!(ones.raw_lat(), 0x7F_FFFF);
    assert_eq!(ones.raw_lng(), 0xFF_FFFF);
    assert_eq!(ones.raw_alt(), 0xFFF);
    assert_eq!(ones.raw_nic(), 0xF);
    assert_eq!(ones.raw_ag(), 3);
    assert_eq!(ones.raw_ns_vel(), 0x3FF);
    assert_eq!(ones.raw_ew_vel(), 0x3FF);
    assert_eq!(ones.raw_vv(), 0x1FF);
    assert!(ones.raw_alt_type() && ones.raw_ns() && ones.raw_ew());
    assert!(ones.raw_vv_source() && ones.raw_vv_sign() && ones.raw_utc());

    let zeros = StateVector(0);
    assert_eq!(zeros.raw_lat(), 0);
    assert_eq!(zeros.raw_lng(), 0);
    assert_eq!(zeros.raw_alt(), 0);
    assert!(!zeros.raw_alt_type() && !zeros.raw_utc());
}

#[test]
fn single_bits_do_not_leak_into_their_neighbours() {
    for bit in [80u32, 60, 49, 38, 37, 27] {
        let sv = StateVector(1u128 << bit);
        assert_eq!(sv.raw_alt_type(), bit == 80);
        assert_eq!(sv.raw_ns(), bit == 60);
        assert_eq!(sv.raw_ew(), bit == 49);
        assert_eq!(sv.raw_vv_source(), bit == 38);
        assert_eq!(sv.raw_vv_sign(), bit == 37);
        assert_eq!(sv.raw_utc(), bit == 27);
        assert_eq!(sv.raw_alt(), 0);
        assert_eq!(sv.raw_ns_vel(), 0);
        assert_eq!(sv.raw_ew_vel(), 0);
        assert_eq!(sv.raw_vv(), 0);
    }
}

#[test]
fn altitude_formula() {
    assert_eq!(altitude_from_code(0), -1025);
    assert_eq!(altitude_from_code(41), 0);
    assert_eq!(altitude_from_code(4095), 101_350);
    assert_eq!(altitude_from_code(100), 1475);
    assert_eq!(StateVector(with_field(0, 68, 0)).alt(), -1025);
    assert_eq!(StateVector(with_field(0, 68, 41)).alt(), 0);
    assert_eq!(StateVector(with_field(0, 68, 4095)).alt(), 101_350);
    assert_eq!(StateVector(u128::MAX).alt(), 101_350);
}

#[test]
fn altitude_type() {
    assert_eq!(StateVector(0).alt_type(), "Barometric");
    assert_eq!(StateVector(1u128 << 80).alt_type(), "Geometric");
}

#[test]
fn velocity_sentinels() {
    assert_eq!(velocity_word(0, 0, 5).ns_vel(), "Not available");
    assert_eq!(velocity_word(0, 1023, 5).ns_vel(), "> 1021.5 kt");
    assert_eq!(velocity_word(0, 2, 5).ns_vel(), "1 kt");
    assert_eq!(velocity_word(1, 5, 1023).ew_vel(), "> 4086 kt");
    assert_eq!(velocity_word(1, 5, 2).ew_vel(), "4 kt");
}

#[test]
fn velocity_of_each_air_ground_status() {
    assert_eq!(velocity_word(0, 1, 1022).ns_vel(), "0 kt");
    assert_eq!(velocity_word(0, 1, 1022).ew_vel(), "1021 kt");
    assert_eq!(velocity_word(0, 5, 0).ew_vel(), "Not available");
    assert_eq!(velocity_word(0, 5, 1023).ew_vel(), "> 1021.5 kt");
    assert_eq!(velocity_word(1, 0, 5).ns_vel(), "Not available");
    assert_eq!(velocity_word(1, 1023, 5).ns_vel(), "> 4086 kt");
    assert_eq!(velocity_word(1, 1, 1022).ns_vel(), "0 kt");
    assert_eq!(velocity_word(1, 1, 1022).ew_vel(), "4084 kt");
    assert_eq!(velocity_word(2, 7, 7).ns_vel(), "Unknown");
    assert_eq!(velocity_word(3, 7, 7).ew_vel(), "Unknown");
    assert_eq!(velocity_word(2, 0, 1023).ns_vel(), "Unknown");
}

#[test]
fn velocity_ignores_the_sign_bits() {
    let plain = velocity_word(0, 300, 400);
    let signed = StateVector(plain.0 | (1u128 << 60) | (1u128 << 49));
    assert_eq!(signed.ns_vel(), "299 kt");
    assert_eq!(signed.ew_vel(), "399 kt");
    assert_eq!(plain.ns_vel(), signed.ns_vel());
    assert_eq!(plain.ew_vel(), signed.ew_vel());
}

#[test]
fn velocity_text_of_plain_values() {
    assert_eq!(velocity_string(0, 0), "Not available");
    assert_eq!(velocity_string(0, 1023), "> 1021.5 kt");
    assert_eq!(velocity_string(0, 512), "511 kt");
    assert_eq!(velocity_string(1, 512), "2044 kt");
    assert_eq!(velocity_string(7, 512), "Unknown");
}

#[test]
fn vertical_rate() {
    let rate = |sign: u128, magnitude: u128| {
        StateVector(with_field(with_field(0, 37, sign), 28, magnitude)).vv_string()
    };
    assert_eq!(rate(0, 0), "Not available");
    assert_eq!(rate(1, 0), "Not available");
    assert_eq!(rate(0, 1), "0 ft/min (from geometric altitude)");
    assert_eq!(rate(1, 1), "-0 ft/min (from geometric altitude)");
    assert_eq!(rate(0, 2), "64 ft/min (from geometric altitude)");
    assert_eq!(rate(1, 2), "-64 ft/min (from geometric altitude)");
    assert_eq!(rate(0, 511), "32640 ft/min (from geometric altitude)");
    assert_eq!(rate(1, 511), "-32640 ft/min (from geometric altitude)");
}

#[test]
fn nic_line() {
    assert_eq!(StateVector(0).nic_string(), "NIC:                0");
    assert_eq!(StateVector(with_field(0, 64, 9)).nic_string(), "NIC:                9");
    assert_eq!(StateVector(u128::MAX).nic_string(), "NIC:                15");
}

#[test]
fn tisb_site_is_not_told() {
    assert_eq!(StateVector(0).tisb_site_id(), "?");
    assert_eq!(StateVector(u128::MAX).tisb_site_id(), "?");
}

#[test]
fn angles_in_ten_thousandths_of_a_degree() {
    assert_eq!(angle_from_code(0), 0);
    assert_eq!(angle_from_code(8_388_608), 1_800_000);
    assert_eq!(angle_from_code(4_194_304), 900_000);
    assert_eq!(angle_from_code(16_777_215), 3_600_000);
    // 1 unit is 0.0000214... degrees: it rounds down to 0.0000, 3 units round up to 0.0001
    assert_eq!(angle_from_code(1), 0);
    assert_eq!(angle_from_code(2), 0);
    assert_eq!(angle_from_code(3), 1);
    // exact ties go to the even neighbour: 1.40625 -> 1.4062, 4.21875 -> 4.2188
    assert_eq!(angle_from_code(65_536), 14_062);
    assert_eq!(angle_from_code(3 * 65_536), 42_188);
}

#[test]
fn longitude_wrap() {
    assert_eq!(lng_word(8_388_608).lng(), 1_800_000);
    assert_eq!(lng_word(8_388_608).geo(), " Latitude:           0.0000 N\n Longitude:          180.0000 EW");
    assert_eq!(lng_word(0).lng(), 0);
    assert_eq!(lng_word(4_194_304).lng(), 900_000);
    assert_eq!(lng_word(12_582_912).lng(), 900_000);
    assert_eq!(lng_word(16_777_215).lng(), 0);
    assert_eq!(lng_word(8_388_609).lng(), lng_word(8_388_607).lng());
}

#[test]
fn longitude_hemispheres() {
    let label = |code: u128| {
        let geo = lng_word(code).geo();
        geo.rsplit(' ').next().unwrap().to_string()
    };
    assert_eq!(label(0), "PM");
    assert_eq!(label(1), "E");
    assert_eq!(label(8_388_607), "E");
    assert_eq!(label(8_388_608), "EW");
    assert_eq!(label(8_388_609), "W");
    assert_eq!(label(16_777_215), "W");
}

#[test]
fn latitude_line() {
    assert_eq!(lat_word(0).lat_string(), "Latitude:           0.0000 N");
    assert_eq!(lat_word(4_194_304).lat_string(), "Latitude:           90.0000 N");
    assert_eq!(lat_word(4_194_305).lat_string(), "Latitude:           90.0000 ??");
    assert_eq!(lat_word(8_388_607).lat_string(), "Latitude:           180.0000 ??");
    assert_eq!(lat_word(2_097_152).lat_string(), "Latitude:           45.0000 N");
    assert_eq!(lat_word(65_536).lat_string(), "Latitude:           1.4062 N");
    assert_eq!(lat_word(2_097_152).lat(), 450_000);
}

#[test]
fn latitude_line_matches_floating_point_formatting() {
    let mut code: u128 = 0;
    while code < (1 << 23) {
        let degrees = code as f64 * 360.0 / 16_777_216.0;
        let ns = if code <= 4_194_304 { "N" } else { "??" };
        assert_eq!(
            lat_word(code).lat_string(),
            format!("Latitude:           {:.4} {}", degrees, ns),
            "code {}",
            code
        );
        code += 997;
    }
}

#[test]
fn rounding_ties_match_floating_point_formatting() {
    let mut k: u128 = 0;
    while k < 256 {
        for code in [k * 65_536, (k * 65_536).saturating_sub(1), k * 65_536 + 1, k * 32_768] {
            if code > 0xFF_FFFF {
                continue;
            }
            let degrees = code as f64 * 360.0 / 16_777_216.0;
            assert_eq!(
                format!("{:.4}", angle_from_code(code) as f64 / 10_000.0),
                format!("{:.4}", degrees),
                "code {}",
                code
            );
        }
        k += 1;
    }
}

#[test]
fn position_lines_match_floating_point_formatting() {
    let mut code: u128 = 0;
    while code < (1 << 24) {
        let base = code as f64 * 360.0 / 16_777_216.0;
        let lng = if base <= 180.0 { base } else { 360.0 - base };
        let ew = match code {
            0 => "PM",
            1..=8_388_607 => "E",
            8_388_608 => "EW",
            _ => "W",
        };
        assert_eq!(
            lng_word(code).geo(),
            format!(" Latitude:           0.0000 N\n Longitude:          {:.4} {}", lng, ew),
            "code {}",
            code
        );
        code += 1999;
    }
}

#[test]
fn state_vector_block_text() {
    let mut word: u128 = 0;
    word = with_field(word, 105, 2_097_152);
    word = with_field(word, 81, 12_582_912);
    word = with_field(word, 80, 1);
    word = with_field(word, 68, 100);
    word = with_field(word, 64, 8);
    word = with_field(word, 62, 0);
    word = with_field(word, 50, 101);
    word = with_field(word, 39, 1023);
    word = with_field(word, 37, 1);
    word = with_field(word, 28, 11);
    word = with_field(word, 27, 1);
    let expected = "SV:\n NIC:                8\n Latitude:           45.0000 N\n Longitude:          90.0000 W\n Altitude:           1475 ft (Geometric)\n N/S velocity:       100 kt\n E/W velocity:       > 1021.5 kt\n Track: \n Speed: \n Vertical rate:      -640 ft/min (from geometric altitude)\n UTC coupling:       yes\n TIS-B site ID:      ?\n";
    assert_eq!(StateVector(word).to_text(), expected);
}

#[test]
fn state_vector_block_text_of_the_zero_word() {
    let expected = "SV:\n NIC:                0\n Latitude:           0.0000 N\n Longitude:          0.0000 PM\n Altitude:           -1025 ft (Barometric)\n N/S velocity:       Not available\n E/W velocity:       Not available\n Track: \n Speed: \n Vertical rate:      Not available\n UTC coupling:       no\n TIS-B site ID:      ?\n";
    assert_eq!(StateVector(0).to_text(), expected);
}
