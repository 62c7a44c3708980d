use uat_decode::text::{bool_str, push_decimal, push_fixed4, push_hex_upper, push_signed_decimal};

#[test]
fn decimal_of_chosen_numbers() {
    for n in [0u128, 1, 9, 10, 11, 99, 100, 101, 1023, 4095, 65535, 16_777_215, u128::MAX] {
        let mut out = String::new();
        push_decimal(&mut out, n);
        assert_eq!(out, format!("{}", n));
    }
}

#[test]
fn decimal_is_appended_to_what_is_there() {
    let mut out = String::from("x=");
    push_decimal(&mut out, 42);
    push_decimal(&mut out, 7);
    assert_eq!(out, "x=427");
}

#[test]
fn signed_decimal_of_chosen_numbers() {
    for i in [0i32, 1, -1, 9, -9, 10, -10, 1475, -1025, 101_350, i32::MAX, i32::MIN] {
        let mut out = String::new();
        push_signed_decimal(&mut out, i);
        assert_eq!(out, format!("{}", i));
    }
}

#[test]
fn hex_upper_of_chosen_numbers() {
    for n in [0u128, 9, 10, 15, 16, 255, 256, 0xABCDEF, 0xFF_FFFF, 0xdead_beef, u128::MAX] {
        let mut out = String::new();
        push_hex_upper(&mut out, n);
        assert_eq!(out, format!("{:X}", n));
    }
}

#[test]
fn fixed4_of_chosen_numbers() {
    let cases: [(u128, &str); 8] = [
        (0, "0.0000"),
        (1, "0.0001"),
        (10, "0.0010"),
        (9999, "0.9999"),
        (10000, "1.0000"),
        (14062, "1.4062"),
        (1_800_000, "180.0000"),
        (1_234_567, "123.4567"),
    ];
    for (n, expected) in cases {
        let mut out = String::new();
        push_fixed4(&mut out, n);
        assert_eq!(out, expected);
    }
}

#[test]
fn flags_in_words() {
    assert_eq!(bool_str(true), "true");
    assert_eq!(bool_str(false), "false");
}
