use cargo_pros::text::{format_decimal, format_signed_decimal, same_text};

#[test]
fn same_text_on_equal_slices() {
    assert!(same_text("", ""));
    assert!(same_text("screen", "screen"));
    assert!(same_text("gr\u{00FC}n", "gr\u{00FC}n"));
}

#[test]
fn same_text_on_different_slices() {
    assert!(!same_text("screen", "scree"));
    assert!(!same_text("scree", "screen"));
    assert!(!same_text("run", "ruN"));
    assert!(!same_text("", "x"));
    assert!(!same_text("gr\u{00FC}n", "gr\u{00FB}n"));
}

#[test]
fn decimal_of_single_digits() {
    assert_eq!(format_decimal(0), "0");
    assert_eq!(format_decimal(7), "7");
    assert_eq!(format_decimal(9), "9");
}

#[test]
fn decimal_of_longer_numbers() {
    assert_eq!(format_decimal(10), "10");
    assert_eq!(format_decimal(255), "255");
    assert_eq!(format_decimal(1002003), "1002003");
    assert_eq!(format_decimal(u64::MAX), "18446744073709551615");
}

#[test]
fn decimal_agrees_with_std_on_every_byte() {
    for n in 0..=255u64 {
        assert_eq!(format_decimal(n), n.to_string());
    }
}

#[test]
fn signed_decimal_of_negative_numbers() {
    assert_eq!(format_signed_decimal(-1), "-1");
    assert_eq!(format_signed_decimal(-120), "-120");
    assert_eq!(format_signed_decimal(i32::MIN), "-2147483648");
}

#[test]
fn signed_decimal_of_other_numbers() {
    assert_eq!(format_signed_decimal(0), "0");
    assert_eq!(format_signed_decimal(101), "101");
    assert_eq!(format_signed_decimal(i32::MAX), "2147483647");
}
