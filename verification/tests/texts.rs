use vm_panel::text::{append_decimal, append_hex, append_signed_decimal, join};

fn decimal(n: u64) -> String {
    let mut out = String::new();
    append_decimal(&mut out, n);
    out
}

fn signed(n: i64) -> String {
    let mut out = String::new();
    append_signed_decimal(&mut out, n);
    out
}

#[test]
fn numbers_are_written_as_their_shortest_numeral() {
    assert_eq!(decimal(0), "0");
    assert_eq!(decimal(7), "7");
    assert_eq!(decimal(10), "10");
    assert_eq!(decimal(255), "255");
    assert_eq!(decimal(1000), "1000");
    assert_eq!(decimal(u64::MAX), "18446744073709551615");
}

#[test]
fn decimal_is_appended_to_what_is_there() {
    let mut out = String::from("n=");
    append_decimal(&mut out, 42);
    assert_eq!(out, "n=42");
    append_signed_decimal(&mut out, -3);
    assert_eq!(out, "n=42-3");
}

#[test]
fn negative_numbers_get_a_minus_sign() {
    assert_eq!(signed(0), "0");
    assert_eq!(signed(-1), "-1");
    assert_eq!(signed(12), "12");
    assert_eq!(signed(-2147483648), "-2147483648");
    assert_eq!(signed(i64::MIN), "-9223372036854775808");
    assert_eq!(signed(i64::MAX), "9223372036854775807");
}

#[test]
fn join_puts_the_separator_between() {
    let parts = vec!["a".to_string(), "bc".to_string(), "".to_string(), "d".to_string()];
    assert_eq!(join(&parts, ","), "a,bc,,d");
    assert_eq!(join(&parts, " - "), "a - bc -  - d");
    assert_eq!(join(&Vec::new(), ","), "");
    assert_eq!(join(&vec!["x".to_string()], ","), "x");
}

#[test]
fn bytes_are_written_in_lower_case_hexadecimal() {
    let mut out = String::from("0x");
    append_hex(&mut out, &[0x00, 0x0f, 0xa5, 0xff, 0x10]);
    assert_eq!(out, "0x000fa5ff10");
    let mut out = String::new();
    append_hex(&mut out, &[]);
    assert_eq!(out, "");
    let all: Vec<u8> = (0..=255u8).collect();
    let mut out = String::new();
    append_hex(&mut out, &all);
    let expected: String = all.iter().map(|b| format!("{:02x}", b)).collect();
    assert_eq!(out, expected);
}
