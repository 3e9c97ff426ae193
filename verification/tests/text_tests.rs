use wobj::text::{push_decimal, push_hex, push_signed_decimal};

fn hex(n: u64, width: u32, upper: bool) -> String {
    let mut s = String::new();
    push_hex(&mut s, n, width, upper);
    s
}

fn signed_decimal(i: i32) -> String {
    let mut s = String::new();
    push_signed_decimal(&mut s, i);
    s
}

#[test]
fn hex_pads_to_the_width() {
    assert_eq!(hex(255, 5, true), "000FF");
    assert_eq!(hex(0x1abc, 4, false), "1abc");
    assert_eq!(hex(0xabcdef, 8, true), "00ABCDEF");
    assert_eq!(hex(0xabcdef, 8, false), "00abcdef");
}

#[test]
fn hex_never_cuts_digits() {
    assert_eq!(hex(0x100000, 5, true), "100000");
    assert_eq!(hex(0xFFFF_FFFF, 1, true), "FFFFFFFF");
    assert_eq!(hex(u64::MAX, 0, false), "ffffffffffffffff");
}

#[test]
fn hex_of_zero_has_one_digit_at_least() {
    assert_eq!(hex(0, 0, true), "0");
    assert_eq!(hex(0, 1, true), "0");
    assert_eq!(hex(0, 4, false), "0000");
}

#[test]
fn signed_decimal_values() {
    assert_eq!(signed_decimal(0), "0");
    assert_eq!(signed_decimal(7), "7");
    assert_eq!(signed_decimal(-1), "-1");
    assert_eq!(signed_decimal(1234567), "1234567");
    assert_eq!(signed_decimal(-524288), "-524288");
    assert_eq!(signed_decimal(i32::MAX), "2147483647");
    assert_eq!(signed_decimal(i32::MIN), "-2147483648");
}

#[test]
fn pushing_appends_to_what_is_there() {
    let mut s = String::from("x=");
    push_hex(&mut s, 0x2a, 4, true);
    s.push(' ');
    push_decimal(&mut s, 18446744073709551615);
    s.push(' ');
    push_signed_decimal(&mut s, -40);
    assert_eq!(s, "x=002A 18446744073709551615 -40");
}
