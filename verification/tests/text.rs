use mos6502::text::{digit, push_hex2, push_hex4};

#[test]
fn digits_are_upper_case_hexadecimal() {
    let digits: String = (0..16u8).map(digit).collect();
    assert_eq!(digits, "0123456789ABCDEF");
}

#[test]
fn push_hex2_appends_two_digits() {
    let mut text = String::from(">");
    push_hex2(&mut text, 0x00);
    push_hex2(&mut text, 0x0A);
    push_hex2(&mut text, 0xF0);
    push_hex2(&mut text, 0x9C);
    assert_eq!(text, ">000AF09C");
}

#[test]
fn push_hex4_appends_four_digits() {
    let mut text = String::new();
    push_hex4(&mut text, 0x0000);
    push_hex4(&mut text, 0x00FF);
    push_hex4(&mut text, 0x1A2B);
    push_hex4(&mut text, 0xFFFF);
    assert_eq!(text, "000000FF1A2BFFFF");
}
