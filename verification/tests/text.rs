use havit_monitor::text::{push_decimal, push_hex};

#[test]
fn decimal_numerals() {
    let mut s = String::from("n=");
    push_decimal(&mut s, 0);
    assert_eq!(s, "n=0");
    let mut s = String::new();
    push_decimal(&mut s, 18_446_744_073_709_551_615);
    assert_eq!(s, "18446744073709551615");
}

#[test]
fn hex_digits_are_padded_and_cut_to_width() {
    let mut s = String::new();
    push_hex(&mut s, 0xAB, 4, true);
    assert_eq!(s, "00AB");
    let mut s = String::new();
    push_hex(&mut s, 0x1234, 2, false);
    assert_eq!(s, "34");
    let mut s = String::new();
    push_hex(&mut s, 0xbeef, 0, false);
    assert_eq!(s, "");
}
