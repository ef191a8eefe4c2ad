use bingrep::text::{
    decimal_text, hexadecimal_text, push_decimal, push_hexadecimal, signed_hexadecimal_text,
};

#[test]
fn decimal_matches_the_standard_rendering() {
    for n in [0u64, 1, 9, 10, 11, 99, 100, 12345, 0xfff1, u32::MAX as u64, u64::MAX] {
        assert_eq!(decimal_text(n), format!("{}", n));
    }
    assert_eq!(decimal_text(65521), "65521");
}

#[test]
fn hexadecimal_matches_the_standard_rendering() {
    for n in [0u64, 1, 9, 10, 15, 16, 255, 256, 0xdead_beef, u64::MAX] {
        assert_eq!(hexadecimal_text(n), format!("{:#x}", n));
    }
    assert_eq!(hexadecimal_text(0x1f), "0x1f");
}

#[test]
fn signed_hexadecimal_has_sign_and_magnitude() {
    assert_eq!(signed_hexadecimal_text(16), "+0x10");
    assert_eq!(signed_hexadecimal_text(-1), "-0x1");
    assert_eq!(signed_hexadecimal_text(0), "+0x0");
    assert_eq!(signed_hexadecimal_text(i64::MAX), "+0x7fffffffffffffff");
    assert_eq!(signed_hexadecimal_text(i64::MIN), "-0x8000000000000000");
}

#[test]
fn pushing_appends_to_what_is_there() {
    let mut s = String::from("n=");
    push_decimal(&mut s, 42);
    s.push(' ');
    push_hexadecimal(&mut s, 42);
    assert_eq!(s, "n=42 0x2a");
}
