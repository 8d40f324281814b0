use scroll_battle::text::{append_decimal, append_signed};

#[test]
fn decimal_numerals() {
    for n in [0u64, 7, 10, 42, 100, 909, 1234567890, u64::MAX] {
        let mut out = String::new();
        append_decimal(&mut out, n);
        assert_eq!(out, n.to_string());
    }
}

#[test]
fn decimal_is_written_behind_what_is_there() {
    let mut out = String::from("NEXT ");
    append_decimal(&mut out, 12);
    assert_eq!(out, "NEXT 12");
}

#[test]
fn signed_numerals() {
    for n in [0i64, 5, -5, -10, 120, -120, i64::MAX, i64::MIN, i64::MIN + 1] {
        let mut out = String::from("x");
        append_signed(&mut out, n);
        assert_eq!(out, format!("x{}", n));
    }
}
