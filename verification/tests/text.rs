use agenda_ics::text::{digit, push_decimal, push_signed_decimal};

#[test]
fn digits_are_the_ten_numerals() {
    let all: String = (0..10).map(digit).collect();
    assert_eq!(all, "0123456789");
}

#[test]
fn decimal_of_small_and_large_numbers() {
    let mut out = String::new();
    push_decimal(&mut out, 0);
    out.push(' ');
    push_decimal(&mut out, 7);
    out.push(' ');
    push_decimal(&mut out, 10);
    out.push(' ');
    push_decimal(&mut out, 2023);
    out.push(' ');
    push_decimal(&mut out, u32::MAX);
    assert_eq!(out, "0 7 10 2023 4294967295");
}

#[test]
fn decimal_is_appended_to_what_is_there() {
    let mut out = String::from("day ");
    push_decimal(&mut out, 31);
    assert_eq!(out, "day 31");
}

#[test]
fn signed_decimal_of_both_signs() {
    let mut out = String::new();
    push_signed_decimal(&mut out, 2023);
    out.push(' ');
    push_signed_decimal(&mut out, -5);
    out.push(' ');
    push_signed_decimal(&mut out, 0);
    out.push(' ');
    push_signed_decimal(&mut out, i32::MIN);
    out.push(' ');
    push_signed_decimal(&mut out, i32::MAX);
    assert_eq!(out, "2023 -5 0 -2147483648 2147483647");
}
