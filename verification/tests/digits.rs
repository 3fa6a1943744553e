use widget::digits::{append_decimal, count_digits, to_decimal, to_padded};

#[test]
fn decimal_of_one_digit() {
    assert_eq!(to_decimal(0), "0");
    assert_eq!(to_decimal(3), "3");
    assert_eq!(to_decimal(9), "9");
}

#[test]
fn decimal_of_several_digits() {
    assert_eq!(to_decimal(10), "10");
    assert_eq!(to_decimal(100), "100");
    assert_eq!(to_decimal(1203), "1203");
    assert_eq!(to_decimal(u32::MAX), "4294967295");
}

#[test]
fn decimal_agrees_with_the_standard_notation() {
    for n in (0..2000u32).chain([65_535, 65_536, 999_999_999, 1_000_000_000, u32::MAX - 1]) {
        assert_eq!(to_decimal(n), n.to_string());
    }
}

#[test]
fn append_keeps_what_was_there() {
    let mut text = String::from("x=");
    append_decimal(&mut text, 42);
    append_decimal(&mut text, 0);
    assert_eq!(text, "x=420");
}

#[test]
fn digits_are_counted() {
    assert_eq!(count_digits(0), 1);
    assert_eq!(count_digits(9), 1);
    assert_eq!(count_digits(10), 2);
    assert_eq!(count_digits(99), 2);
    assert_eq!(count_digits(100), 3);
    assert_eq!(count_digits(u32::MAX), 10);
}

#[test]
fn padding_fills_up_to_the_width() {
    assert_eq!(to_padded(0, 2), "00");
    assert_eq!(to_padded(5, 2), "05");
    assert_eq!(to_padded(30, 2), "30");
    assert_eq!(to_padded(99, 2), "99");
    assert_eq!(to_padded(7, 5), "00007");
}

#[test]
fn padding_never_cuts_digits() {
    assert_eq!(to_padded(100, 2), "100");
    assert_eq!(to_padded(7, 0), "7");
    assert_eq!(to_padded(7, 1), "7");
    assert_eq!(to_padded(u32::MAX, 3), "4294967295");
}

#[test]
fn padding_agrees_with_the_standard_notation() {
    for n in 0..=250u32 {
        assert_eq!(to_padded(n, 2), format!("{:02}", n));
        assert_eq!(to_padded(n, 4), format!("{:04}", n));
    }
}
