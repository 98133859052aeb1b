use rgbcal::decimal::push_decimal;

fn text_of(value: u64) -> String {
    let mut text = String::new();
    push_decimal(&mut text, value);
    text
}

#[test]
fn push_decimal_writes_single_digits() {
    for value in 0..10u64 {
        assert_eq!(text_of(value), format!("{}", value));
    }
    assert_eq!(text_of(0), "0");
    assert_eq!(text_of(7), "7");
}

#[test]
fn push_decimal_writes_most_significant_digit_first() {
    assert_eq!(text_of(10), "10");
    assert_eq!(text_of(160), "160");
    assert_eq!(text_of(1_234_567_890), "1234567890");
    assert_eq!(text_of(u64::MAX), "18446744073709551615");
}

#[test]
fn push_decimal_appends_to_what_is_there() {
    let mut text = String::from("rate ");
    push_decimal(&mut text, 100);
    push_decimal(&mut text, 5);
    assert_eq!(text, "rate 1005");
}

#[test]
fn push_decimal_agrees_with_the_standard_formatter() {
    let mut value: u64 = 1;
    while value < u64::MAX / 7 {
        assert_eq!(text_of(value), format!("{}", value));
        assert_eq!(text_of(value - 1), format!("{}", value - 1));
        value = value * 7 + 3;
    }
}
