use esp32_mipidsi_clock::text::{push_decimal, push_two_digits};

fn decimal(n: u64) -> String {
    let mut out = Vec::new();
    push_decimal(n, &mut out);
    out.into_iter().collect()
}

fn two_digits(n: i64) -> String {
    let mut out = vec!['>'];
    push_two_digits(n, &mut out);
    out.into_iter().skip(1).collect()
}

#[test]
fn decimal_digits_of_a_number() {
    assert_eq!(decimal(0), "0");
    assert_eq!(decimal(7), "7");
    assert_eq!(decimal(10), "10");
    assert_eq!(decimal(1_234_567_890), "1234567890");
    assert_eq!(decimal(u64::MAX), "18446744073709551615");
    for n in (0..100_000u64).step_by(37) {
        assert_eq!(decimal(n), format!("{}", n));
    }
}

#[test]
fn field_of_two_is_filled_with_zeros() {
    assert_eq!(two_digits(0), "00");
    assert_eq!(two_digits(9), "09");
    assert_eq!(two_digits(10), "10");
    assert_eq!(two_digits(123), "123");
    assert_eq!(two_digits(-1), "-1");
    assert_eq!(two_digits(-12), "-12");
    assert_eq!(two_digits(i64::MAX), "9223372036854775807");
    assert_eq!(two_digits(i64::MIN), "-9223372036854775808");
    for n in -1_500..1_500i64 {
        assert_eq!(two_digits(n), format!("{:02}", n));
    }
}
