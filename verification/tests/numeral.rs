use divera_reports::numeral::whole_number;
use divera_reports::text::decimal_string;

#[test]
fn whole_number_reads_plain_digits() {
    assert_eq!(whole_number("0"), Some(0));
    assert_eq!(whole_number("12"), Some(12));
    assert_eq!(whole_number("1700000000"), Some(1700000000));
    assert_eq!(whole_number("000012"), Some(12));
}

#[test]
fn whole_number_cuts_the_fraction_off_toward_zero() {
    assert_eq!(whole_number("1700000000.0"), Some(1700000000));
    assert_eq!(whole_number("12.5"), Some(12));
    assert_eq!(whole_number("12.999999"), Some(12));
    assert_eq!(whole_number("-12.999999"), Some(-12));
    assert_eq!(whole_number("-0.5"), Some(0));
}

#[test]
fn whole_number_takes_a_sign() {
    assert_eq!(whole_number("+7"), Some(7));
    assert_eq!(whole_number("-7"), Some(-7));
    assert_eq!(whole_number("+7.25"), Some(7));
}

#[test]
fn whole_number_takes_a_bare_point_on_one_side() {
    assert_eq!(whole_number("5."), Some(5));
    assert_eq!(whole_number(".5"), Some(0));
    assert_eq!(whole_number("-.5"), Some(0));
}

#[test]
fn whole_number_rejects_what_is_no_numeral() {
    assert_eq!(whole_number(""), None);
    assert_eq!(whole_number("+"), None);
    assert_eq!(whole_number("-"), None);
    assert_eq!(whole_number("."), None);
    assert_eq!(whole_number("-."), None);
    assert_eq!(whole_number("not-a-number"), None);
    assert_eq!(whole_number("12a"), None);
    assert_eq!(whole_number("a12"), None);
    assert_eq!(whole_number(" 12"), None);
    assert_eq!(whole_number("12 "), None);
    assert_eq!(whole_number("1.2.3"), None);
    assert_eq!(whole_number("1.2x"), None);
    assert_eq!(whole_number("--1"), None);
    assert_eq!(whole_number("nan"), None);
    assert_eq!(whole_number("NaN"), None);
    assert_eq!(whole_number("inf"), None);
    assert_eq!(whole_number("-infinity"), None);
    assert_eq!(whole_number("0x10"), None);
    assert_eq!(whole_number("1_000"), None);
    assert_eq!(whole_number("1,5"), None);
    assert_eq!(whole_number("١٢"), None);
}

#[test]
fn whole_number_at_the_edges_of_64_bits() {
    assert_eq!(whole_number("9223372036854775807"), Some(i64::MAX));
    assert_eq!(whole_number("9223372036854775808"), None);
    assert_eq!(whole_number("-9223372036854775808"), Some(i64::MIN));
    assert_eq!(whole_number("-9223372036854775809"), None);
    assert_eq!(whole_number("9223372036854775807.9"), Some(i64::MAX));
    assert_eq!(whole_number("18446744073709551616"), None);
    assert_eq!(whole_number("99999999999999999999999999999"), None);
    assert_eq!(whole_number("-99999999999999999999999999999.5"), None);
}

#[test]
fn whole_number_reads_back_what_decimal_string_writes() {
    for n in [i64::MIN, -1700000000, -10, -1, 0, 1, 9, 10, 1700000000, i64::MAX] {
        let plain = decimal_string(n);
        assert_eq!(whole_number(&plain), Some(n));
        let dotted = format!("{}.0", plain);
        assert_eq!(whole_number(&dotted), Some(n));
    }
}

#[test]
fn whole_number_moves_the_point_by_the_exponent() {
    assert_eq!(whole_number("1e9"), Some(1000000000));
    assert_eq!(whole_number("1E9"), Some(1000000000));
    assert_eq!(whole_number("1.7e9"), Some(1700000000));
    assert_eq!(whole_number("1.7e+9"), Some(1700000000));
    assert_eq!(whole_number("17e8"), Some(1700000000));
    assert_eq!(whole_number("1.23456e3"), Some(1234));
    assert_eq!(whole_number("1.23456e5"), Some(123456));
    assert_eq!(whole_number("1.23456e7"), Some(12345600));
    assert_eq!(whole_number("-1.23456e3"), Some(-1234));
    assert_eq!(whole_number("123456e-3"), Some(123));
    assert_eq!(whole_number("123456e-6"), Some(0));
    assert_eq!(whole_number("123456e-9"), Some(0));
    assert_eq!(whole_number("-123456e-2"), Some(-1234));
    assert_eq!(whole_number("1234.5678e-2"), Some(12));
    assert_eq!(whole_number("1234.5678e2"), Some(123456));
    assert_eq!(whole_number(".5e1"), Some(5));
    assert_eq!(whole_number("5.e1"), Some(50));
    assert_eq!(whole_number("0e0"), Some(0));
    assert_eq!(whole_number("12e0"), Some(12));
    assert_eq!(whole_number("12e-0"), Some(12));
    assert_eq!(whole_number("00012e0003"), Some(12000));
}

#[test]
fn whole_number_rejects_a_broken_exponent() {
    assert_eq!(whole_number("1e"), None);
    assert_eq!(whole_number("1e+"), None);
    assert_eq!(whole_number("1e-"), None);
    assert_eq!(whole_number("e5"), None);
    assert_eq!(whole_number(".e5"), None);
    assert_eq!(whole_number("-e5"), None);
    assert_eq!(whole_number("1e5.0"), None);
    assert_eq!(whole_number("1e5e5"), None);
    assert_eq!(whole_number("1e 5"), None);
    assert_eq!(whole_number("1e++5"), None);
    assert_eq!(whole_number("1x5"), None);
}

#[test]
fn whole_number_with_exponents_beyond_any_range() {
    assert_eq!(whole_number("1e18"), Some(1000000000000000000));
    assert_eq!(whole_number("9.223372036854775807e18"), Some(i64::MAX));
    assert_eq!(whole_number("-9.223372036854775808e18"), Some(i64::MIN));
    assert_eq!(whole_number("9.223372036854775808e18"), None);
    assert_eq!(whole_number("1e19"), None);
    assert_eq!(whole_number("1e400"), None);
    assert_eq!(whole_number("1e99999999999999999999999999999999999999999999"), None);
    assert_eq!(whole_number("0e99999999999999999999999999999999999999999999"), Some(0));
    assert_eq!(whole_number("0.000e99999999999999999999999999999999999999999999"), Some(0));
    assert_eq!(whole_number("1e-99999999999999999999999999999999999999999999"), Some(0));
    assert_eq!(whole_number("-1e-400"), Some(0));
    assert_eq!(whole_number("0.0000000000000000000000001e25"), Some(1));
    assert_eq!(whole_number("10000000000000000000000000e-25"), Some(1));
    assert_eq!(whole_number("10000000000000000000000000e-7"), Some(1000000000000000000));
    assert_eq!(whole_number("10000000000000000000000000e-6"), None);
}

#[test]
fn whole_number_agrees_with_float_parsing_and_truncation() {
    let samples = [
        "0", "7", "-7", "+7", "1700000000", "1700000000.0", "1700000000.25", "-1700000000.75",
        "5.", ".5", "-.5", "0.999", "12.5", "1e9", "1.7E9", "17e8", "1.5e1", "15e-1", "-15e-1",
        "123456789e-4", "0.000123e6", "86399.999", "4102444800", "253402300799.5",
        "000000000000000000001", "1e0", "1e-1", "2.5e-1", "9007199254740991",
    ];
    for sample in samples {
        let float: f64 = sample.parse().unwrap();
        assert_eq!(whole_number(sample), Some(float.trunc() as i64), "{}", sample);
    }
    for sample in ["", ".", "+", "-", "e", "e5", "1e", "abc", "1.2.3", "1 ", " 1", "1e+"] {
        assert!(sample.parse::<f64>().is_err());
        assert_eq!(whole_number(sample), None, "{:?}", sample);
    }
}
