use divera_reports::text::{decimal_string, digit, str_eq};

#[test]
fn digit_reads_the_ten_digits_and_nothing_else() {
    assert_eq!(digit('0'), Some(0));
    assert_eq!(digit('7'), Some(7));
    assert_eq!(digit('9'), Some(9));
    assert_eq!(digit('a'), None);
    assert_eq!(digit('.'), None);
    assert_eq!(digit('-'), None);
    assert_eq!(digit('٣'), None);
}

#[test]
fn decimal_string_of_zero() {
    assert_eq!(decimal_string(0), "0");
}

#[test]
fn decimal_string_of_positive_numbers() {
    assert_eq!(decimal_string(5), "5");
    assert_eq!(decimal_string(10), "10");
    assert_eq!(decimal_string(1700000000), "1700000000");
    assert_eq!(decimal_string(i64::MAX), "9223372036854775807");
}

#[test]
fn decimal_string_of_negative_numbers() {
    assert_eq!(decimal_string(-1), "-1");
    assert_eq!(decimal_string(-120), "-120");
    assert_eq!(decimal_string(i64::MIN), "-9223372036854775808");
}

#[test]
fn decimal_string_agrees_with_to_string() {
    for n in [-1000i64, -99, -10, -9, 0, 9, 10, 99, 100, 101, 12345678901] {
        assert_eq!(decimal_string(n), n.to_string());
    }
}

#[test]
fn str_eq_compares_whole_texts() {
    assert!(str_eq("", ""));
    assert!(str_eq("10f05309-e584-4470-a0db-ce6bb15ade34", "10f05309-e584-4470-a0db-ce6bb15ade34"));
    assert!(!str_eq("10f05309-e584-4470-a0db-ce6bb15ade34", "10f05309-e584-4470-a0db-ce6bb15ade35"));
    assert!(!str_eq("abc", "ab"));
    assert!(!str_eq("ab", "abc"));
    assert!(!str_eq("", "a"));
    assert!(!str_eq("abc", "abd"));
    assert!(!str_eq("abc", "ABC"));
}

#[test]
fn str_eq_compares_texts_beyond_ascii() {
    assert!(str_eq("Übung", "Übung"));
    assert!(!str_eq("Übung", "Ubung"));
    assert!(!str_eq("é", "e\u{301}"));
    assert!(str_eq(&String::from("Außer der Reihe"), "Außer der Reihe"));
}
