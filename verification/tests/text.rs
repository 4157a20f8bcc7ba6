use mail_filters::text::{decimal, join_strings};
use mail_filters::util::quote;

#[test]
fn decimal_of_small_and_large_numbers() {
    assert_eq!(decimal(0), "0");
    assert_eq!(decimal(7), "7");
    assert_eq!(decimal(9), "9");
    assert_eq!(decimal(10), "10");
    assert_eq!(decimal(17), "17");
    assert_eq!(decimal(100), "100");
    assert_eq!(decimal(1234), "1234");
    assert_eq!(decimal(50607), "50607");
    assert_eq!(decimal(65535), "65535");
}

#[test]
fn decimal_agrees_with_the_standard_library() {
    let mut n: u16 = 0;
    loop {
        assert_eq!(decimal(n), format!("{}", n));
        if n == u16::MAX {
            break;
        }
        n += 1;
    }
}

#[test]
fn join_puts_the_separator_between_neighbours_only() {
    let none: Vec<String> = Vec::new();
    assert_eq!(join_strings(&none, ", "), "");
    assert_eq!(join_strings(&vec!["a".to_owned()], ", "), "a");
    assert_eq!(join_strings(&vec!["a".to_owned(), "b".to_owned(), "c".to_owned()], ", "), "a, b, c");
    assert_eq!(join_strings(&vec!["".to_owned(), "".to_owned()], "-"), "-");
}

#[test]
fn quote_wraps_in_double_quotes() {
    assert_eq!(quote("example").to_string(), "\"example\"");
    assert_eq!(quote("").to_string(), "\"\"");
    assert_eq!(quote("a\"b").to_string(), "\"a\"b\"");
    assert_eq!(quote("x").0, "x");
    assert_eq!(quote("owned".to_owned()).to_string(), "\"owned\"");
}
