use locked_ft::text::{format_title, is_valid_symbol, remove_trailing_zeros};

#[test]
pub fn test_remove_trailing_zeros() {
    assert_eq!(remove_trailing_zeros(1000), "1");
    assert_eq!(remove_trailing_zeros(1200), "12");
    assert_eq!(remove_trailing_zeros(1230), "123");
    assert_eq!(remove_trailing_zeros(1234), "1234");
    assert_eq!(remove_trailing_zeros(1), "0001");
    assert_eq!(remove_trailing_zeros(10), "001");
    assert_eq!(remove_trailing_zeros(100), "01");
    assert_eq!(remove_trailing_zeros(1000), "1");
    assert_eq!(remove_trailing_zeros(0), "0");
}

#[test]
fn remove_trailing_zeros_strips_at_most_four() {
    assert_eq!(remove_trailing_zeros(50000), "5");
    assert_eq!(remove_trailing_zeros(100000), "10");
    assert_eq!(remove_trailing_zeros(12345), "12345");
}

#[test]
fn symbols_allow_lowercase_digits_dash_underscore() {
    assert!(is_valid_symbol("wnear_2-x"));
    assert!(is_valid_symbol(""));
    assert!(!is_valid_symbol("wNEAR"));
    assert!(!is_valid_symbol("a b"));
    assert!(!is_valid_symbol("é"));
}

#[test]
fn format_title_drops_white_space() {
    assert_eq!(format_title(" w NEAR\t"), "wNEAR");
    assert_eq!(format_title("a\u{3000}b"), "ab");
    assert_eq!(format_title("abc"), "abc");
}
