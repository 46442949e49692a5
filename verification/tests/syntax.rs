use rtsp::number::{format_decimal, parse_decimal};
use rtsp::syntax::{
    bytes_eq, index_of, is_alphanumeric, is_digit, is_quoted_string, is_token, is_token_char,
    is_whitespace, lower_byte, to_ascii_lowercase, trim_whitespace,
};

#[test]
fn token_characters_are_letters_digits_and_some_punctuation() {
    for byte in b"abcxyzABCXYZ0123456789!#$%&'*+-.^_`|~".iter() {
        assert!(is_token_char(*byte), "{}", *byte as char);
    }
    for byte in b" \t\r\n\"(),/:;<=>?@[\\]{}\x7f\x00\x80\xff".iter() {
        assert!(!is_token_char(*byte), "{}", *byte);
    }
}

#[test]
fn token_is_one_or_more_token_characters() {
    assert!(is_token(b"DESCRIBE"));
    assert!(is_token(b"x"));
    assert!(!is_token(b""));
    assert!(!is_token(b"two words"));
    assert!(!is_token(b"colon:"));
}

#[test]
fn character_classes() {
    assert!(is_digit(b'0') && is_digit(b'9') && !is_digit(b'a') && !is_digit(b'/'));
    assert!(is_alphanumeric(b'z') && is_alphanumeric(b'A') && !is_alphanumeric(b'-'));
    assert!(is_whitespace(b' ') && is_whitespace(b'\t') && !is_whitespace(b'\n'));
}

#[test]
fn lowercase_moves_capital_letters_only() {
    assert_eq!(lower_byte(b'A'), b'a');
    assert_eq!(lower_byte(b'Z'), b'z');
    assert_eq!(lower_byte(b'@'), b'@');
    assert_eq!(lower_byte(b'['), b'[');
    assert_eq!(to_ascii_lowercase(b"Content-Length_09"), b"content-length_09".to_vec());
}

#[test]
fn trim_removes_spaces_and_tabs_on_both_sides() {
    assert_eq!(trim_whitespace(b"  \t 42 \t"), b"42");
    assert_eq!(trim_whitespace(b"a b"), b"a b");
    assert_eq!(trim_whitespace(b" \t "), b"");
    assert_eq!(trim_whitespace(b""), b"");
    assert_eq!(trim_whitespace(b"\n x"), b"\n x");
}

#[test]
fn index_of_finds_the_first_occurrence() {
    assert_eq!(index_of(b"a:b:c", b':'), 1);
    assert_eq!(index_of(b"abc", b':'), 3);
    assert_eq!(index_of(b"", b':'), 0);
}

#[test]
fn bytes_compare_by_content() {
    assert!(bytes_eq(b"abc", b"abc"));
    assert!(!bytes_eq(b"abc", b"abd"));
    assert!(!bytes_eq(b"abc", b"ab"));
    assert!(bytes_eq(b"", b""));
}

#[test]
fn decimal_numbers_are_written_without_leading_zeros() {
    assert_eq!(format_decimal(0), b"0".to_vec());
    assert_eq!(format_decimal(7), b"7".to_vec());
    assert_eq!(format_decimal(10), b"10".to_vec());
    assert_eq!(format_decimal(9_999_999_999_999_999_999), b"9999999999999999999".to_vec());
    assert_eq!(format_decimal(u64::MAX), b"18446744073709551615".to_vec());
}

#[test]
fn decimal_numbers_are_read_up_to_a_number_of_digits() {
    assert_eq!(parse_decimal(b"0", 19), Some(0));
    assert_eq!(parse_decimal(b"0042", 19), Some(42));
    assert_eq!(parse_decimal(b"9999999999999999999", 19), Some(9_999_999_999_999_999_999));
    assert_eq!(parse_decimal(b"10000000000000000000", 19), None);
    assert_eq!(parse_decimal(b"1234", 3), None);
    assert_eq!(parse_decimal(b"", 19), None);
    assert_eq!(parse_decimal(b"+1", 19), None);
    assert_eq!(parse_decimal(b"1 ", 19), None);
    assert_eq!(parse_decimal(b"12a", 19), None);
}

#[test]
fn decimal_round_trip_on_some_numbers() {
    for number in [0u64, 1, 9, 10, 99, 100, 12345, 999_999_999, 1_000_000_000].iter() {
        assert_eq!(parse_decimal(&format_decimal(*number), 19), Some(*number));
    }
}

#[test]
fn quoted_string_is_text_between_double_quotes() {
    assert!(is_quoted_string(b"\"\""));
    assert!(is_quoted_string(b"\"plain text, with (punctuation)!\""));
    assert!(is_quoted_string(b"\"a \\\"quoted\\\" word and a \\\\ backslash\""));
    assert!(!is_quoted_string(b""));
    assert!(!is_quoted_string(b"\""));
    assert!(!is_quoted_string(b"no quotes"));
    assert!(!is_quoted_string(b"\"open"));
    assert!(!is_quoted_string(b"\"inner \" quote\""));
    assert!(!is_quoted_string(b"\"bad \\escape\""));
    assert!(!is_quoted_string(b"\"ends in backslash\\\""));
    assert!(!is_quoted_string(b"\"tab\there\""));
    assert!(!is_quoted_string(b"\"caf\xc3\xa9\""));
}
