use otp_auth::text::{
    chars_of, concat2, concat3, contains_char, contains_str, i64_to_string, parse_i64, parse_u8,
    str_eq, string_of, u64_to_string,
};

#[test]
fn chars_and_strings_round_trip() {
    assert_eq!(chars_of("héllo"), vec!['h', 'é', 'l', 'l', 'o']);
    assert_eq!(string_of(&vec!['a', '日', 'b']), "a日b");
    assert_eq!(string_of(&chars_of("")), "");
}

#[test]
fn decimal_writing_matches_std() {
    for n in [0u64, 1, 9, 10, 11, 99, 100, 12345, u64::MAX] {
        assert_eq!(u64_to_string(n), n.to_string());
    }
    for i in [0i64, 1, -1, 9, -9, 10, -10, 900, i64::MAX, i64::MIN, i64::MIN + 1] {
        assert_eq!(i64_to_string(i), i.to_string());
    }
}

#[test]
fn parse_i64_matches_std() {
    let cases = [
        "0", "1", "-1", "+1", "007", "-007", "+0", "-0", "", "-", "+", "--1", "+-1", "1-",
        "12a", "a12", " 1", "1 ", "1_000", "9223372036854775807", "9223372036854775808",
        "-9223372036854775808", "-9223372036854775809", "18446744073709551615",
        "18446744073709551616", "99999999999999999999999999", "-99999999999999999999999999",
        "000000000000000000000000000000001", "１２", "1.0", "0x10",
    ];
    for s in cases {
        assert_eq!(parse_i64(s), s.parse::<i64>().ok(), "input {:?}", s);
    }
}

#[test]
fn parse_u8_matches_std() {
    let cases = [
        "0", "1", "+1", "-1", "-0", "255", "256", "0255", "+255", "+256", "", "+", "-", "1a",
        "999999999999999999999999", "00000000000000000000000000000000012",
    ];
    for s in cases {
        assert_eq!(parse_u8(s), s.parse::<u8>().ok(), "input {:?}", s);
    }
}

#[test]
fn reading_a_written_number_gives_it_back() {
    for i in [0i64, 5, -5, 1431648000, i64::MAX, i64::MIN] {
        assert_eq!(parse_i64(&i64_to_string(i)), Some(i));
    }
}

#[test]
fn comparing_and_joining() {
    assert!(str_eq("abc", "abc"));
    assert!(!str_eq("abc", "abd"));
    assert!(!str_eq("abc", "ab"));
    assert_eq!(concat2("ab", "cd"), "abcd");
    assert_eq!(concat3("a", "", "c"), "ac");
}

#[test]
fn searching() {
    assert!(contains_char("a@b", '@'));
    assert!(!contains_char("ab", '@'));
    assert!(!contains_char("", '@'));
    assert!(contains_str("xxNotAuthorizedExceptionyy", "NotAuthorizedException"));
    assert!(contains_str("abc", ""));
    assert!(contains_str("", ""));
    assert!(contains_str("abc", "abc"));
    assert!(contains_str("abc", "bc"));
    assert!(contains_str("aab", "ab"));
    assert!(!contains_str("abc", "abcd"));
    assert!(!contains_str("abc", "ac"));
    assert!(!contains_str("", "a"));
}
