use cosmos_client::text::{
    chars_le, chars_of, i64_to_string, owned, parse_signed, parse_unsigned, replace_all, split_second, str_contains,
    str_eq, trim, u64_to_string,
};

#[test]
fn formats_numbers_like_display() {
    assert_eq!(u64_to_string(0), "0");
    assert_eq!(u64_to_string(1337), "1337");
    assert_eq!(u64_to_string(u64::MAX), u64::MAX.to_string());
    assert_eq!(i64_to_string(-42), "-42");
    assert_eq!(i64_to_string(i64::MIN), i64::MIN.to_string());
    assert_eq!(i64_to_string(i64::MAX), i64::MAX.to_string());
}

#[test]
fn parses_numbers_like_str_parse() {
    assert_eq!(parse_unsigned("65535", 65535), Some(65535));
    assert_eq!(parse_unsigned("65536", 65535), None);
    assert_eq!(parse_unsigned("+12", 65535), Some(12));
    assert_eq!(parse_unsigned("", 65535), None);
    assert_eq!(parse_unsigned("+", 65535), None);
    assert_eq!(parse_unsigned("1a", 65535), None);
    assert_eq!(parse_unsigned("-1", 65535), None);
    assert_eq!(parse_signed("-9223372036854775808", i64::MIN, i64::MAX), Some(i64::MIN));
    assert_eq!(parse_signed("9223372036854775808", i64::MIN, i64::MAX), None);
    assert_eq!(parse_signed("-", i64::MIN, i64::MAX), None);
    assert_eq!(parse_signed("-2147483649", i32::MIN as i64, i32::MAX as i64), None);
    assert_eq!(parse_signed("+7", i32::MIN as i64, i32::MAX as i64), Some(7));
}

#[test]
fn parse_reads_back_what_format_wrote() {
    for n in [i64::MIN, -1000, -1, 0, 9, 10, 99, 100, 123456789, i64::MAX] {
        assert_eq!(parse_signed(&i64_to_string(n), i64::MIN, i64::MAX), Some(n));
    }
    for n in [0u64, 1, 10, 4096, u64::MAX] {
        assert_eq!(parse_unsigned(&u64_to_string(n), u64::MAX), Some(n));
    }
}

#[test]
fn replaces_like_str_replace() {
    assert_eq!(replace_all("a b  c", " ", "_"), "a_b__c");
    assert_eq!(replace_all("localhost:80", "localhost", "127.0.0.1"), "127.0.0.1:80");
    assert_eq!(replace_all("aaa", "aa", "b"), "ba");
    assert_eq!(replace_all("KeyA", "Key", ""), "A");
    assert_eq!(replace_all("", "x", "y"), "");
}

#[test]
fn trims_unicode_whitespace() {
    assert_eq!(trim("  hi there \t\n"), "hi there");
    assert_eq!(trim("\u{3000}x\u{a0}"), "x");
    assert_eq!(trim("   "), "");
}

#[test]
fn splits_out_the_second_piece() {
    assert_eq!(split_second("Port: 1234", "Port: "), Some("1234".to_string()));
    assert_eq!(split_second("a Port: 1 Port: 2", "Port: "), Some("1 ".to_string()));
    assert_eq!(split_second("nothing here", "Port: "), None);
    assert_eq!(split_second("Port: ", "Port: "), Some(String::new()));
}

#[test]
fn compares_and_searches_text() {
    assert!(str_eq("abc", "abc"));
    assert!(!str_eq("abc", "abd"));
    assert!(str_contains("hello world", "o w"));
    assert!(!str_contains("hello", "hello!"));
    assert!(str_contains("x", ""));
    assert_eq!(owned("é"), "é");
    assert_eq!(chars_of("héllo").len(), 5);
}

#[test]
fn orders_text_like_str_ord() {
    let a = chars_of("apple");
    let b = chars_of("apples");
    let c = chars_of("banana");
    assert!(chars_le(&a, &b));
    assert!(!chars_le(&b, &a));
    assert!(chars_le(&a, &c));
    assert!(chars_le(&a, &a));
    assert_eq!(chars_le(&chars_of("Z"), &chars_of("a")), "Z" <= "a");
}
