use squid_dashboard::numeric::{parse_u64, to_decimal};
use squid_dashboard::text::text_byte_len;
use squid_dashboard::validation::matches_name_pattern;

#[test]
fn decimal_rendering_matches_to_string() {
    for n in [0u64, 7, 10, 99, 100, 1234567890, 18446744073709551615] {
        assert_eq!(to_decimal(n), n.to_string());
    }
}

#[test]
fn decimal_of_a_snowflake() {
    assert_eq!(to_decimal(987654321012345678), "987654321012345678");
}

#[test]
fn parse_reads_digits_with_optional_plus() {
    assert_eq!(parse_u64("42"), Some(42));
    assert_eq!(parse_u64("+42"), Some(42));
    assert_eq!(parse_u64("00012"), Some(12));
    assert_eq!(parse_u64("18446744073709551615"), Some(u64::MAX));
}

#[test]
fn parse_refuses_what_std_refuses() {
    for s in ["", "+", "-5", "12a", " 1", "1 ", "++1", "18446744073709551616", "99999999999999999999", "1.0", "٣"] {
        assert_eq!(parse_u64(s), None, "{:?}", s);
        assert!(s.parse::<u64>().is_err());
    }
}

#[test]
fn parse_agrees_with_std() {
    for s in ["0", "+0", "000", "4294967296", "+18446744073709551615", "123456789012345678"] {
        assert_eq!(parse_u64(s), s.parse::<u64>().ok(), "{:?}", s);
    }
}

#[test]
fn parse_reads_back_rendering() {
    for n in [0u64, 1, 9, 10, 65535, 4294967295, 18446744073709551615] {
        assert_eq!(parse_u64(&to_decimal(n)), Some(n));
    }
}

#[test]
fn byte_length_counts_utf8_bytes() {
    assert_eq!(text_byte_len(&"hello".to_string()), 5);
    assert_eq!(text_byte_len(&"héllo".to_string()), 6);
    assert_eq!(text_byte_len(&"日本".to_string()), 6);
    assert_eq!(text_byte_len(&"🦑".to_string()), 4);
    assert_eq!(text_byte_len(&String::new()), 0);
}

#[test]
fn name_pattern_on_ascii() {
    assert!(matches_name_pattern("hello-world_1"));
    assert!(matches_name_pattern("Hello"));
    assert!(matches_name_pattern("a"));
    assert!(matches_name_pattern(&"x".repeat(32)));
    assert!(!matches_name_pattern(&"x".repeat(33)));
    assert!(!matches_name_pattern(""));
    assert!(!matches_name_pattern("hello world"));
    assert!(!matches_name_pattern("hi!"));
    assert!(!matches_name_pattern("a.b"));
}

#[test]
fn name_pattern_on_unicode() {
    assert!(matches_name_pattern("héllo"));
    assert!(matches_name_pattern("日本語"));
    assert!(matches_name_pattern("नमस्ते"));
    assert!(matches_name_pattern("สวัสดี"));
    assert!(matches_name_pattern("x²"));
    assert!(!matches_name_pattern("🦑"));
    assert!(!matches_name_pattern(&"é".repeat(33)));
    assert!(matches_name_pattern(&"é".repeat(32)));
}
