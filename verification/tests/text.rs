use spectacles::text::{
    ends_with, i64_to_string, parse_i64, parse_u64, replace, starts_with, str_eq, u64_to_string,
};

#[test]
fn parse_u64_accepts_what_std_accepts() {
    assert_eq!(parse_u64("0"), Some(0));
    assert_eq!(parse_u64("+17"), Some(17));
    assert_eq!(parse_u64("007"), Some(7));
    assert_eq!(parse_u64("18446744073709551615"), Some(u64::MAX));
    for s in ["", "+", "-1", "1a", " 1", "18446744073709551616", "１"] {
        assert_eq!(parse_u64(s), s.parse::<u64>().ok(), "{}", s);
    }
}

#[test]
fn parse_i64_accepts_what_std_accepts() {
    assert_eq!(parse_i64("-9223372036854775808"), Some(i64::MIN));
    assert_eq!(parse_i64("9223372036854775807"), Some(i64::MAX));
    assert_eq!(parse_i64("+5"), Some(5));
    assert_eq!(parse_i64("-0"), Some(0));
    for s in ["", "-", "+", "9223372036854775808", "-9223372036854775809", "1.5", "--1"] {
        assert_eq!(parse_i64(s), s.parse::<i64>().ok(), "{}", s);
    }
}

#[test]
fn decimal_text_of_numbers() {
    assert_eq!(u64_to_string(0), "0");
    assert_eq!(u64_to_string(1234567890), "1234567890");
    assert_eq!(u64_to_string(u64::MAX), u64::MAX.to_string());
    assert_eq!(i64_to_string(-42), "-42");
    assert_eq!(i64_to_string(i64::MIN), i64::MIN.to_string());
    assert_eq!(i64_to_string(7), "7");
}

#[test]
fn decimal_text_parses_back() {
    for n in [0u64, 9, 10, 99, 100, 81_384_788_765_712_384, u64::MAX] {
        assert_eq!(parse_u64(&u64_to_string(n)), Some(n));
    }
}

#[test]
fn prefixes_suffixes_and_equality() {
    assert!(starts_with("Bot abc", "Bot "));
    assert!(!starts_with("Bo", "Bot "));
    assert!(starts_with("x", ""));
    assert!(ends_with("config.json", ".json"));
    assert!(!ends_with("json", ".json"));
    assert!(str_eq("DELETE", "DELETE"));
    assert!(!str_eq("DELETE", "DELET"));
}

#[test]
fn replace_every_occurrence() {
    assert_eq!(replace("Thu, 01 Jan 1970 00:00:00 GMT", "GMT", "+0000"), "Thu, 01 Jan 1970 00:00:00 +0000");
    assert_eq!(replace("aaa", "aa", "b"), "aaa".replace("aa", "b"));
    assert_eq!(replace("none here", "GMT", "x"), "none here");
    assert_eq!(replace("GMTGMT", "GMT", ""), "");
}
