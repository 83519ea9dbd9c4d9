use taurin::parse::{parse_i32, parse_u32, parse_u8, parse_usize};

#[test]
fn unsigned_numbers_read_like_str_parse() {
    assert_eq!(parse_u32("42"), Some(42));
    assert_eq!(parse_u32("+7"), Some(7));
    assert_eq!(parse_u32("007"), Some(7));
    assert_eq!(parse_u32("4294967295"), Some(u32::MAX));
    assert_eq!(parse_u32("4294967296"), None);
    assert_eq!(parse_u32(""), None);
    assert_eq!(parse_u32("+"), None);
    assert_eq!(parse_u32("-1"), None);
    assert_eq!(parse_u32(" 1"), None);
    assert_eq!(parse_u32("12a"), None);
    assert_eq!(parse_u8("255"), Some(255));
    assert_eq!(parse_u8("256"), None);
    assert_eq!(parse_usize("8"), Some(8));
    assert_eq!(parse_usize("18446744073709551616"), None);
}

#[test]
fn parsers_agree_with_std() {
    let samples = ["0", "1", "+12", "-12", "", "-", "+", "99999999999", "-2147483648", "2147483647", "2147483648", "-2147483649", "1_0", "٣"];
    for s in samples.iter() {
        assert_eq!(parse_u32(s), s.parse::<u32>().ok(), "u32 {}", s);
        assert_eq!(parse_i32(s), s.parse::<i32>().ok(), "i32 {}", s);
        assert_eq!(parse_u8(s), s.parse::<u8>().ok(), "u8 {}", s);
        assert_eq!(parse_usize(s), s.parse::<usize>().ok(), "usize {}", s);
    }
}

#[test]
fn signed_numbers() {
    assert_eq!(parse_i32("-100"), Some(-100));
    assert_eq!(parse_i32("-2147483648"), Some(i32::MIN));
    assert_eq!(parse_i32("-2147483649"), None);
    assert_eq!(parse_i32("+5"), Some(5));
    assert_eq!(parse_i32("-"), None);
}
