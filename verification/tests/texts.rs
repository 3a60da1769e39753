use iwgui::text::{after, decimal_string, numbered, parse_usize, starts_with};

#[test]
fn numbers_are_written_in_decimal() {
    assert_eq!(decimal_string(0), "0");
    assert_eq!(decimal_string(7), "7");
    assert_eq!(decimal_string(10), "10");
    assert_eq!(decimal_string(1207), "1207");
    assert_eq!(decimal_string(usize::MAX), usize::MAX.to_string());
    assert_eq!(numbered("left", 0), "left0");
    assert_eq!(numbered("right", 31), "right31");
    assert_eq!(numbered("", 5), "5");
}

#[test]
fn unsigned_decimal_numbers_are_read() {
    assert_eq!(parse_usize("0"), Some(0));
    assert_eq!(parse_usize("42"), Some(42));
    assert_eq!(parse_usize("+42"), Some(42));
    assert_eq!(parse_usize("0042"), Some(42));
    assert_eq!(parse_usize(&usize::MAX.to_string()), Some(usize::MAX));
    for text in ["", "+", "-", "-1", "++1", "1+", "4 2", " 42", "42 ", "0x10", "1e3", "٣",
        "18446744073709551616", "99999999999999999999", "184467440737095516150"]
    {
        assert_eq!(parse_usize(text), None, "{:?}", text);
        assert_eq!(parse_usize(text), text.parse::<usize>().ok(), "{:?}", text);
    }
    for n in [0usize, 9, 10, 99, 100, 65535, 4294967295] {
        assert_eq!(parse_usize(&decimal_string(n)), Some(n));
    }
}

#[test]
fn prefixes_and_rests() {
    assert!(starts_with("Auto.1", "Auto."));
    assert!(starts_with("Auto.", "Auto."));
    assert!(starts_with("x", ""));
    assert!(!starts_with("Auto", "Auto."));
    assert!(!starts_with("auto.1", "Auto."));
    assert!(starts_with("späť.1", "späť"));
    assert_eq!(after("Auto.1", 5), "1");
    assert_eq!(after("Auto.", 5), "");
    assert_eq!(after("späť.1", 4), ".1");
    assert_eq!(after("abc", 0), "abc");
}
