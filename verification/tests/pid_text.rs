use celestial_service::pid::{parse_pid, pid_text};

#[test]
fn parse_plain_number() {
    assert_eq!(parse_pid("1234"), Some(1234));
}

#[test]
fn parse_trims_whitespace() {
    assert_eq!(parse_pid("  42\n"), Some(42));
    assert_eq!(parse_pid("\t\r\n 7 \t"), Some(7));
    assert_eq!(parse_pid("\u{3000}12\u{a0}"), Some(12));
    assert_eq!(parse_pid("\u{2009}5\u{85}"), Some(5));
}

#[test]
fn parse_accepts_plus_sign_and_leading_zeros() {
    assert_eq!(parse_pid("+7"), Some(7));
    assert_eq!(parse_pid("007"), Some(7));
    assert_eq!(parse_pid("0"), Some(0));
}

#[test]
fn parse_rejects_non_numbers() {
    assert_eq!(parse_pid(""), None);
    assert_eq!(parse_pid("   "), None);
    assert_eq!(parse_pid("+"), None);
    assert_eq!(parse_pid("-1"), None);
    assert_eq!(parse_pid("12a"), None);
    assert_eq!(parse_pid("1 2"), None);
    assert_eq!(parse_pid("++1"), None);
    assert_eq!(parse_pid("abc"), None);
    assert_eq!(parse_pid("\u{200b}1"), None);
}

#[test]
fn parse_bounds_of_u32() {
    assert_eq!(parse_pid("4294967295"), Some(u32::MAX));
    assert_eq!(parse_pid("4294967296"), None);
    assert_eq!(parse_pid("99999999999999999999"), None);
    assert_eq!(parse_pid("000000000004294967295"), Some(u32::MAX));
}

#[test]
fn parse_agrees_with_std() {
    for s in ["", " 1", "+0", "-0", "18446744073709551616", " \u{1680}9\u{2028}", "1\u{0}", "٣"] {
        assert_eq!(parse_pid(s), s.trim().parse::<u32>().ok(), "input {:?}", s);
    }
}

#[test]
fn pid_text_is_decimal() {
    assert_eq!(pid_text(0), "0");
    assert_eq!(pid_text(9), "9");
    assert_eq!(pid_text(10), "10");
    assert_eq!(pid_text(1234), "1234");
    assert_eq!(pid_text(u32::MAX), "4294967295");
}

#[test]
fn pid_text_agrees_with_to_string() {
    for p in [0u32, 1, 99, 100, 65535, 2147483647, 2147483648, u32::MAX] {
        assert_eq!(pid_text(p), p.to_string());
    }
}

#[test]
fn pid_text_round_trip() {
    for p in [0u32, 5, 40, 31337, 1000000, u32::MAX - 1, u32::MAX] {
        assert_eq!(parse_pid(&pid_text(p)), Some(p));
    }
}
