use gpui_windows::latency::parse;

#[test]
fn queue_limits_reject_invalid_values_instead_of_silently_changing_them() {
    for value in ["", "0", "17", "-1", "fast"] {
        assert_eq!(parse(value), None);
    }
    for value in 1..=16 {
        assert_eq!(parse(&format!(" {value} ")), Some(value));
    }
}

#[test]
fn queue_limit_accepts_plus_sign_and_leading_zeros() {
    assert_eq!(parse("+4"), Some(4));
    assert_eq!(parse("007"), Some(7));
    assert_eq!(parse("\t16\n"), Some(16));
    assert_eq!(parse("\u{3000}2\u{a0}"), Some(2));
}

#[test]
fn queue_limit_rejects_malformed_numbers() {
    for value in ["+", "++1", "1 2", "1.0", "4294967296", "99999999999999999999", " ", "+-1", "٣", "1_0"] {
        assert_eq!(parse(value), None, "{value:?}");
    }
    assert_eq!(parse("4294967295"), None);
    assert_eq!(parse("00000000000000000016"), Some(16));
}
