use keyprod::text::{parse_u64, path_join, str_eq, u64_to_decimal};

#[test]
fn decimal_numbers() {
    assert_eq!(u64_to_decimal(0), "0");
    assert_eq!(u64_to_decimal(7), "7");
    assert_eq!(u64_to_decimal(30), "30");
    assert_eq!(u64_to_decimal(1000), "1000");
    assert_eq!(u64_to_decimal(u64::MAX), u64::MAX.to_string());
}

#[test]
fn parsing_numbers() {
    assert_eq!(parse_u64("5"), Some(5));
    assert_eq!(parse_u64("0"), Some(0));
    assert_eq!(parse_u64("+12"), Some(12));
    assert_eq!(parse_u64("007"), Some(7));
    assert_eq!(parse_u64("18446744073709551615"), Some(u64::MAX));
    assert_eq!(parse_u64("18446744073709551616"), None);
    assert_eq!(parse_u64(""), None);
    assert_eq!(parse_u64("+"), None);
    assert_eq!(parse_u64("-1"), None);
    assert_eq!(parse_u64(" 1"), None);
    assert_eq!(parse_u64("1s"), None);
    for s in ["5", "+5", "", "+", "-0", "99999999999999999999", "12a", "٣"] {
        assert_eq!(parse_u64(s), s.parse::<u64>().ok(), "{s}");
    }
}

#[test]
fn decimal_round_trip() {
    for n in [0u64, 1, 9, 10, 99, 100, 12345, u64::MAX - 1, u64::MAX] {
        assert_eq!(parse_u64(&u64_to_decimal(n)), Some(n));
    }
}

#[test]
fn joining_paths() {
    assert_eq!(path_join("/var/lib/keyprod/", "history.db"), "/var/lib/keyprod/history.db");
    assert_eq!(path_join("/var/lib/keyprod", "history.db"), "/var/lib/keyprod/history.db");
    assert_eq!(path_join("", "history.db"), "history.db");
    assert_eq!(path_join("/var", "/tmp/x.db"), "/tmp/x.db");
    for (a, b) in [("/a/b", "c"), ("a/", "c/d"), ("", "/x"), ("x", "")] {
        let expected = std::path::Path::new(a).join(b);
        assert_eq!(path_join(a, b), expected.to_str().unwrap());
    }
}

#[test]
fn comparing_strings() {
    assert!(str_eq("echo", "echo"));
    assert!(!str_eq("echo", "echo "));
    assert!(!str_eq("echo", "Echo"));
    assert!(str_eq("", ""));
}
