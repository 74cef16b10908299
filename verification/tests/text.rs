use zephyrfs_cli::text::{
    byte_len_exceeds, contains_str, decimal_string, pad_left_string, pad_right_string,
    repeat_string, str_eq, str_le, take_bytes_string,
};

#[test]
fn decimal_renders_like_format() {
    for n in [0u64, 7, 10, 42, 1000, 65535, 1234567890, u64::MAX] {
        assert_eq!(decimal_string(n), format!("{}", n));
    }
}

#[test]
fn padding_matches_format_widths() {
    for s in ["", "abc", "NAME", "ünïcödé", "a string longer than ten"] {
        assert_eq!(pad_right_string(s, 10), format!("{:<10}", s));
        assert_eq!(pad_left_string(s, 10), format!("{:>10}", s));
    }
    assert_eq!(repeat_string("-", 5), "-----");
}

#[test]
fn substring_search_matches_contains() {
    let hays = ["report.pdf", "", "aaab", "ünïcödé.txt"];
    let needles = ["", "pdf", "ab", "aab", "xyz", "ïc", "report.pdf!"];
    for h in hays {
        for n in needles {
            assert_eq!(contains_str(h, n), h.contains(n), "{:?} in {:?}", n, h);
        }
    }
}

#[test]
fn string_order_matches_str_order() {
    let words = ["", "a", "b", "ab", "abc", "B", "é", "z", "ü", "aé"];
    for a in words {
        for b in words {
            assert_eq!(str_le(a, b), a <= b, "{:?} <= {:?}", a, b);
            assert_eq!(str_eq(a, b), a == b);
        }
    }
}

#[test]
fn byte_cuts_follow_utf8() {
    assert!(byte_len_exceeds("abcdefghi", 8));
    assert!(!byte_len_exceeds("abcdefgh", 8));
    assert!(byte_len_exceeds("ééééé", 8));
    assert_eq!(take_bytes_string("abcdefghij", 8), ("abcdefgh".to_string(), true));
    assert_eq!(take_bytes_string("aéééé", 4), ("aé".to_string(), false));
    assert_eq!(take_bytes_string("aéééé", 5), ("aéé".to_string(), true));
    assert_eq!(take_bytes_string("ab", 8), ("ab".to_string(), false));
}
