use sandbox_server::text::{
    chars_of, decimal_text, join, parse_i32, parse_unsigned, replace, same_text,
    signed_decimal_text, split, split_once, string_of, trim,
};

/// Every character that `char::is_whitespace` takes for white space is trimmed, and no
/// other.
#[test]
fn trimming_knows_all_white_space() {
    for c in '\0'..=char::MAX {
        let s = format!("{c}a{c}b{c}");
        if c.is_whitespace() || c == 'a' || c as u32 % 997 == 0 || (c as u32) < 0x3100 {
            assert_eq!(trim(&s), s.trim(), "{:x}", c as u32);
        }
    }
    assert_eq!(trim(" \t\r\n "), "");
    assert_eq!(trim(""), "");
}

#[test]
fn numbers_parse_as_in_the_standard_library() {
    for s in [
        "", "+", "-", "0", "00", "+7", "-7", "--7", "+-7", "65535", "65536", "4294967295",
        "4294967296", "18446744073709551615", "18446744073709551616", "1 ", " 1", "1_0", "0x1",
        "99999999999999999999999", "\u{663}", "2147483647", "2147483648", "-2147483648",
        "-2147483649", "-0", "+0",
    ] {
        assert_eq!(parse_unsigned(s, u64::MAX), s.parse::<u64>().ok(), "{s}");
        assert_eq!(parse_unsigned(s, u32::MAX as u64), s.parse::<u32>().ok().map(u64::from));
        assert_eq!(parse_unsigned(s, u16::MAX as u64), s.parse::<u16>().ok().map(u64::from));
        assert_eq!(parse_i32(s), s.parse::<i32>().ok(), "{s}");
    }
}

#[test]
fn numbers_are_written_in_decimal() {
    for n in [0, 1, 9, 10, 109, u32::MAX as u64, u64::MAX] {
        assert_eq!(decimal_text(n), n.to_string());
        assert_eq!(parse_unsigned(&decimal_text(n), u64::MAX), Some(n));
    }
    for n in [0, 7, -7, i32::MAX, i32::MIN] {
        assert_eq!(signed_decimal_text(n), n.to_string());
    }
}

#[test]
fn splitting_and_joining_are_inverse() {
    for s in ["", ",", "a", "a,b", ",a,,b,"] {
        let parts = split(s, ',');
        let expected: Vec<&str> = s.split(',').collect();
        assert_eq!(parts, expected);
        assert_eq!(join(&parts, ","), s);
    }
    assert_eq!(join(&Vec::new(), ","), "");
    assert_eq!(join(&vec!["a".to_string(), "b".to_string()], ", "), "a, b");
}

#[test]
fn replacing_goes_from_left_to_right() {
    for (s, pattern, with) in [
        ("", "a", "b"),
        ("aaa", "aa", "b"),
        ("{{code}} {{code}}", "{{code}}", "{{code}}!"),
        ("{{{code}}}", "{{code}}", "x"),
        ("none", "{{code}}", "x"),
        ("äöä", "ä", ""),
    ] {
        assert_eq!(replace(s, pattern, with), s.replace(pattern, with));
    }
}

#[test]
fn splitting_once_takes_the_first_place() {
    for s in ["", "=", "==", "a==b", "a===b", "a==b==c", "=a=="] {
        let expected = s.split_once("==").map(|(a, b)| (a.to_string(), b.to_string()));
        assert_eq!(split_once(s, "=="), expected);
    }
}

#[test]
fn texts_are_sequences_of_characters() {
    let chars = chars_of("aä€𝄞");
    assert_eq!(chars, vec!['a', 'ä', '€', '𝄞']);
    assert_eq!(string_of(&chars, 1, 3), "ä€");
    assert!(same_text("aä", "aä"));
    assert!(!same_text("aä", "aa"));
    assert!(!same_text("a", "aa"));
}
