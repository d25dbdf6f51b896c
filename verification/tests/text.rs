use rusty_shell::text::{concat_all, is_whitespace, join, parse_i32, str_eq, to_chars, trim};

fn strings(parts: &[&str]) -> Vec<String> {
    parts.iter().map(|p| p.to_string()).collect()
}

#[test]
fn whitespace_is_what_the_standard_library_says() {
    for code in 0..=0x10ffffu32 {
        if let Some(c) = char::from_u32(code) {
            assert_eq!(is_whitespace(c), c.is_whitespace(), "U+{:04X}", code);
        }
    }
}

#[test]
fn str_eq_compares_contents() {
    assert!(str_eq("", ""));
    assert!(str_eq("abc", "abc"));
    assert!(str_eq("héllo", "héllo"));
    assert!(!str_eq("abc", "abd"));
    assert!(!str_eq("abc", "ab"));
    assert!(!str_eq("é", "e"));
}

#[test]
fn to_chars_lists_the_characters() {
    assert_eq!(to_chars("aé\u{1F600}"), vec!['a', 'é', '\u{1F600}']);
    assert_eq!(to_chars(""), Vec::<char>::new());
}

#[test]
fn concat_runs_together() {
    assert_eq!(concat_all(&strings(&["ab", "", "c"])), "abc");
    assert_eq!(concat_all(&strings(&[])), "");
}

#[test]
fn join_separates() {
    assert_eq!(join(&strings(&["a", "b", "c"]), " "), "a b c");
    assert_eq!(join(&strings(&["a"]), " "), "a");
    assert_eq!(join(&strings(&[]), " "), "");
    assert_eq!(join(&strings(&["", "x", ""]), ", "), ", x, ");
}

#[test]
fn trim_takes_whitespace_off_both_ends() {
    assert_eq!(trim("  echo  hi \n"), "echo  hi");
    assert_eq!(trim("echo"), "echo");
    assert_eq!(trim(" \t\n"), "");
    assert_eq!(trim(""), "");
    assert_eq!(trim("\u{a0}x\u{3000}"), "x");
    for line in ["  a b  ", "\r\nx\r\n", "a\\ ", " ' ' "] {
        assert_eq!(trim(line), line.trim());
    }
}

#[test]
fn parse_i32_reads_decimal() {
    assert_eq!(parse_i32("0"), Some(0));
    assert_eq!(parse_i32("3"), Some(3));
    assert_eq!(parse_i32("+17"), Some(17));
    assert_eq!(parse_i32("-17"), Some(-17));
    assert_eq!(parse_i32("000123"), Some(123));
    assert_eq!(parse_i32("-0"), Some(0));
    assert_eq!(parse_i32("2147483647"), Some(i32::MAX));
    assert_eq!(parse_i32("-2147483648"), Some(i32::MIN));
    assert_eq!(parse_i32("00000000000000000000000042"), Some(42));
}

#[test]
fn parse_i32_rejects_the_rest() {
    for text in [
        "", "+", "-", "abc", "1a", "a1", " 1", "1 ", "--1", "+-1", "1_000", "1.0", "0x10",
        "2147483648", "-2147483649", "99999999999999999999999", "١٢٣",
    ] {
        assert_eq!(parse_i32(text), None, "{:?}", text);
    }
}

#[test]
fn parse_i32_agrees_with_the_standard_library() {
    let samples = [
        "", "+", "-", "0", "-0", "+0", "7", "-7", "+7", "007", "12345", "-12345", "2147483647",
        "2147483648", "-2147483648", "-2147483649", "4294967296", "1e3", "１２", "12 ", " 12",
        "1-2", "+-3", "9223372036854775808", "-9223372036854775809",
    ];
    for text in samples {
        assert_eq!(parse_i32(text), text.parse::<i32>().ok(), "{:?}", text);
    }
    for value in (-70000..70000).step_by(7) {
        let text = format!("{}", value);
        assert_eq!(parse_i32(&text), Some(value));
    }
}
