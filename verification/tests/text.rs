use better_restic_client::decimal::{append_decimal, format_i32, parse_u64};
use better_restic_client::text::{
    chars_of, contains_text, ends_with, is_whitespace, occurs_in, same_text, starts_with, trim,
};

#[test]
fn characters_of_a_text() {
    assert_eq!(chars_of(""), Vec::<char>::new());
    assert_eq!(chars_of("a\u{e9}\u{1f4a1}"), vec!['a', '\u{e9}', '\u{1f4a1}']);
}

#[test]
fn substring_search() {
    assert!(contains_text("Fatal: repository not found", "repository not found"));
    assert!(contains_text("abc", ""));
    assert!(contains_text("", ""));
    assert!(contains_text("abc", "abc"));
    assert!(contains_text("abc", "c"));
    assert!(contains_text("aab", "ab"));
    assert!(!contains_text("abc", "abcd"));
    assert!(!contains_text("", "a"));
    assert!(!contains_text("abc", "ac"));
    assert!(!contains_text("Password", "password"));
}

#[test]
fn substring_search_agrees_with_std() {
    let texts = ["", "a", "ab", "aab", "abab", "ababa", "h\u{e9}llo w\u{f6}rld", "xxxyxxxy"];
    for text in texts {
        for pattern in texts {
            assert_eq!(contains_text(text, pattern), text.contains(pattern), "{text:?} {pattern:?}");
            assert_eq!(starts_with(text, pattern), text.starts_with(pattern));
            assert_eq!(ends_with(text, pattern), text.ends_with(pattern));
            assert_eq!(same_text(text, pattern), text == pattern);
        }
    }
}

#[test]
fn search_in_characters() {
    let text = chars_of("wrong password or no key found");
    assert!(occurs_in(&text, "password"));
    assert!(occurs_in(&text, ""));
    assert!(occurs_in(&text, "found"));
    assert!(!occurs_in(&text, "founds"));
    assert!(!occurs_in(&Vec::new(), "a"));
}

#[test]
fn prefixes_and_suffixes() {
    assert!(starts_with("restic_backup_r00001.log", "restic_backup"));
    assert!(!starts_with("restic", "restic_backup"));
    assert!(starts_with("abc", ""));
    assert!(ends_with("10MB", "MB"));
    assert!(!ends_with("B", "MB"));
    assert!(ends_with("abc", ""));
}

#[test]
fn white_space_is_the_unicode_property() {
    let mut code: u32 = 0;
    while code <= 0x10ffff {
        if let Some(c) = char::from_u32(code) {
            assert_eq!(is_whitespace(c), c.is_whitespace(), "U+{code:04X}");
        }
        code += 1;
    }
}

#[test]
fn trimming_agrees_with_std() {
    let texts = [
        "",
        " ",
        "   ",
        "a",
        " a",
        "a ",
        "  a b  ",
        "\t\n x \r\n",
        "\u{a0}x\u{2003}",
        "\u{200b}x\u{200b}",
        "\u{3000}\u{3000}",
        " \u{e9} ",
        "fatal: wrong password\n",
    ];
    for text in texts {
        assert_eq!(trim(text), text.trim(), "{text:?}");
    }
}

#[test]
fn unsigned_numbers_are_read_as_std_reads_them() {
    let texts = [
        "",
        "+",
        "-",
        "0",
        "+0",
        "-0",
        "5",
        "+5",
        "-5",
        "++5",
        "5+",
        " 5",
        "5 ",
        "5x",
        "x5",
        "00012",
        "1_000",
        "18446744073709551615",
        "18446744073709551616",
        "+18446744073709551615",
        "99999999999999999999999999",
        "\u{663}",
    ];
    for text in texts {
        assert_eq!(parse_u64(text), text.parse::<u64>().ok(), "{text:?}");
    }
}

#[test]
fn reads_exact_values() {
    assert_eq!(parse_u64("10"), Some(10));
    assert_eq!(parse_u64("18446744073709551615"), Some(u64::MAX));
    assert_eq!(parse_u64("18446744073709551616"), None);
    assert_eq!(parse_u64(""), None);
}

#[test]
fn integers_are_written_as_std_writes_them() {
    let values = [0, 1, 9, 10, 11, 99, 100, 255, -1, -9, -10, -128, 4711, i32::MAX, i32::MIN];
    for value in values {
        assert_eq!(format_i32(value), value.to_string());
    }
}

#[test]
fn appends_decimal_text() {
    let mut text = String::from("n=");
    append_decimal(&mut text, 0);
    append_decimal(&mut text, 1203);
    append_decimal(&mut text, u64::MAX);
    assert_eq!(text, "n=0120318446744073709551615");
}

#[test]
fn writing_then_reading_gives_the_number() {
    let values = [0u64, 7, 10, 1024, 1 << 40, u64::MAX];
    for value in values {
        let mut text = String::new();
        append_decimal(&mut text, value);
        assert_eq!(parse_u64(&text), Some(value));
    }
}
