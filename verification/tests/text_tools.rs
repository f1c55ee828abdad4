use plugin_repository::dates::{format_date, format_day};
use plugin_repository::number::{decimal, parse_u32, parse_u64};
use plugin_repository::paths::{components, directories_to_create, parent, relative_path};
use plugin_repository::split::{join, lines, split_on, split_whitespace, trim};
use plugin_repository::text::{
    contains_str, ends_with_str, find, from_chars, rfind, same_str, slice, starts_with_str, to_chars,
};

fn chars(s: &str) -> Vec<char> {
    s.chars().collect()
}

fn text(v: &Vec<char>) -> String {
    v.iter().collect()
}

fn texts(v: &Vec<Vec<char>>) -> Vec<String> {
    v.iter().map(text).collect()
}

#[test]
fn text_goes_to_characters_and_back() {
    assert_eq!(to_chars("héllo 🚀"), chars("héllo 🚀"));
    assert_eq!(from_chars(&chars("héllo 🚀")), "héllo 🚀");
    assert_eq!(from_chars(&Vec::new()), "");
    assert_eq!(slice(&chars("abcdef"), 2, 4), chars("cd"));
    assert!(same_str("я", "я"));
    assert!(!same_str("a", "ab"));
}

#[test]
fn parts_of_text_are_found() {
    let s = chars("abcabc");
    assert_eq!(find(&s, &chars("bc")), Some(1));
    assert_eq!(rfind(&s, &chars("bc")), Some(4));
    assert_eq!(find(&s, &chars("")), Some(0));
    assert_eq!(rfind(&s, &chars("")), Some(6));
    assert_eq!(find(&s, &chars("cb")), None);
    assert_eq!(rfind(&s, &chars("abcabcd")), None);
    assert_eq!(find(&chars(""), &chars("")), Some(0));
    assert!(contains_str(&s, "cab"));
    assert!(!contains_str(&s, "cc"));
    assert!(starts_with_str(&s, "abc"));
    assert!(!starts_with_str(&s, "bc"));
    assert!(ends_with_str(&s, "bc"));
    assert!(!ends_with_str(&s, "abcabca"));
}

#[test]
fn text_is_split_and_joined() {
    assert_eq!(texts(&split_on(&chars("a|b||c|"), '|')), vec!["a", "b", "", "c", ""]);
    assert_eq!(texts(&split_on(&chars(""), '|')), vec![""]);
    assert_eq!(texts(&lines(&chars("a\r\nb\n\nc\r"))), vec!["a", "b", "", "c\r"]);
    assert_eq!(texts(&lines(&chars("a\n"))), vec!["a"]);
    assert_eq!(texts(&lines(&chars("\n"))), vec![""]);
    assert!(lines(&chars("")).is_empty());
    assert_eq!(texts(&split_whitespace(&chars("  a\tb\u{a0}c \n"))), vec!["a", "b", "c"]);
    assert!(split_whitespace(&chars(" \t ")).is_empty());
    assert_eq!(text(&trim(&chars(" \u{3000}a b\r\n"))), "a b");
    assert_eq!(text(&trim(&chars("   "))), "");
    assert_eq!(text(&join(&vec![chars("a"), chars(""), chars("b")], &chars(", "))), "a, , b");
    assert_eq!(text(&join(&Vec::new(), &chars(", "))), "");
}

#[test]
fn lines_agree_with_the_standard_library() {
    for s in ["", "a", "a\n", "a\r\n", "\r\n\r\n", "a\rb\n", "\n\na", "a\n\r", "x\r\n\ny\r"] {
        let expected: Vec<String> = s.lines().map(|l| l.to_string()).collect();
        assert_eq!(texts(&lines(&chars(s))), expected, "{:?}", s);
        let words: Vec<String> = s.split_whitespace().map(|l| l.to_string()).collect();
        assert_eq!(texts(&split_whitespace(&chars(s))), words, "{:?}", s);
        assert_eq!(text(&trim(&chars(s))), s.trim(), "{:?}", s);
    }
}

#[test]
fn numbers_are_read_and_written() {
    assert_eq!(parse_u32(&chars("0")), Some(0));
    assert_eq!(parse_u32(&chars("+42")), Some(42));
    assert_eq!(parse_u32(&chars("007")), Some(7));
    assert_eq!(parse_u32(&chars("4294967295")), Some(4294967295));
    assert_eq!(parse_u32(&chars("4294967296")), None);
    assert_eq!(parse_u32(&chars("")), None);
    assert_eq!(parse_u32(&chars("+")), None);
    assert_eq!(parse_u32(&chars("-1")), None);
    assert_eq!(parse_u32(&chars("1 ")), None);
    assert_eq!(parse_u32(&chars("１")), None);
    assert_eq!(parse_u64(&chars("18446744073709551615")), Some(u64::MAX));
    assert_eq!(parse_u64(&chars("18446744073709551616")), None);
    assert_eq!(parse_u64(&chars("99999999999999999999999")), None);
    assert_eq!(text(&decimal(0)), "0");
    assert_eq!(text(&decimal(10)), "10");
    assert_eq!(text(&decimal(u128::MAX)), "340282366920938463463374607431768211455");
}

#[test]
fn dates_are_written_as_days() {
    assert_eq!(text(&format_date(0)), "1970-01-01");
    assert_eq!(text(&format_date(1709164800)), "2024-02-29");
    assert_eq!(text(&format_date(-1)), "1969-12-31");
    assert_eq!(text(&format_date(253402300800)), "+10000-01-01");
    assert_eq!(text(&format_date(i64::MAX)), "");
    assert_eq!(text(&format_day(7, 3, 9)), "0007-03-09");
    assert_eq!(text(&format_day(-44, 3, 15)), "-0044-03-15");
}

#[test]
fn paths_are_taken_apart() {
    assert_eq!(texts(&components(&chars("/var//www/./repo/"))), vec!["/", "var", "www", "repo"]);
    assert_eq!(texts(&components(&chars("./a/../b"))), vec![".", "a", "..", "b"]);
    assert_eq!(texts(&components(&chars("a/./b"))), vec!["a", "b"]);
    assert!(components(&chars("")).is_empty());
    assert_eq!(texts(&parent(&chars("/var/www/index.xml"))), vec!["/", "var", "www"]);
    assert_eq!(texts(&parent(&chars("/"))), vec!["/"]);
    assert_eq!(texts(&parent(&chars(""))), vec!["/"]);
    assert!(parent(&chars("index.xml")).is_empty());
    assert_eq!(
        relative_path(&chars("/var/www/index.xml"), &chars("/var/www/plugins/a")).map(|v| text(&v)),
        Some("plugins/a".to_string())
    );
    assert_eq!(relative_path(&chars("/var/www/index.xml"), &chars("/var/www")), None);
    assert_eq!(relative_path(&chars("/var/www/index.xml"), &chars("/srv")), None);
    assert_eq!(
        relative_path(&chars("index.xml"), &chars("plugins")).map(|v| text(&v)),
        Some("plugins".to_string())
    );
    assert_eq!(
        texts(&directories_to_create(&chars("/var/www/../repo/./x"))),
        vec!["/var", "/var/www", "/var/www/repo", "/var/www/repo/x"]
    );
    assert_eq!(texts(&directories_to_create(&chars("a/b"))), vec!["a", "a/b"]);
    assert!(directories_to_create(&chars("/")).is_empty());
}
