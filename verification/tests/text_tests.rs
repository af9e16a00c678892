use pydev_core::text::{
    chars_of, contains, decimal_chars, find_char, i64_to_string, lines, parse_uint, split,
    split_once, strip_prefix, string_from, tokens, trim, trim_start, u64_to_string,
    Sep,
};

fn s(v: &Vec<char>) -> String {
    string_from(v)
}

fn all(v: &Vec<Vec<char>>) -> Vec<String> {
    v.iter().map(|x| s(x)).collect()
}

#[test]
fn split_keeps_empty_pieces() {
    assert_eq!(all(&split(&chars_of("a..b"), Sep::Char('.'))), vec!["a", "", "b"]);
    assert_eq!(all(&split(&chars_of(""), Sep::Char('.'))), vec![""]);
    assert_eq!(all(&split(&chars_of("1.2-3"), Sep::Either('.', '-'))), vec!["1", "2", "3"]);
}

#[test]
fn lines_like_str_lines() {
    assert_eq!(all(&lines(&chars_of("a\r\nb\n\nc\n"))), vec!["a", "b", "", "c"]);
    assert_eq!(all(&lines(&chars_of(""))), Vec::<String>::new());
    assert_eq!(all(&lines(&chars_of("x\r"))), vec!["x\r"]);
    assert_eq!(all(&lines(&chars_of("\n"))), vec![""]);
}

#[test]
fn tokens_like_split_whitespace() {
    assert_eq!(all(&tokens(&chars_of("  uv  0.9.2\t(abc)\n"))), vec!["uv", "0.9.2", "(abc)"]);
    assert_eq!(all(&tokens(&chars_of(" \t "))), Vec::<String>::new());
}

#[test]
fn trims() {
    assert_eq!(s(&trim(&chars_of(" \t x y \n"))), "x y");
    assert_eq!(s(&trim_start(&chars_of("vv1.0v"), Sep::Char('v'))), "1.0v");
}

#[test]
fn search_and_prefix() {
    assert!(contains(&chars_of("abc # >>> pydev >>> z"), &chars_of("# >>> pydev >>>")));
    assert!(!contains(&chars_of("abc"), &chars_of("abcd")));
    assert!(contains(&chars_of("abc"), &chars_of("")));
    assert_eq!(strip_prefix(&chars_of("cpython-3.12"), &chars_of("cpython-")).map(|v| s(&v)), Some("3.12".to_string()));
    assert_eq!(strip_prefix(&chars_of("pypy-3.10"), &chars_of("cpython-")), None);
    assert_eq!(find_char(&chars_of("a@b@c"), '@'), Some(1));
    let (a, b) = split_once(&chars_of("ms-python.python@2024.1.0"), '@').unwrap();
    assert_eq!((s(&a), s(&b)), ("ms-python.python".to_string(), "2024.1.0".to_string()));
    assert_eq!(split_once(&chars_of("plain"), '@'), None);
}

#[test]
fn parses_like_str_parse() {
    assert_eq!(parse_uint(&chars_of("42"), u32::MAX as u64), Some(42));
    assert_eq!(parse_uint(&chars_of("+7"), u32::MAX as u64), Some(7));
    assert_eq!(parse_uint(&chars_of("+"), u32::MAX as u64), None);
    assert_eq!(parse_uint(&chars_of(""), u32::MAX as u64), None);
    assert_eq!(parse_uint(&chars_of("-1"), u32::MAX as u64), None);
    assert_eq!(parse_uint(&chars_of("12a"), u32::MAX as u64), None);
    assert_eq!(parse_uint(&chars_of("4294967295"), u32::MAX as u64), Some(4294967295));
    assert_eq!(parse_uint(&chars_of("4294967296"), u32::MAX as u64), None);
    assert_eq!(parse_uint(&chars_of("18446744073709551615"), u64::MAX), Some(u64::MAX));
    assert_eq!(parse_uint(&chars_of("18446744073709551616"), u64::MAX), None);
}

#[test]
fn renders_numbers() {
    assert_eq!(s(&decimal_chars(0)), "0");
    assert_eq!(u64_to_string(1234567890123), "1234567890123");
    assert_eq!(u64_to_string(u64::MAX), u64::MAX.to_string());
    assert_eq!(i64_to_string(-42), "-42");
    assert_eq!(i64_to_string(i64::MIN), i64::MIN.to_string());
}

