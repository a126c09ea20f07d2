use rich_thumbnail_uploader::text::{parse_u32, starts_with_https, str_eq, trim_spaces, u64_to_string};

#[test]
fn test_str_eq_basic() {
    assert!(str_eq("imgur", "imgur"));
    assert!(!str_eq("imgur", "catbox"));
    assert!(!str_eq("png", "pngx"));
    assert!(str_eq("", ""));
}

#[test]
fn test_u64_to_string_values() {
    assert_eq!(u64_to_string(0), "0");
    assert_eq!(u64_to_string(7), "7");
    assert_eq!(u64_to_string(105), "105");
    assert_eq!(u64_to_string(18446744073709551615), "18446744073709551615");
}

#[test]
fn test_parse_u32_values() {
    assert_eq!(parse_u32("0"), Some(0));
    assert_eq!(parse_u32("256"), Some(256));
    assert_eq!(parse_u32("4294967295"), Some(4294967295));
    assert_eq!(parse_u32("4294967296"), None);
    assert_eq!(parse_u32(""), None);
    assert_eq!(parse_u32("12a"), None);
    assert_eq!(parse_u32("-3"), None);
}

#[test]
fn test_starts_with_https_values() {
    assert!(starts_with_https("https://files.example/a.png"));
    assert!(starts_with_https("https://"));
    assert!(!starts_with_https("http://files.example/a.png"));
    assert!(!starts_with_https(""));
    assert!(!starts_with_https("https:/"));
}

#[test]
fn test_trim_spaces_values() {
    assert_eq!(trim_spaces("  /tmp/in.png \n"), "/tmp/in.png");
    assert_eq!(trim_spaces("\t\r\n"), "");
    assert_eq!(trim_spaces("plain"), "plain");
    assert_eq!(trim_spaces("inner space kept "), "inner space kept");
    assert_eq!(trim_spaces("\u{00A0}\u{2003}x\u{3000}"), "x");
}
