use substreams_bridge::text::{
    begins_with_http_scheme, chars_of, find_char, starts_with, text_eq,
};

#[test]
fn characters_are_taken_one_by_one() {
    assert_eq!(chars_of("a\u{e9}z"), vec!['a', '\u{e9}', 'z']);
    assert!(chars_of("").is_empty());
}

#[test]
fn texts_are_equal_when_their_characters_are() {
    assert!(text_eq("latest", "latest"));
    assert!(text_eq("", ""));
    assert!(!text_eq("latest", "lates"));
    assert!(!text_eq("latest", "latesT"));
}

#[test]
fn prefixes_are_found() {
    assert!(starts_with("https://x", "http"));
    assert!(starts_with("http", "http"));
    assert!(starts_with("anything", ""));
    assert!(!starts_with("htt", "http"));
    assert!(!starts_with("ftp://x", "http"));
}

#[test]
fn first_index_of_a_character() {
    let chars = chars_of("ab:cd:e");
    assert_eq!(find_char(&chars, ':'), 2);
    assert_eq!(find_char(&chars, 'a'), 0);
    assert_eq!(find_char(&chars, 'x'), 7);
    assert_eq!(find_char(&Vec::new(), 'x'), 0);
}

#[test]
fn http_schemes_are_found() {
    assert!(begins_with_http_scheme("http://x"));
    assert!(begins_with_http_scheme("https://x"));
    assert!(begins_with_http_scheme("https://"));
    assert!(!begins_with_http_scheme("httpbin.org"));
    assert!(!begins_with_http_scheme("http:/x"));
    assert!(!begins_with_http_scheme("HTTP://x"));
    assert!(!begins_with_http_scheme("ftp://x"));
    assert!(!begins_with_http_scheme(""));
}
