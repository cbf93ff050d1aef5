use vidpipe::strutil::{join, sanitize_title, u64_to_string};
use vidpipe::types::Container;

#[test]
fn decimal_rendering() {
    assert_eq!(u64_to_string(0), "0");
    assert_eq!(u64_to_string(7), "7");
    assert_eq!(u64_to_string(10), "10");
    assert_eq!(u64_to_string(1_036_800), "1036800");
    assert_eq!(u64_to_string(u64::MAX), "18446744073709551615");
}

#[test]
fn join_with_separator() {
    let parts = vec!["a".to_string(), "b".to_string(), "c".to_string()];
    assert_eq!(join(&parts, ","), "a,b,c");
    assert_eq!(join(&vec!["only".to_string()], ","), "only");
    assert_eq!(join(&vec![], ","), "");
}

#[test]
fn title_sanitization() {
    assert_eq!(sanitize_title("My Video"), "My_Video");
    assert_eq!(sanitize_title("a/b c/d"), "a-b_c-d");
    assert_eq!(sanitize_title(""), "");
    assert_eq!(sanitize_title("plain"), "plain");
}

#[test]
fn container_extensions() {
    assert_eq!(Container::Mp4.extension(), "mp4");
    assert_eq!(Container::Mkv.extension(), "mkv");
    assert_eq!(Container::Webm.extension(), "webm");
}
