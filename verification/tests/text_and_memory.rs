use ytcast::memory::rss_line;
use ytcast::text::{
    append_decimal, append_signed, chars_of, contains, decimal_text, join, parse_u64, same_text,
    starts_with,
};

#[test]
fn prefixes_and_infixes() {
    assert!(starts_with("audio/webm", "audio/"));
    assert!(!starts_with("audio", "audio/"));
    assert!(starts_with("", ""));
    assert!(contains("audio/webm; codecs=\"opus\"", "opus"));
    assert!(contains("https://host/path?x=1", "?"));
    assert!(!contains("https://host/path", "?"));
    assert!(contains("anything", ""));
    assert!(!contains("ab", "abc"));
}

#[test]
fn texts_are_compared_by_characters() {
    assert!(same_text("play", "play"));
    assert!(!same_text("play", "Play"));
    assert!(!same_text("play", "playing"));
    assert!(same_text("", ""));
    assert_eq!(chars_of("añ€"), vec!['a', 'ñ', '€']);
}

#[test]
fn numbers_are_written_in_decimal() {
    assert_eq!(decimal_text(0), "0");
    assert_eq!(decimal_text(10), "10");
    assert_eq!(decimal_text(u64::MAX), "18446744073709551615");
    let mut s = String::from("n=");
    append_decimal(&mut s, 907);
    assert_eq!(s, "n=907");
    let mut t = String::new();
    append_signed(&mut t, -42);
    append_signed(&mut t, 0);
    append_signed(&mut t, i64::MIN);
    assert_eq!(t, "-420-9223372036854775808");
}

#[test]
fn numbers_are_read_as_std_reads_them() {
    for s in [
        "0", "7", "+7", "-7", "", "+", "007", " 7", "7 ", "7a", "18446744073709551615",
        "18446744073709551616", "99999999999999999999999", "++1", "٣",
    ] {
        assert_eq!(parse_u64(s), s.parse::<u64>().ok(), "{}", s);
    }
}

#[test]
fn lists_are_joined() {
    assert_eq!(join(&Vec::new(), ","), "");
    assert_eq!(join(&vec!["a".to_string()], ","), "a");
    assert_eq!(join(&vec!["a".to_string(), String::new(), "c".to_string()], ","), "a,,c");
}

#[test]
fn resident_set_size_is_the_first_such_line() {
    let status = "Name:\tytcast\nVmPeak:\t 9000 kB\nVmRSS:\t    3800 kB\nVmRSS:\t 1 kB\n";
    assert_eq!(rss_line(status), Some("VmRSS:\t    3800 kB".to_string()));
    assert_eq!(rss_line("VmRSS: 5 kB"), Some("VmRSS: 5 kB".to_string()));
    assert_eq!(rss_line("\nVmRSS:"), Some("VmRSS:".to_string()));
    assert_eq!(rss_line("ä\nVmRSS: ö\nx"), Some("VmRSS: ö".to_string()));
    assert_eq!(rss_line(" VmRSS: 5 kB\nxVmRSS: 5 kB"), None);
    assert_eq!(rss_line(""), None);
    assert_eq!(rss_line("VmRSS"), None);
}
