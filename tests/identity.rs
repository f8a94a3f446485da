use bridge_relay::identity::{field_value, millis_or_zero, parse_process_record};
use bridge_relay::text::{contains, ends_with, parse_u32, trim_text};

#[test]
fn process_record_is_read_from_query_output() {
    let out = "\r\r\n\r\r\nName=chrome.exe\r\r\nParentProcessId=4242\r\r\n\r\r\n";
    assert_eq!(parse_process_record(out), Some(("chrome.exe".to_string(), 4242)));
}

#[test]
fn process_record_needs_both_fields() {
    assert_eq!(parse_process_record("Name=cmd.exe\n"), None);
    assert_eq!(parse_process_record("ParentProcessId=7\n"), None);
    assert_eq!(parse_process_record("Name=cmd.exe\nParentProcessId=x7\n"), None);
    assert_eq!(parse_process_record(""), None);
}

#[test]
fn field_is_first_line_with_key_trimmed() {
    assert_eq!(field_value("a=1\nName=  x y \nName=z", "Name="), Some("x y".to_string()));
    assert_eq!(field_value("xName=1\n", "Name="), None);
    assert_eq!(field_value("Name=", "Name="), Some(String::new()));
    assert_eq!(field_value("Name=\u{3000}x\u{a0}\r", "Name="), Some("x".to_string()));
}

#[test]
fn u32_parsing_matches_std() {
    for s in ["0", "42", "+7", "4294967295", "4294967296", "", "+", "-1", "12a", " 1", "0009"] {
        assert_eq!(parse_u32(s), s.parse::<u32>().ok(), "input {s:?}");
    }
}

#[test]
fn substring_and_suffix_tests() {
    assert!(contains("example — chrome", "chrome"));
    assert!(contains("abc", ""));
    assert!(!contains("ab", "abc"));
    assert!(ends_with("c:\\apps\\chrome.exe", "chrome.exe"));
    assert!(!ends_with("chrome.exe.bak", "chrome.exe"));
    assert!(ends_with("", ""));
}

#[test]
fn clock_fallback_is_zero() {
    assert_eq!(millis_or_zero(Some(1_700_000_000_000)), 1_700_000_000_000);
    assert_eq!(millis_or_zero(None), 0);
}

#[test]
fn trim_matches_std() {
    for s in ["", "   ", " a b ", "\u{3000}x\u{a0}", "\t\r\nv\u{85}", "\u{200b}y", "z\u{2029}"] {
        assert_eq!(trim_text(s), s.trim(), "input {s:?}");
    }
}
