use pg_mux::ready::{line_indicates_ready, readiness_marker, str_contains};

#[test]
fn marker_text_is_fixed() {
    assert_eq!(readiness_marker(), "database system is ready to accept connections");
}

#[test]
fn line_carrying_the_marker_is_ready() {
    let line = "2024-01-01 12:00:00 LOG:  database system is ready to accept connections";
    assert!(line_indicates_ready(line));
    assert!(line_indicates_ready(readiness_marker()));
}

#[test]
fn other_lines_are_not_ready() {
    assert!(!line_indicates_ready(""));
    assert!(!line_indicates_ready("LOG:  database system was shut down"));
    assert!(!line_indicates_ready("database system is ready to accept connection"));
}

#[test]
fn substring_search_edges() {
    assert!(str_contains("abc", ""));
    assert!(str_contains("", ""));
    assert!(!str_contains("", "a"));
    assert!(str_contains("abcabd", "abd"));
    assert!(!str_contains("abcabd", "abe"));
    assert!(str_contains("aaab", "aab"));
}
