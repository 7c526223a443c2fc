use pausecat::text::{contains, ends_with, replace_char_with, starts_with, trim_start_text};

#[test]
fn search_helpers() {
    assert!(contains("{\"action\":\"save\"}", "\"action\":\"save\""));
    assert!(!contains("{\"action\":\"sav\"}", "\"action\":\"save\""));
    assert!(contains("abc", ""));
    assert!(!contains("", "a"));
    assert!(starts_with("https://pausecat.app/x", "https://pausecat.app/"));
    assert!(!starts_with("http", "https"));
    assert!(ends_with("setup.msi", ".msi"));
    assert!(!ends_with("msi", ".msi"));
}

#[test]
fn replace_and_trim() {
    assert_eq!(replace_char_with("a\\b\\c", '\\', "/"), "a/b/c");
    assert_eq!(replace_char_with("say \"x\"", '"', "\\\""), "say \\\"x\\\"");
    assert_eq!(trim_start_text("abababc", "ab"), "c");
    assert_eq!(trim_start_text("abc", ""), "abc");
}
