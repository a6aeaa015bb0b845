use notebooklm_cli::preview::{note_key, open_note_script, preview_text, OPEN_NOTE_SCRIPT_0, OPEN_NOTE_SCRIPT_1};
use notebooklm_cli::text::{
    chars_of, collapse_white_space_chars, decimal_string, ends_with, join_strings, str_contains, str_eq, trim,
};

#[test]
fn trim_removes_unicode_white_space_at_both_ends() {
    assert_eq!(trim("  hello world \n\t"), "hello world");
    assert_eq!(trim("\u{3000}x\u{a0}"), "x");
    assert_eq!(trim("   "), "");
    assert_eq!(trim(""), "");
    assert_eq!(trim("a  b"), "a  b");
}

#[test]
fn collapse_joins_words_with_single_spaces() {
    let c: String = collapse_white_space_chars(&chars_of("  a \n\n b\tc  ")).into_iter().collect();
    assert_eq!(c, "a b c");
    let c: String = collapse_white_space_chars(&chars_of("")).into_iter().collect();
    assert_eq!(c, "");
    let c: String = collapse_white_space_chars(&chars_of(" \t ")).into_iter().collect();
    assert_eq!(c, "");
}

#[test]
fn preview_collapses_then_cuts() {
    assert_eq!(preview_text("  hello   world  ", 240), "hello world");
    assert_eq!(preview_text("hello world", 5), "hello");
    assert_eq!(preview_text("hello world", 6), "hello ");
    assert_eq!(preview_text("héllo wörld", 7), "héllo w");
    assert_eq!(preview_text("", 10), "");
    assert_eq!(preview_text("abc", 0), "");
}

#[test]
fn preview_is_at_most_max_chars_and_well_spaced() {
    let text = "Line one\n\n  line   two\tand three ";
    for n in 0..40 {
        let p = preview_text(text, n);
        assert!(p.chars().count() <= n);
        assert!(!p.starts_with(' '));
        assert!(!p.contains("  "));
        assert!("Line one line two and three".starts_with(&p));
    }
}

#[test]
fn note_key_trims_and_lowercases() {
    assert_eq!(note_key("  Hello World "), "hello world");
    assert_eq!(note_key("Ünïcode"), "ünïcode");
    assert_eq!(note_key(&trim("  Mixed Case\n")), note_key("  Mixed Case\n"));
}

#[test]
fn decimal_notation() {
    assert_eq!(decimal_string(0), "0");
    assert_eq!(decimal_string(7), "7");
    assert_eq!(decimal_string(12234), "12234");
    assert_eq!(decimal_string(u64::MAX), u64::MAX.to_string());
}

/// The JSON literal the library splices into a script for `s`.
fn json_string_literal(s: &str) -> Result<String, String> {
    let script = open_note_script(s).map_err(|e| format!("{:?}", e))?;
    let inner = script.strip_prefix(OPEN_NOTE_SCRIPT_0).and_then(|t| t.strip_suffix(OPEN_NOTE_SCRIPT_1));
    inner.map(str::to_string).ok_or_else(|| script.clone())
}

#[test]
fn json_string_escapes() {
    assert_eq!(json_string_literal("plain").unwrap(), "\"plain\"");
    assert_eq!(json_string_literal("a\"b\\c").unwrap(), "\"a\\\"b\\\\c\"");
    assert_eq!(json_string_literal("\n\t\r\u{8}\u{c}").unwrap(), "\"\\n\\t\\r\\b\\f\"");
    assert_eq!(json_string_literal("\u{1}\u{1f}").unwrap(), "\"\\u0001\\u001f\"");
    assert_eq!(json_string_literal("é/\u{7f}").unwrap(), "\"é/\u{7f}\"");
}

#[test]
fn string_helpers() {
    assert!(str_eq("abc", "abc"));
    assert!(!str_eq("abc", "abd"));
    assert!(ends_with("index.html", ".html"));
    assert!(!ends_with("html", ".html"));
    assert!(str_contains("youtube.com/watch", "youtube.com/"));
    assert!(str_contains("abc", ""));
    assert!(!str_contains("ab", "abc"));
    assert_eq!(note_key(" ÀB "), "àb");
    assert_eq!(join_strings(&vec!["9222".to_string(), "9223".to_string()], ", "), "9222, 9223");
    assert_eq!(join_strings(&vec![], ", "), "");
}
