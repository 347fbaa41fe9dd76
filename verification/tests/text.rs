use notiz::text::{contains_text, lowercase_text, note_preview, note_title, same_text, trim_str};

#[test]
fn title_comes_from_first_nonempty_line() {
    assert_eq!(note_title("\n  Heading  \nBody"), "Heading");
    assert_eq!(note_title("  \n "), "Untitled");
}

#[test]
fn title_of_empty_note_is_untitled() {
    assert_eq!(note_title(""), "Untitled");
}

#[test]
fn title_strips_carriage_returns_and_unicode_spaces() {
    assert_eq!(note_title("\r\n\u{3000}Grüße 🌿\u{a0}\r\nrest"), "Grüße 🌿");
    assert_eq!(note_title("\tOnly line"), "Only line");
}

#[test]
fn preview_is_second_nonblank_line() {
    assert_eq!(note_preview("Title\n\n   \n  Second line  \nThird"), "Second line");
    assert_eq!(note_preview("Title only"), "");
    assert_eq!(note_preview(""), "");
    assert_eq!(note_preview("a\r\nb\r\n"), "b");
}

#[test]
fn trimming_matches_std() {
    for s in ["", "  ", " a ", "\u{2003}x y\u{2028}", "\n\t z\r"] {
        assert_eq!(trim_str(s), s.trim());
    }
}

#[test]
fn literal_matching_matches_std() {
    assert!(contains_text("tomatoes need water", "need"));
    assert!(contains_text("abc", ""));
    assert!(!contains_text("abc", "abcd"));
    assert!(!contains_text("abc", "ac"));
    assert!(contains_text("Grüße 🌿 garden", "🌿 g"));
    assert_eq!(lowercase_text("GARDEN Ärger"), "garden ärger");
    assert!(same_text("http", "http"));
    assert!(!same_text("http", "https"));
}

#[test]
fn unicode_whitespace_is_trimmed() {
    assert_eq!(note_title("\u{3000}\u{2003}\n\u{a0}Title\u{85}\u{2029}\nrest"), "Title");
    assert_eq!(trim_str("\t\u{1680}x y\u{202f}\u{205f}"), "x y");
    assert_eq!(trim_str("\u{200b}x"), "\u{200b}x");
}
