use termlaunch::keys::{is_shortcut, parse_shortcut_str, KeyCode, KeyEvent, KeyEventKind, KeyModifiers, Modifier};
use termlaunch::text::{chars_of, contains_chars, i32_to_string, path_join, str_eq, to_ascii_lowercase};

fn ctrl(c: char) -> KeyEvent {
    let mut m = KeyModifiers::none();
    m.control = true;
    KeyEvent { code: KeyCode::Char(c), modifiers: m, kind: KeyEventKind::Press }
}

#[test]
fn parse_lowercase_shortcut() {
    assert_eq!(parse_shortcut_str("ctrl+a"), Some((Modifier::Control, 'a')));
    assert_eq!(parse_shortcut_str("alt+x"), Some((Modifier::Alt, 'x')));
    assert_eq!(parse_shortcut_str("shift+1"), Some((Modifier::Shift, '1')));
}

#[test]
fn parse_ignores_case() {
    assert_eq!(parse_shortcut_str("CTRL+A"), Some((Modifier::Control, 'a')));
    assert_eq!(parse_shortcut_str("Alt+F"), Some((Modifier::Alt, 'f')));
}

#[test]
fn parse_rejects_malformed() {
    assert_eq!(parse_shortcut_str("ctrl"), None);
    assert_eq!(parse_shortcut_str("ctrl+"), None);
    assert_eq!(parse_shortcut_str("ctrl+ab"), None);
    assert_eq!(parse_shortcut_str("ctrl+a+b"), None);
    assert_eq!(parse_shortcut_str("meta+a"), None);
    assert_eq!(parse_shortcut_str("+a"), None);
    assert_eq!(parse_shortcut_str(""), None);
    // A single character that is more than one byte long is refused.
    assert_eq!(parse_shortcut_str("ctrl+\u{e9}"), None);
}

#[test]
fn shortcut_matches_event() {
    assert!(is_shortcut(ctrl('a'), "ctrl+a"));
    assert!(is_shortcut(ctrl('A'), "ctrl+a"));
    assert!(is_shortcut(ctrl('a'), "Ctrl+A"));
    assert!(!is_shortcut(ctrl('b'), "ctrl+a"));
    assert!(!is_shortcut(ctrl('a'), "alt+a"));
    let mut plain = ctrl('a');
    plain.modifiers = KeyModifiers::none();
    assert!(!is_shortcut(plain, "ctrl+a"));
    let mut enter = ctrl('a');
    enter.code = KeyCode::Enter;
    assert!(!is_shortcut(enter, "ctrl+a"));
}

#[test]
fn extra_modifiers_still_match() {
    let mut e = ctrl('f');
    e.modifiers.shift = true;
    assert!(is_shortcut(e, "ctrl+f"));
}

#[test]
fn ascii_lowercase_only_touches_capitals() {
    assert_eq!(to_ascii_lowercase('Q'), 'q');
    assert_eq!(to_ascii_lowercase('q'), 'q');
    assert_eq!(to_ascii_lowercase('\u{c9}'), '\u{c9}');
    assert_eq!(to_ascii_lowercase('@'), '@');
    assert_eq!(to_ascii_lowercase('['), '[');
}

#[test]
fn decimal_text() {
    assert_eq!(i32_to_string(0), "0");
    assert_eq!(i32_to_string(7), "7");
    assert_eq!(i32_to_string(1234), "1234");
    assert_eq!(i32_to_string(-56), "-56");
    assert_eq!(i32_to_string(i32::MAX), "2147483647");
    assert_eq!(i32_to_string(i32::MIN), "-2147483648");
}

#[test]
fn joining_paths() {
    assert_eq!(path_join("/Users/me", "Applications"), "/Users/me/Applications");
    assert_eq!(path_join("/Users/me/", "Applications"), "/Users/me/Applications");
    assert_eq!(path_join("", "Applications"), "Applications");
}

#[test]
fn substring_search() {
    let hay = chars_of("visual studio code");
    assert!(contains_chars(&hay, &chars_of("studio")));
    assert!(contains_chars(&hay, &chars_of("")));
    assert!(contains_chars(&hay, &chars_of("visual studio code")));
    assert!(!contains_chars(&hay, &chars_of("codes")));
    assert!(!contains_chars(&chars_of(""), &chars_of("a")));
}

#[test]
fn string_equality() {
    assert!(str_eq("file", "file"));
    assert!(!str_eq("file", "File"));
    assert!(!str_eq("file", "files"));
    assert_eq!(chars_of("h\u{e9}"), vec!['h', '\u{e9}']);
}
