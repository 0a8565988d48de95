use cosmic_quake_term::quake::terminal_args_from_text;
use cosmic_quake_term::text::{base_name_of, is_whitespace, join_with_spaces, split_whitespace, str_eq};

fn strings(v: &[&str]) -> Vec<String> {
    v.iter().map(|s| s.to_string()).collect()
}

#[test]
fn whitespace_matches_std() {
    for c in ['\t', '\n', '\u{0B}', '\u{0C}', '\r', ' ', '\u{85}', '\u{A0}', '\u{1680}', '\u{2000}',
        '\u{200A}', '\u{2028}', '\u{2029}', '\u{202F}', '\u{205F}', '\u{3000}', 'a', '-', '\u{200B}',
        '\u{FEFF}', 'é', '0']
    {
        assert_eq!(is_whitespace(c), c.is_whitespace(), "{:?}", c);
    }
}

#[test]
fn split_matches_std() {
    for s in ["", "   ", "a", "  a  b\tc\n", "--flag value", "x\u{3000}y", "über  straße "] {
        let expected: Vec<String> = s.split_whitespace().map(String::from).collect();
        assert_eq!(split_whitespace(s), expected, "{:?}", s);
    }
}

#[test]
fn join_uses_single_spaces() {
    assert_eq!(join_with_spaces(&strings(&["-e", "htop"])), "-e htop");
    assert_eq!(join_with_spaces(&strings(&["one"])), "one");
    assert_eq!(join_with_spaces(&Vec::new()), "");
}

#[test]
fn join_then_split_gives_words_back() {
    let words = strings(&["--working-directory", "/home/me", "-e", "btop"]);
    assert_eq!(split_whitespace(&join_with_spaces(&words)), words);
}

#[test]
fn base_name_is_after_last_slash() {
    assert_eq!(base_name_of("/usr/bin/foot"), "foot");
    assert_eq!(base_name_of("foot"), "foot");
    assert_eq!(base_name_of("/usr/bin/"), "");
    assert_eq!(base_name_of(""), "");
    assert_eq!(base_name_of("a/b/c"), "c");
}

#[test]
fn str_eq_compares_characters() {
    assert!(str_eq("kitty", "kitty"));
    assert!(!str_eq("kitty", "kitt"));
    assert!(!str_eq("kitty", "kittY"));
    assert!(str_eq("", ""));
}

#[test]
fn argument_text_to_words() {
    assert!(terminal_args_from_text("").is_empty());
    assert!(terminal_args_from_text(" \t\n\u{3000}").is_empty());
    assert_eq!(terminal_args_from_text(" -e  htop\t"), strings(&["-e", "htop"]));
}
