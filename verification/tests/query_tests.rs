use yt_tui::query::{is_space, join_with, normalize_query, tokenize};

fn chars(s: &str) -> Vec<char> {
    s.chars().collect()
}

#[test]
fn normalize_elden_ring() {
    assert_eq!(normalize_query(&chars("elden ring")), "elden+ring");
}

#[test]
fn normalize_collapses_whitespace_runs() {
    assert_eq!(normalize_query(&chars("elden   ring  dlc")), "elden+ring+dlc");
}

#[test]
fn normalize_trims_outer_whitespace() {
    assert_eq!(normalize_query(&chars("  elden ring  ")), "elden+ring");
}

#[test]
fn normalize_handles_tabs_and_newlines() {
    assert_eq!(normalize_query(&chars("a\tb\nc\r\nd")), "a+b+c+d");
}

#[test]
fn normalize_single_word_unchanged() {
    assert_eq!(normalize_query(&chars("zelda")), "zelda");
}

#[test]
fn normalize_empty_is_empty() {
    assert_eq!(normalize_query(&chars("")), "");
}

#[test]
fn normalize_all_whitespace_is_empty() {
    assert_eq!(normalize_query(&chars(" \t \n ")), "");
}

#[test]
fn normalize_keeps_non_ascii_words() {
    assert_eq!(normalize_query(&chars("dark\u{a0}souls été")), "dark+souls+été");
}

#[test]
fn tokenize_splits_words() {
    assert_eq!(tokenize(&chars(" one  two three ")), vec!["one", "two", "three"]);
}

#[test]
fn tokenize_empty_gives_no_words() {
    assert_eq!(tokenize(&chars("   ")), Vec::<String>::new());
}

#[test]
fn join_with_comma() {
    let ids = vec![String::from("a1"), String::from("b2"), String::from("c3")];
    assert_eq!(join_with(&ids, ','), "a1,b2,c3");
}

#[test]
fn join_with_single_piece_has_no_separator() {
    let ids = vec![String::from("only")];
    assert_eq!(join_with(&ids, ','), "only");
}

#[test]
fn join_with_nothing_is_empty() {
    assert_eq!(join_with(&Vec::new(), ','), "");
}

#[test]
fn is_space_matches_unicode_white_space() {
    assert!(is_space(' '));
    assert!(is_space('\t'));
    assert!(is_space('\n'));
    assert!(is_space('\r'));
    assert!(is_space('\u{a0}'));
    assert!(is_space('\u{2003}'));
    assert!(is_space('\u{3000}'));
    assert!(!is_space('a'));
    assert!(!is_space('+'));
    assert!(!is_space('\u{200b}'));
    for c in '\u{0}'..='\u{3001}' {
        assert_eq!(is_space(c), c.is_whitespace());
    }
}
