use br::text::{pad_right, text_matches};

#[test]
fn matching_ignores_case() {
    assert!(text_matches("[ERROR] fetching blog", "err"));
    assert!(text_matches("[error] fetching blog", "ERR"));
    assert!(text_matches("Mixed Case Title", "case t"));
}

#[test]
fn matching_needs_consecutive_characters() {
    assert!(!text_matches("abc", "ac"));
    assert!(!text_matches("abc", "abcd"));
    assert!(text_matches("abc", "bc"));
}

#[test]
fn empty_filter_matches_everything() {
    assert!(text_matches("anything", ""));
    assert!(text_matches("", ""));
    assert!(!text_matches("", "x"));
}

#[test]
fn matching_folds_letters_beyond_ascii() {
    assert!(text_matches("ÄRGER im Feed", "ärger"));
    assert!(text_matches("ärger", "ÄRG"));
}

#[test]
fn a_longer_filter_can_match_where_a_shorter_one_does_not() {
    // A capital sigma at the end of a word folds to another letter than one
    // inside a word, so a filter that ends in it stops matching once a
    // letter is typed after it.
    assert!(!text_matches("ΑΣΑ", "ΑΣ"));
    assert!(text_matches("ΑΣΑ", "ΑΣΑ"));
}

#[test]
fn pad_right_fills_with_spaces() {
    assert_eq!(pad_right("abc", 6), "abc   ");
    assert_eq!(pad_right("", 3), "   ");
}

#[test]
fn pad_right_leaves_long_text_alone() {
    assert_eq!(pad_right("abcdef", 6), "abcdef");
    assert_eq!(pad_right("abcdefgh", 6), "abcdefgh");
    assert_eq!(pad_right("abc", 0), "abc");
}

#[test]
fn pad_right_counts_characters_not_bytes() {
    let padded = pad_right("héé", 5);
    assert_eq!(padded, "héé  ");
    assert_eq!(padded.chars().count(), 5);
}
