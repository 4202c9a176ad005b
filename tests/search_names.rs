use fss::config::SearchMode;
use fss::matching::{file_stem, matches_name, same_text, text_contains};

#[test]
fn exact_matches_only_the_literal_name() {
    assert!(matches_name(SearchMode::Exact, "foo.txt", "foo.txt"));
    assert!(!matches_name(SearchMode::Exact, "foo.txt", "foo"));
    assert!(!matches_name(SearchMode::Exact, "foo.txt", "foo.tx"));
}

#[test]
fn stem_matches_any_extension() {
    assert!(matches_name(SearchMode::Stem, "foo.txt", "foo"));
    assert!(matches_name(SearchMode::Stem, "foo.png", "foo"));
    assert!(!matches_name(SearchMode::Stem, "foo.png", "foo.png"));
}

#[test]
fn contains_matches_a_substring() {
    assert!(matches_name(SearchMode::Contains, "myfoobar", "foo"));
    assert!(!matches_name(SearchMode::Contains, "myfobar", "foo"));
    assert!(text_contains("foo", "foo"));
    assert!(text_contains("abc", ""));
    assert!(!text_contains("fo", "foo"));
}

#[test]
fn text_equality() {
    assert!(same_text("", ""));
    assert!(same_text("é", "é"));
    assert!(!same_text("a", "ab"));
}

#[test]
fn stems_follow_the_last_dot() {
    assert_eq!(file_stem("foo.txt"), "foo");
    assert_eq!(file_stem("foo.tar.gz"), "foo.tar");
    assert_eq!(file_stem("foo."), "foo");
    assert_eq!(file_stem("foo"), "foo");
    assert_eq!(file_stem(".bashrc"), ".bashrc");
    assert_eq!(file_stem(".a.b"), ".a");
    assert_eq!(file_stem(".."), "..");
    assert_eq!(file_stem(""), "");
}

#[test]
fn stem_search_ignores_only_the_last_extension() {
    assert!(matches_name(SearchMode::Stem, "foo.tar.gz", "foo.tar"));
    assert!(!matches_name(SearchMode::Stem, "foo.tar.gz", "foo"));
    assert!(matches_name(SearchMode::Stem, ".foo", ".foo"));
}
