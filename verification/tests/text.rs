use otel_worker::text::{join, split_once, str_eq};

#[test]
fn texts_are_equal_where_their_characters_are() {
    assert!(str_eq("", ""));
    assert!(str_eq("träce", "träce"));
    assert!(!str_eq("trace", "trac"));
    assert!(!str_eq("trace", "Trace"));
}

#[test]
fn joined_texts_follow_each_other() {
    assert_eq!(join("trace://", "aa"), "trace://aa");
    assert_eq!(join("", "aa"), "aa");
    assert_eq!(join("é", ""), "é");
}

#[test]
fn a_text_is_split_at_the_first_separator() {
    assert_eq!(split_once("a://b://c", "://"), Some(("a", "b://c")));
    assert_eq!(split_once("://", "://"), Some(("", "")));
    assert_eq!(split_once("é://ü", "://"), Some(("é", "ü")));
    assert_eq!(split_once("a::://b", "://"), Some(("a::", "b")));
    assert_eq!(split_once("ab", ""), Some(("", "ab")));
}

#[test]
fn a_text_without_the_separator_is_not_split() {
    assert_eq!(split_once("a:/b", "://"), None);
    assert_eq!(split_once("a:", "://"), None);
    assert_eq!(split_once("", "://"), None);
}

#[test]
fn a_split_agrees_with_the_one_of_strings() {
    for text in ["trace://aa", "trace:///", ":://", "é://", "none", "a://b://c"] {
        assert_eq!(split_once(text, "://"), text.split_once("://"));
    }
}

#[test]
fn the_halves_of_a_split_make_the_text_again() {
    let (head, tail) = split_once("span://ab://cd", "://").unwrap();
    assert_eq!(join(join(head, "://").as_str(), tail), "span://ab://cd");
}
