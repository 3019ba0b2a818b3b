use chat::text::{
    after_first_of, concat2, has_two_labels, contains_char, contains_str, ends_with, equal_str, last_two_labels,
    replace_all, second_piece_of, slice_owned, starts_with, trim,
};

#[test]
fn trim_drops_white_space_at_both_ends() {
    assert_eq!(trim("  hello world \t\n"), "hello world");
    assert_eq!(trim("\u{3000}x\u{a0}"), "x");
    assert_eq!(trim("   "), "");
    assert_eq!(trim(""), "");
}

#[test]
fn trim_twice_is_trim_once() {
    for s in ["  a b  ", "\tq", "z\n", "", " "] {
        let once = trim(s);
        assert_eq!(trim(&once), once);
    }
}

#[test]
fn replace_all_replaces_every_occurrence() {
    assert_eq!(replace_all("a-b-c", "-", "+"), "a+b+c");
    assert_eq!(replace_all("aaaa", "aa", "b"), "bb");
    assert_eq!(replace_all("abc", "x", "y"), "abc");
    assert_eq!(replace_all("> <@a:b> hi\nok", "> <@a:b> hi", ""), "\nok");
}

#[test]
fn substring_and_char_searches() {
    assert!(contains_str("hello", "ell"));
    assert!(contains_str("hello", ""));
    assert!(!contains_str("hello", "hellos"));
    assert!(contains_char("a:b", ':'));
    assert!(!contains_char("ab", ':'));
    assert!(starts_with("https://x", "https://"));
    assert!(!starts_with("http", "https"));
    assert!(ends_with("alice.org", ".org"));
    assert!(!ends_with("org", "x.org"));
    assert!(equal_str("same", "same"));
    assert!(!equal_str("same", "Same"));
}

#[test]
fn slicing_and_joining() {
    assert_eq!(slice_owned("héllo", 1, 3), "él");
    assert_eq!(concat2("ab", "cd"), "abcd");
}

#[test]
fn pieces_after_separators() {
    assert_eq!(second_piece_of("!room:matrix.org", ':'), "matrix.org");
    assert_eq!(second_piece_of("a:b:c", ':'), "b");
    assert_eq!(after_first_of("@alice:matrix.org:8448", ':'), Some(String::from("matrix.org:8448")));
    assert_eq!(after_first_of("alice", ':'), None);
    assert_eq!(after_first_of("alice:", ':'), Some(String::new()));
}

#[test]
fn last_two_labels_skip_empty_labels() {
    assert_eq!(
        last_two_labels("matrix.example.org", '.'),
        (String::from("example"), String::from("org"))
    );
    assert_eq!(last_two_labels("..a..b..", '.'), (String::from("a"), String::from("b")));
}

#[test]
fn two_labels_are_counted_without_empty_ones() {
    assert!(has_two_labels("matrix.org", '.'));
    assert!(has_two_labels("..a..b..", '.'));
    assert!(!has_two_labels("localhost", '.'));
    assert!(!has_two_labels("..a..", '.'));
    assert!(!has_two_labels("", '.'));
}
