use windows_capture_python::matching::contains_substring;
use windows_capture_python::matching::find_first_containing;

#[test]
fn contains_finds_inner_substring() {
    assert!(contains_substring("Untitled - Notepad", "Notepad"));
    assert!(contains_substring("Untitled - Notepad", " - "));
    assert!(contains_substring("abc", "abc"));
    assert!(!contains_substring("abc", "abd"));
    assert!(!contains_substring("abc", "abcd"));
}

#[test]
fn contains_is_case_sensitive() {
    assert!(!contains_substring("Notepad", "notepad"));
}

#[test]
fn empty_needle_always_contained() {
    assert!(contains_substring("", ""));
    assert!(contains_substring("abc", ""));
}

#[test]
fn empty_haystack_contains_nothing_else() {
    assert!(!contains_substring("", "a"));
}

#[test]
fn contains_handles_repeated_prefixes() {
    assert!(contains_substring("aaab", "aab"));
    assert!(!contains_substring("aaab", "abb"));
}

#[test]
fn contains_handles_multibyte_characters() {
    assert!(contains_substring("Bildschirm \u{2014} \u{00dc}bersicht", "\u{00dc}ber"));
    assert!(!contains_substring("Bildschirm", "\u{00dc}"));
}

#[test]
fn find_first_picks_enumeration_order() {
    let titles = vec![
        "task manager".to_string(),
        "code editor".to_string(),
        "another editor".to_string(),
    ];
    assert_eq!(find_first_containing(&titles, "editor"), Some(1));
    assert_eq!(find_first_containing(&titles, "task"), Some(0));
    assert_eq!(find_first_containing(&titles, "browser"), None);
}

#[test]
fn find_first_on_empty_list_is_none() {
    let titles: Vec<String> = Vec::new();
    assert_eq!(find_first_containing(&titles, "anything"), None);
    assert_eq!(find_first_containing(&titles, ""), None);
}
