use mtxcli::text::{find_char, find_char_from, find_sub, starts_with, str_eq, str_lt};

#[test]
fn character_search_finds_the_first_occurrence() {
    assert_eq!(find_char("@alice:example.org", '@'), Some(0));
    assert_eq!(find_char("@alice:example.org", ':'), Some(6));
    assert_eq!(find_char("bob", ':'), None);
    assert_eq!(find_char_from("a:b:c", ':', 2), Some(3));
    assert_eq!(find_char_from("a:b", ':', 2), None);
}

#[test]
fn substring_search_finds_the_first_occurrence() {
    assert_eq!(find_sub("https://example.org", "https://"), Some(0));
    assert_eq!(find_sub("see https://example.org", "https://"), Some(4));
    assert_eq!(find_sub("example.org", "https://"), None);
    assert_eq!(find_sub("abc", ""), Some(0));
}

#[test]
fn equality_and_prefix() {
    assert!(str_eq("same", "same"));
    assert!(!str_eq("same", "sane"));
    assert!(!str_eq("long", "longer"));
    assert!(starts_with("#lobby", "#"));
    assert!(!starts_with("lobby", "#"));
    assert!(starts_with("anything", ""));
}

#[test]
fn order_is_lexicographic_by_code_point() {
    assert!(str_lt("0", "0.5.0"));
    assert!(str_lt("0.5.0", "0.6.0"));
    assert!(!str_lt("0.6.0", "0.6.0"));
    assert!(!str_lt("0.6.0", "0.5.0"));
    // plain text order, not semantic: "0.10.0" sorts below "0.9.0"
    assert!(str_lt("0.10.0", "0.9.0"));
    assert!(str_lt("", "a"));
    assert!(!str_lt("a", ""));
}
