use rust_chat::text::{chars_of, find_from, matches_at, split_chars, substring};

#[test]
fn split_chars_matches_std() {
    for line in ["", " ", "a b c", "a  b", " lead", "trail ", "ünï cödé x"] {
        let expected: Vec<String> = line.split(' ').map(|p| p.to_string()).collect();
        assert_eq!(split_chars(line, ' '), expected);
    }
}

#[test]
fn substring_counts_chars() {
    assert_eq!(substring("żółw", 1, 3), "ół");
    assert_eq!(substring("abc", 3, 3), "");
}

#[test]
fn finding_patterns() {
    let hay = chars_of("xx/nick y/nick ");
    let pat = chars_of("/nick ");
    assert!(!matches_at(&hay, &pat, 0));
    assert!(matches_at(&hay, &pat, 2));
    assert_eq!(find_from(&hay, &pat, 0), 2);
    assert_eq!(find_from(&hay, &pat, 3), 9);
    assert_eq!(find_from(&hay, &pat, 10), hay.len());
}
