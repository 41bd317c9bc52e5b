use mirror_query::text::{remove_angle_brackets, replace_str};

#[test]
fn replace_every_occurrence() {
    assert_eq!(replace_str("abcabc", "bc", "X"), "aXaX");
    assert_eq!(replace_str("aaa", "aa", "b"), "ba");
    assert_eq!(replace_str("none here", "zz", "y"), "none here");
    assert_eq!(replace_str("", "a", "b"), "");
    assert_eq!(replace_str("ab", "ab", ""), "");
}

#[test]
fn replace_matches_std() {
    for (s, p, b) in [("https://x/https", "https", "http"), ("a;b;c", ";", "--"), ("ééé", "é", "e")] {
        assert_eq!(replace_str(s, p, b), s.replace(p, b));
    }
}

#[test]
fn angle_brackets_removed() {
    assert_eq!(remove_angle_brackets("<a>b<c>"), "abc");
    assert_eq!(remove_angle_brackets("plain"), "plain");
    assert_eq!(remove_angle_brackets("<>"), "");
}
