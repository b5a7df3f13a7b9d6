use wcore::text::{ascii_lowercase_chars, chars_equal, contains_chars, first_lines_joined};

#[test]
fn ascii_lowercase_leaves_other_characters() {
    assert_eq!(ascii_lowercase_chars("AbZ-9 É"), "abz-9 É".chars().collect::<Vec<_>>());
}

#[test]
fn substring_search() {
    let hay: Vec<char> = "gpt-4.1-mini".chars().collect();
    assert!(contains_chars(&hay, &"4.1".chars().collect()));
    assert!(!contains_chars(&hay, &"4o".chars().collect()));
    assert!(contains_chars(&hay, &Vec::new()));
    assert!(!contains_chars(&Vec::new(), &"a".chars().collect()));
    assert!(chars_equal(&hay, &"gpt-4.1-mini".chars().collect()));
    assert!(!chars_equal(&hay, &"gpt-4.1".chars().collect()));
}

#[test]
fn first_lines_matches_std_lines() {
    for s in ["", "a", "a\n", "a\r\nb", "\n", "\r\n", "a\n\nb\n", "x\r", "a\r\r\nb"] {
        for max in [0usize, 1, 2, 5] {
            let expected: Vec<&str> = s.lines().take(max).collect();
            assert_eq!(first_lines_joined(s, max), expected.join("\n"), "{s:?} {max}");
        }
    }
}
