use signalmux::search::{find_matching_lines, line_contains};

#[test]
fn find_content_in_file() {
    let lines = vec![
        String::from("A test"),
        String::from("Actual content"),
        String::from("More content"),
        String::from("Another test"),
    ];
    let found = find_matching_lines(&lines, "test");
    assert_eq!(found, vec![String::from("A test"), String::from("Another test")]);
}

#[test]
fn find_content_in_file_of_tmp_dir() {
    let lines = vec![
        String::from("The first"),
        String::from("test file."),
        String::from("Last line of first file."),
    ];
    let found = find_matching_lines(&lines, "first");
    assert_eq!(
        found,
        vec![
            String::from("The first"),
            String::from("Last line of first file.")
        ]
    );
}

#[test]
fn empty_pattern_matches_every_line() {
    assert!(line_contains("anything", ""));
    assert!(line_contains("", ""));
    let lines = vec![String::from("a"), String::from("b")];
    assert_eq!(find_matching_lines(&lines, "").len(), 2);
}

#[test]
fn pattern_longer_than_the_line_never_matches() {
    assert!(!line_contains("ab", "abc"));
    assert!(!line_contains("", "x"));
}

#[test]
fn matches_anywhere_in_the_line() {
    assert!(line_contains("hay needle stack", "needle"));
    assert!(line_contains("needle", "needle"));
    assert!(line_contains("xxneedle", "needle"));
    assert!(!line_contains("nee dle", "needle"));
}
