use signalmux::wordcount::words_in_buf_reader;

#[test]
fn stdin() {
    let lines = vec![String::from(
        "Hello, world! My first name is Standard, my last name is In.",
    )];
    assert_eq!(words_in_buf_reader(&lines), 12);
}

#[test]
fn no_lines_count_nothing() {
    let lines: Vec<String> = Vec::new();
    assert_eq!(words_in_buf_reader(&lines), 0);
}

#[test]
fn an_empty_line_counts_one_empty_word() {
    let lines = vec![String::new()];
    assert_eq!(words_in_buf_reader(&lines), 1);
}

#[test]
fn each_line_splits_at_every_single_space() {
    let lines = vec![
        String::from("one two three"),
        String::from("four"),
        String::from("double  space"),
    ];
    // "double  space" splits into three pieces: the middle one is empty
    assert_eq!(words_in_buf_reader(&lines), 7);
}
