use rooney::words::split_whitespace;

#[test]
fn splits_on_runs_of_white_space() {
    let words = split_whitespace("  !coin \t eth\u{3000}now ");
    assert_eq!(words, vec!["!coin".to_string(), "eth".to_string(), "now".to_string()]);
}

#[test]
fn blank_line_has_no_words() {
    assert!(split_whitespace(" \n ").is_empty());
    assert!(split_whitespace("").is_empty());
}
