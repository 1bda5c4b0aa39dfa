use cliptext::assemble::assemble_lines;
use cliptext::assemble::MIN_LINE_CHARS;

fn lines(texts: &[Option<&str>]) -> Vec<Option<String>> {
    texts.iter().map(|t| t.map(|s| s.to_string())).collect()
}

#[test]
fn drops_single_char_line() {
    let input = lines(&[Some("Hello"), Some("a")]);
    assert_eq!(assemble_lines(&input, MIN_LINE_CHARS), "Hello");
}

#[test]
fn joins_with_single_space() {
    let input = lines(&[Some("Hello"), Some("World")]);
    assert_eq!(assemble_lines(&input, MIN_LINE_CHARS), "Hello World");
}

#[test]
fn skips_absent_lines_without_reindexing() {
    let input = lines(&[Some("Hello"), None, Some("World"), None]);
    assert_eq!(assemble_lines(&input, MIN_LINE_CHARS), "Hello World");
}

#[test]
fn empty_input_yields_empty_string() {
    let input = lines(&[]);
    assert_eq!(assemble_lines(&input, MIN_LINE_CHARS), "");
}

#[test]
fn all_short_lines_yield_empty_string() {
    let input = lines(&[Some("a"), Some(""), Some("b"), None]);
    assert_eq!(assemble_lines(&input, MIN_LINE_CHARS), "");
}

#[test]
fn output_order_follows_input_order() {
    let forward = lines(&[Some("Hello"), Some("World")]);
    let reversed = lines(&[Some("World"), Some("Hello")]);
    assert_eq!(assemble_lines(&forward, MIN_LINE_CHARS), "Hello World");
    assert_eq!(assemble_lines(&reversed, MIN_LINE_CHARS), "World Hello");
}

#[test]
fn reassembling_the_filtered_lines_is_idempotent() {
    let input = lines(&[Some("Hello"), Some("a"), None, Some("World")]);
    let first = assemble_lines(&input, MIN_LINE_CHARS);
    let filtered = lines(&[Some("Hello"), Some("World")]);
    assert_eq!(assemble_lines(&filtered, MIN_LINE_CHARS), first);
}

#[test]
fn threshold_is_a_parameter() {
    let input = lines(&[Some("a"), Some("Hello")]);
    assert_eq!(assemble_lines(&input, 0), "a Hello");
    assert_eq!(assemble_lines(&input, 5), "");
    assert_eq!(assemble_lines(&input, 4), "Hello");
}

#[test]
fn two_char_lines_are_kept() {
    let input = lines(&[Some("ab")]);
    assert_eq!(assemble_lines(&input, MIN_LINE_CHARS), "ab");
}
