use klog::text::count_lines;
use klog::text::split_lines;
use klog::TextBuffer;

fn chars(s: &str) -> Vec<char> {
    s.chars().collect()
}

#[test]
fn empty_content_has_no_lines() {
    assert_eq!(count_lines(&chars("")), 0);
}

#[test]
fn single_line_without_newline() {
    assert_eq!(count_lines(&chars("hello")), 1);
}

#[test]
fn trailing_newline_opens_no_extra_line() {
    assert_eq!(count_lines(&chars("hello\n")), 1);
    assert_eq!(count_lines(&chars("a\nb\n")), 2);
}

#[test]
fn lone_newline_is_one_empty_line() {
    assert_eq!(count_lines(&chars("\n")), 1);
}

#[test]
fn blank_line_in_the_middle_counts() {
    assert_eq!(count_lines(&chars("a\n\nb")), 3);
}

#[test]
fn split_lines_matches_line_iteration() {
    let parts = split_lines(&chars("alpha\n\nbeta\n"));
    assert_eq!(parts.len(), 3);
    assert_eq!(parts[0], chars("alpha"));
    assert_eq!(parts[1], chars(""));
    assert_eq!(parts[2], chars("beta"));
}

#[test]
fn buffer_derives_its_line_count() {
    let buf = TextBuffer::new(chars("one\ntwo\nthree"));
    assert_eq!(buf.line_count, 3);
    assert_eq!(buf.content, chars("one\ntwo\nthree"));
    let empty = TextBuffer::empty();
    assert_eq!(empty.line_count, 0);
    assert!(empty.content.is_empty());
}
