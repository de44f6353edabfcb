use executive_edit::text::text_lines;

fn std_lines(text: &str) -> Vec<String> {
    text.lines().map(|line| line.to_string()).collect()
}

#[test]
fn text_lines_of_nothing_is_nothing() {
    assert_eq!(text_lines(""), Vec::<String>::new());
}

#[test]
fn text_lines_cuts_at_line_feeds() {
    assert_eq!(text_lines("ab\nc\n"), vec!["ab".to_string(), "c".to_string()]);
    assert_eq!(text_lines("ab\nc"), vec!["ab".to_string(), "c".to_string()]);
    assert_eq!(text_lines("\n"), vec!["".to_string()]);
    assert_eq!(text_lines("\n\n"), vec!["".to_string(), "".to_string()]);
    assert_eq!(text_lines("x\n\ny"), vec!["x".to_string(), "".to_string(), "y".to_string()]);
}

#[test]
fn text_lines_takes_a_carriage_return_before_a_line_feed_away() {
    assert_eq!(text_lines("ab\r\nc\r\n"), vec!["ab".to_string(), "c".to_string()]);
    assert_eq!(text_lines("\r\n"), vec!["".to_string()]);
    assert_eq!(text_lines("a\r\r\nb"), vec!["a\r".to_string(), "b".to_string()]);
}

#[test]
fn text_lines_keeps_other_carriage_returns() {
    assert_eq!(text_lines("a\rb\n"), vec!["a\rb".to_string()]);
    assert_eq!(text_lines("ab\r"), vec!["ab\r".to_string()]);
    assert_eq!(text_lines("\r"), vec!["\r".to_string()]);
    assert_eq!(text_lines("x\n\r"), vec!["x".to_string(), "\r".to_string()]);
}

#[test]
fn text_lines_reads_as_the_standard_library_does() {
    let alphabet = ['a', '\n', '\r', 'é'];
    let mut texts = vec![String::new()];
    for _ in 0..6 {
        let mut longer = Vec::new();
        for text in &texts {
            for c in alphabet {
                let mut next = text.clone();
                next.push(c);
                longer.push(next);
            }
        }
        for text in &longer {
            assert_eq!(text_lines(text), std_lines(text), "{:?}", text);
        }
        texts = longer;
    }
}
