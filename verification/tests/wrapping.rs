use graphite_cli::wrap::{WrappedLine, wrap_message};

fn spans(lines: &[WrappedLine]) -> Vec<(usize, usize, String)> {
    lines.iter().map(|l| (l.start, l.end, l.text.iter().collect())).collect()
}

#[test]
fn wraps_after_last_space_that_fits() {
    let lines = wrap_message("hello world", 6);
    assert_eq!(spans(&lines), vec![(0, 5, "hello".to_string()), (6, 11, "world".to_string())]);
}

#[test]
fn cuts_words_longer_than_the_width() {
    let lines = wrap_message("hello world", 5);
    assert_eq!(
        spans(&lines),
        vec![(0, 5, "hello".to_string()), (5, 10, " worl".to_string()), (10, 11, "d".to_string())]
    );
}

#[test]
fn line_feeds_end_lines() {
    let lines = wrap_message("a\nb", 10);
    assert_eq!(spans(&lines), vec![(0, 1, "a".to_string()), (2, 3, "b".to_string())]);
    let lines = wrap_message("\n\nx", 4);
    assert_eq!(
        spans(&lines),
        vec![(0, 0, String::new()), (1, 1, String::new()), (2, 3, "x".to_string())]
    );
}

#[test]
fn drops_one_trailing_blank() {
    let lines = wrap_message("abc ", 10);
    assert_eq!(spans(&lines), vec![(0, 3, "abc".to_string())]);
}

#[test]
fn empty_message_is_one_empty_line() {
    let lines = wrap_message("", 5);
    assert_eq!(spans(&lines), vec![(0, 0, String::new())]);
}

#[test]
fn zero_width_counts_as_one() {
    let lines = wrap_message("ab", 0);
    assert_eq!(spans(&lines), vec![(0, 1, "a".to_string()), (1, 2, "b".to_string())]);
}

#[test]
fn skips_blanks_after_a_break() {
    let lines = wrap_message("ab   cd ef", 4);
    assert_eq!(
        spans(&lines),
        vec![(0, 3, "ab ".to_string()), (5, 7, "cd".to_string()), (8, 10, "ef".to_string())]
    );
}

#[test]
fn wrapping_keeps_every_visible_character() {
    let message = "the quick  brown\nfox jumps over\n\nthe lazy dog";
    let chars: Vec<char> = message.chars().collect();
    for width in 1..20 {
        let lines = wrap_message(message, width);
        let mut covered = vec![false; chars.len()];
        let mut previous_end = 0;
        for line in &lines {
            assert!(line.end - line.start <= width);
            assert!(previous_end <= line.start);
            previous_end = line.end;
            for k in line.start..line.end {
                covered[k] = true;
            }
        }
        for (k, c) in chars.iter().enumerate() {
            if !covered[k] {
                assert!(c.is_whitespace());
            }
        }
    }
}
