use typst_nif::position::{locate, Position};

fn at(line: usize, column: usize) -> Option<Position> {
    Some(Position { line, column })
}

#[test]
fn start_of_text_is_line_one_column_one() {
    assert_eq!(locate("abc", 0), at(1, 1));
    assert_eq!(locate("", 0), at(1, 1));
}

#[test]
fn offsets_within_the_first_line() {
    assert_eq!(locate("abc", 2), at(1, 3));
    assert_eq!(locate("abc", 3), at(1, 4));
}

#[test]
fn offset_beyond_the_text_has_no_position() {
    assert_eq!(locate("abc", 4), None);
    assert_eq!(locate("", 1), None);
    assert_eq!(locate("abc", usize::MAX), None);
}

#[test]
fn line_feed_starts_a_line() {
    let text = "ab\ncd\n";
    assert_eq!(locate(text, 2), at(1, 3));
    assert_eq!(locate(text, 3), at(2, 1));
    assert_eq!(locate(text, 5), at(2, 3));
    assert_eq!(locate(text, 6), at(3, 1));
}

#[test]
fn carriage_return_and_line_feed_end_one_line() {
    let text = "ab\r\ncd\ref";
    assert_eq!(locate(text, 3), at(1, 4));
    assert_eq!(locate(text, 4), at(2, 1));
    assert_eq!(locate(text, 6), at(2, 3));
    assert_eq!(locate(text, 7), at(3, 1));
    assert_eq!(locate(text, 9), at(3, 3));
}

#[test]
fn other_line_terminators_start_a_line() {
    assert_eq!(locate("a\u{0b}b", 2), at(2, 1));
    assert_eq!(locate("a\u{0c}b", 2), at(2, 1));
    assert_eq!(locate("a\u{85}b", 3), at(2, 1));
    assert_eq!(locate("a\u{2028}b", 4), at(2, 1));
    assert_eq!(locate("a\u{2029}b", 4), at(2, 1));
    assert_eq!(locate("a\u{2029}b", 5), at(2, 2));
}

#[test]
fn columns_count_characters() {
    let text = "ä\tcde\nf💛g\r\nhi\rjkl";
    assert_eq!(locate(text, 0), at(1, 1));
    assert_eq!(locate(text, 2), at(1, 2));
    assert_eq!(locate(text, 6), at(1, 6));
    assert_eq!(locate(text, 7), at(2, 1));
    assert_eq!(locate(text, 8), at(2, 2));
    assert_eq!(locate(text, 12), at(2, 3));
    assert_eq!(locate(text, 15), at(3, 1));
    assert_eq!(locate(text, 18), at(4, 1));
    assert_eq!(locate(text, 21), at(4, 4));
}

#[test]
fn offset_inside_a_character_has_no_position() {
    let text = "ä💛";
    assert_eq!(locate(text, 1), None);
    assert_eq!(locate(text, 3), None);
    assert_eq!(locate(text, 5), None);
    assert_eq!(locate(text, 2), at(1, 2));
    assert_eq!(locate(text, 6), at(1, 3));
}

#[test]
fn positions_agree_with_the_compiler_on_lines_and_columns() {
    let text = "ä\tcde\nf💛g\r\nhi\rjkl\u{2028}m\u{85}n";
    let source = typst::syntax::Source::detached(text);
    for offset in 0..=text.len() {
        let expected = match (source.byte_to_line(offset), source.byte_to_column(offset)) {
            (Some(line), Some(column)) => at(line + 1, column + 1),
            _ => None,
        };
        assert_eq!(locate(text, offset), expected, "offset {offset}");
    }
}

#[test]
fn positions_agree_with_the_compiler_on_every_short_text() {
    let alphabet = ['a', '\n', '\r', '\u{85}', '\u{2028}', '\u{e4}'];
    let mut texts = vec![String::new()];
    let mut last = vec![String::new()];
    for _ in 0..4 {
        let mut next = Vec::new();
        for prefix in &last {
            for c in alphabet {
                let mut longer = prefix.clone();
                longer.push(c);
                next.push(longer);
            }
        }
        texts.extend(next.iter().cloned());
        last = next;
    }
    for text in &texts {
        let source = typst::syntax::Source::detached(text.as_str());
        for offset in 0..=text.len() + 1 {
            let expected = match (source.byte_to_line(offset), source.byte_to_column(offset)) {
                (Some(line), Some(column)) => at(line + 1, column + 1),
                _ => None,
            };
            assert_eq!(locate(text, offset), expected, "offset {offset} in {text:?}");
        }
    }
}
