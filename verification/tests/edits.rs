use typst::syntax::{FileId, Source, VirtualPath};
use typst_nif::cache::FileSlot;
use typst_nif::parsing::{single_edit, SingleEdit};

fn edit(old: &str, new: &str) -> (usize, usize, usize) {
    let SingleEdit { start, old_end, new_end } = single_edit(old, new);
    assert!(start <= old_end && old_end <= old.len());
    assert!(start <= new_end && new_end <= new.len());
    assert_eq!(&old[..start], &new[..start]);
    assert_eq!(&old[old_end..], &new[new_end..]);
    (start, old_end, new_end)
}

fn reparsed(first: &str, second: &str) -> Source {
    let id = FileId::new(None, VirtualPath::new("/edited.typ"));
    let mut slot = FileSlot::new(id);
    assert_eq!(slot.source(|| Ok(first.as_bytes().to_vec())).unwrap().text(), first);
    slot.reset();
    let source = slot.source(|| Ok(second.as_bytes().to_vec())).unwrap();
    assert_eq!(source.id(), id);
    source
}

#[test]
fn edit_spares_common_start_and_end() {
    assert_eq!(edit("abcdef", "abXYef"), (2, 4, 4));
    assert_eq!(edit("abcdef", "abef"), (2, 4, 2));
    assert_eq!(edit("abef", "abcdef"), (2, 2, 4));
    assert_eq!(edit("abc", "xyz"), (0, 3, 3));
}

#[test]
fn edit_of_equal_texts_is_empty() {
    assert_eq!(edit("same", "same"), (4, 4, 4));
    assert_eq!(edit("", ""), (0, 0, 0));
}

#[test]
fn edit_from_or_to_nothing_is_the_whole() {
    assert_eq!(edit("", "new"), (0, 0, 3));
    assert_eq!(edit("old", ""), (0, 3, 0));
}

#[test]
fn edit_of_a_repetition_does_not_overlap() {
    assert_eq!(edit("aaa", "aa"), (2, 3, 2));
    assert_eq!(edit("aa", "aaa"), (2, 2, 3));
    assert_eq!(edit("abab", "ab"), (2, 4, 2));
}

#[test]
fn edit_lies_between_whole_characters() {
    assert_eq!(edit("X\u{20ac}", "Y\u{10ac}"), (0, 4, 4));
    assert_eq!(edit("a\u{20ac}b", "a\u{10ac}b"), (1, 4, 4));
    assert_eq!(edit("\u{20ac}", "\u{ac}"), (0, 3, 2));
    assert_eq!(edit("\u{e4}", "\u{e5}"), (0, 2, 2));
    assert_eq!(edit("x\u{e4}y", "x\u{e5}y"), (1, 3, 3));
    assert_eq!(edit("\u{1f49b}", "\u{1f49c}"), (0, 4, 4));
}

#[test]
fn source_is_brought_up_to_the_new_text() {
    assert_eq!(reparsed("= Title\nOld", "= Title\nNew").text(), "= Title\nNew");
    assert_eq!(reparsed("abc", "abc").text(), "abc");
    assert_eq!(reparsed("", "now text").text(), "now text");
    assert_eq!(reparsed("text", "").text(), "");
    assert_eq!(reparsed("a\r", "a\r\nb").text(), "a\r\nb");
    assert_eq!(reparsed("a\r\nb", "a\nb").text(), "a\nb");
}

#[test]
fn source_is_right_where_characters_share_their_last_bytes() {
    assert_eq!(reparsed("X\u{20ac}", "Y\u{10ac}").text(), "Y\u{10ac}");
    assert_eq!(reparsed("a\u{20ac}b", "a\u{10ac}b").text(), "a\u{10ac}b");
    assert_eq!(reparsed("\u{20ac}", "\u{ac}").text(), "\u{ac}");
    assert_eq!(reparsed("x\u{20ac}", "\u{10ac}").text(), "\u{10ac}");
    assert_eq!(reparsed("\u{e4}\u{e4}", "\u{e4}").text(), "\u{e4}");
}

#[test]
fn edited_source_agrees_with_a_fresh_parse() {
    let first = "#let f(x) = x + 1\n= Heading\nSome *bold* text with $x^2$.";
    let second = "#let f(x) = x + 2\n= Heading\nSome _emph_ text with $x^2$ and more.";
    let edited = reparsed(first, second);
    let fresh = Source::new(edited.id(), second.to_string());
    assert_eq!(edited.text(), fresh.text());
    assert_eq!(format!("{:?}", edited.root()), format!("{:?}", fresh.root()));
    assert_eq!(edited.len_lines(), fresh.len_lines());
}

fn strings(alphabet: &[char], longest: usize) -> Vec<String> {
    let mut all = vec![String::new()];
    let mut last = vec![String::new()];
    for _ in 0..longest {
        let mut next = Vec::new();
        for prefix in &last {
            for c in alphabet {
                let mut longer = prefix.clone();
                longer.push(*c);
                next.push(longer);
            }
        }
        all.extend(next.iter().cloned());
        last = next;
    }
    all
}

#[test]
fn every_pair_of_short_texts_is_edited_right() {
    let texts = strings(&['a', '\u{e4}', '\u{20ac}', '\u{10ac}', '\u{ac}'], 2);
    let id = FileId::new(None, VirtualPath::new("/pairs.typ"));
    for first in &texts {
        for second in &texts {
            edit(first, second);
            let mut slot = FileSlot::new(id);
            slot.source(|| Ok(first.as_bytes().to_vec())).unwrap();
            slot.reset();
            let source = slot.source(|| Ok(second.as_bytes().to_vec())).unwrap();
            assert_eq!(source.text(), second.as_str(), "from {first:?} to {second:?}");
        }
    }
}

#[test]
fn held_value_of_a_cell_is_handed_out_as_a_copy() {
    let mut cell: typst_nif::cell::SlotCell<String> = typst_nif::cell::SlotCell::new();
    assert_eq!(cell.previous(), None);
    cell.revalidate(Ok(b"x".to_vec()), 1, |data, _| Ok(String::from_utf8(data).unwrap())).unwrap();
    assert_eq!(cell.previous(), Some("x".to_string()));
    cell.revalidate(Err(typst_nif::error::FileError::AccessDenied), 2, |_, _| Ok(String::new()))
        .unwrap_err();
    assert_eq!(cell.previous(), None);
}

#[test]
fn parsing_decodes_and_keeps_the_identity() {
    let id = FileId::new(None, VirtualPath::new("/parsed.typ"));
    let source = typst_nif::parsing::parse_source(id, b"\xef\xbb\xbfabc".to_vec(), None).unwrap();
    assert_eq!(source.text(), "abc");
    assert_eq!(source.id(), id);
    let updated = typst_nif::parsing::parse_source(id, b"abd".to_vec(), Some(source)).unwrap();
    assert_eq!(updated.text(), "abd");
    assert_eq!(updated.id(), id);
    let updated = typst_nif::parsing::update_source(id, updated, "xbd");
    assert_eq!(updated.text(), "xbd");
    assert_eq!(
        typst_nif::parsing::parse_source(id, vec![0xff], Some(updated)).unwrap_err(),
        typst_nif::error::FileError::InvalidUtf8
    );
}

#[test]
fn update_with_the_same_text_keeps_the_source() {
    let id = FileId::new(None, VirtualPath::new("/same.typ"));
    for text in ["", "abc", "a\r\nb", "\u{20ac}"] {
        let source = Source::new(id, text.to_string());
        let updated = typst_nif::parsing::update_source(id, source, text);
        assert_eq!(updated.text(), text);
        assert_eq!(updated.id(), id);
    }
    let mut slot = FileSlot::new(id);
    slot.source(|| Ok(b"abc".to_vec())).unwrap();
    slot.reset();
    assert_eq!(slot.source(|| Ok(b"\xef\xbb\xbfabc".to_vec())).unwrap().text(), "abc");
}

#[test]
fn every_pair_of_short_texts_is_updated_right() {
    let texts = strings(&['a', '\n', '\r', '\u{e4}', '\u{20ac}', '\u{10ac}'], 2);
    let id = FileId::new(None, VirtualPath::new("/updated.typ"));
    for first in &texts {
        for second in &texts {
            let source = Source::new(id, first.clone());
            let updated = typst_nif::parsing::update_source(id, source, second);
            assert_eq!(updated.text(), second.as_str(), "from {first:?} to {second:?}");
            let fresh = Source::new(id, second.clone());
            assert_eq!(
                format!("{:?}", updated.root()),
                format!("{:?}", fresh.root()),
                "from {first:?} to {second:?}"
            );
        }
    }
}
