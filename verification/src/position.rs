//! Line and column of a byte offset in a source text.
//!
//! Lines end at a line feed, vertical tab, form feed, carriage return
//! (together with a line feed that follows it), next line (U+0085), line
//! separator (U+2028) or paragraph separator (U+2029). Columns count
//! characters, not bytes. Both are counted from 1.

use vstd::prelude::*;
use vstd::string::StringSliceAdditionalSpecFns;

verus! {

/// A position in a source text, counted from 1.
#[derive(Debug, Clone, Copy, PartialEq, Eq, Structural)]
pub struct Position {
    pub line: usize,
    pub column: usize,
}

/// A byte that continues the encoding of a character.
pub open spec fn is_continuation(byte: u8) -> bool {
    0x80 <= byte <= 0xbf
}

/// Whether a line terminator ends right before `at`, so that a line starts
/// there. A carriage return that a line feed follows ends no line by itself.
pub open spec fn starts_line(text: Seq<u8>, at: int) -> bool {
    &&& 0 < at <= text.len()
    &&& {
        ||| text[at - 1] == 0x0a
        ||| text[at - 1] == 0x0b
        ||| text[at - 1] == 0x0c
        ||| text[at - 1] == 0x0d && !(at < text.len() && text[at] == 0x0a)
        ||| at >= 2 && text[at - 2] == 0xc2 && text[at - 1] == 0x85
        ||| at >= 3 && text[at - 3] == 0xe2 && text[at - 2] == 0x80 && (text[at - 1] == 0xa8
            || text[at - 1] == 0xa9)
    }
}

/// The number of lines that start in `text[1..=upto]`.
pub open spec fn line_breaks(text: Seq<u8>, upto: int) -> nat
    decreases upto,
{
    if upto <= 0 {
        0
    } else {
        line_breaks(text, upto - 1) + if starts_line(text, upto) {
            1nat
        } else {
            0nat
        }
    }
}

/// Where the line that holds `offset` starts.
pub open spec fn line_start(text: Seq<u8>, offset: int) -> int
    decreases offset,
{
    if offset <= 0 {
        0
    } else if starts_line(text, offset) {
        offset
    } else {
        line_start(text, offset - 1)
    }
}

/// The number of characters that start in `text[from..to]`.
pub open spec fn characters(text: Seq<u8>, from: int, to: int) -> nat
    decreases to - from,
{
    if to <= from {
        0
    } else {
        characters(text, from, to - 1) + if is_continuation(text[to - 1]) {
            0nat
        } else {
            1nat
        }
    }
}

/// The line and column of a byte offset, both counted from 1; none for an
/// offset beyond the text or inside a character, and none for the largest
/// offset there is, whose line number might not fit a `usize`.
pub open spec fn position_at(text: Seq<u8>, offset: int) -> Option<(nat, nat)> {
    if 0 <= offset <= text.len() && offset < usize::MAX && !(offset < text.len()
        && is_continuation(text[offset])) {
        Some(
            (
                1 + line_breaks(text, offset),
                1 + characters(text, line_start(text, offset), offset),
            ),
        )
    } else {
        None
    }
}

/// Whether a line starts at `at`.
fn starts_line_at(text: &[u8], at: usize) -> (starts: bool)
    requires
        0 < at <= text.len(),
    ensures
        starts == starts_line(text@, at as int),
{
    let last = text[at - 1];
    if last == 0x0a || last == 0x0b || last == 0x0c {
        true
    } else if last == 0x0d {
        !(at < text.len() && text[at] == 0x0a)
    } else if last == 0x85 {
        at >= 2 && text[at - 2] == 0xc2
    } else if last == 0xa8 || last == 0xa9 {
        at >= 3 && text[at - 3] == 0xe2 && text[at - 2] == 0x80
    } else {
        false
    }
}

/// The position as numbers.
pub open spec fn position_view(position: Option<Position>) -> Option<(nat, nat)> {
    match position {
        Some(p) => Some((p.line as nat, p.column as nat)),
        None => None,
    }
}

/// Locates a byte offset in a text.
pub fn locate(text: &str, offset: usize) -> (position: Option<Position>)
    ensures
        position_view(position) == position_at(text.spec_bytes(), offset as int),
{
    let bytes = text.as_bytes();
    if offset > bytes.len() || offset == usize::MAX {
        return None;
    }
    if offset < bytes.len() && 0x80 <= bytes[offset] && bytes[offset] <= 0xbf {
        return None;
    }
    let mut breaks: usize = 0;
    let mut column: usize = 0;
    let mut at: usize = 0;
    let ghost mut start: int = 0;
    while at < offset
        invariant
            at <= offset <= bytes.len(),
            bytes@ == text.spec_bytes(),
            0 <= start <= at,
            start == line_start(bytes@, at as int),
            breaks == line_breaks(bytes@, at as int),
            column == characters(bytes@, start, at as int),
            breaks <= at,
            column <= at - start,
        decreases offset - at,
    {
        at += 1;
        if starts_line_at(bytes, at) {
            breaks += 1;
            column = 0;
            proof {
                start = at as int;
            }
        } else if !(0x80 <= bytes[at - 1] && bytes[at - 1] <= 0xbf) {
            column += 1;
        }
    }
    Some(Position { line: breaks + 1, column: column + 1 })
}

} // verus!
