//! From the bytes of a file to what the compiler works with: the text of
//! a source, decoded and parsed, or a buffer of raw bytes.

use crate::error::FileError;
use crate::outside::{
    bytes_content, from_utf8, source_as_str, source_edit, source_file, source_new,
    source_text,
};
use typst::foundations::Bytes;
use typst::syntax::{FileId, Source};
use vstd::prelude::*;
use vstd::slice::slice_subrange;
use vstd::string::StringSliceAdditionalSpecFns;

verus! {

/// The bytes without a leading UTF-8 byte-order mark.
pub open spec fn without_bom(bytes: Seq<u8>) -> Seq<u8> {
    if bytes.len() >= 3 && bytes[0] == 0xef && bytes[1] == 0xbb && bytes[2] == 0xbf {
        bytes.subrange(3, bytes.len() as int)
    } else {
        bytes
    }
}

/// Decodes UTF-8 with an optional byte-order mark, which is not part of the
/// text.
pub fn decode_utf8(buf: &[u8]) -> (text: Result<&str, FileError>)
    ensures
        match text {
            Ok(t) => vstd::utf8::valid_utf8(without_bom(buf@)) && t.spec_bytes() == without_bom(
                buf@,
            ),
            Err(error) => !vstd::utf8::valid_utf8(without_bom(buf@)) && error
                == FileError::InvalidUtf8,
        },
{
    let has_bom = buf.len() >= 3 && buf[0] == 0xef && buf[1] == 0xbb && buf[2] == 0xbf;
    let rest = if has_bom {
        slice_subrange(buf, 3, buf.len())
    } else {
        buf
    };
    match from_utf8(rest) {
        Some(t) => Ok(t),
        None => Err(FileError::InvalidUtf8),
    }
}

/// What parsing the bytes of a file as a source gives: a source for the
/// file that holds the decoded text, or the decoding error.
pub open spec fn parsed(id: FileId, bytes: Seq<u8>, outcome: Result<Source, FileError>) -> bool {
    match outcome {
        Ok(source) => {
            &&& vstd::utf8::valid_utf8(without_bom(bytes))
            &&& vstd::utf8::encode_utf8(source_text(source)) == without_bom(bytes)
            &&& source_file(source) == id
        },
        Err(error) => !vstd::utf8::valid_utf8(without_bom(bytes)) && error
            == FileError::InvalidUtf8,
    }
}

/// What wrapping the bytes of a file gives: a buffer that holds them.
pub open spec fn wrapped(bytes: Seq<u8>, outcome: Result<Bytes, FileError>) -> bool {
    outcome matches Ok(buffer) && bytes_content(buffer) == bytes
}

/// A single edit that turns one text into another: the bytes from `start`
/// to `old_end` of the old text give way to the bytes from `start` to
/// `new_end` of the new text.
pub struct SingleEdit {
    pub start: usize,
    pub old_end: usize,
    pub new_end: usize,
}

/// Whether the texts agree in their first `n` bytes, and `n` lies between
/// whole characters in both.
pub open spec fn common_start(old: Seq<u8>, new: Seq<u8>, n: int) -> bool {
    &&& 0 <= n <= old.len()
    &&& n <= new.len()
    &&& old.subrange(0, n) == new.subrange(0, n)
    &&& vstd::utf8::is_char_boundary(old, n)
    &&& vstd::utf8::is_char_boundary(new, n)
}

/// Whether the texts agree in their last `n` bytes, those bytes lie behind
/// `start` in both, and they begin between whole characters in both.
pub open spec fn common_end(old: Seq<u8>, new: Seq<u8>, start: int, n: int) -> bool {
    &&& 0 <= n <= old.len() - start
    &&& n <= new.len() - start
    &&& old.subrange(old.len() - n, old.len() as int) == new.subrange(
        new.len() - n,
        new.len() as int,
    )
    &&& vstd::utf8::is_char_boundary(old, old.len() - n)
    &&& vstd::utf8::is_char_boundary(new, new.len() - n)
}

/// Whether the edit is the smallest single edit between whole characters
/// that turns `old` into `new`: it spares the longest common start of the
/// texts, and of the rest the longest common end.
pub open spec fn smallest_edit(edit: SingleEdit, old: Seq<u8>, new: Seq<u8>) -> bool {
    &&& common_start(old, new, edit.start as int)
    &&& forall|n: int| edit.start < n ==> !common_start(old, new, n)
    &&& edit.start <= edit.old_end <= old.len()
    &&& old.len() - edit.old_end == new.len() - edit.new_end
    &&& common_end(old, new, edit.start as int, old.len() - edit.old_end)
    &&& forall|n: int| old.len() - edit.old_end < n ==> !common_end(old, new, edit.start as int, n)
}

/// Finds the smallest single edit between whole characters that turns
/// `old` into `new`.
pub fn single_edit(old: &str, new: &str) -> (edit: SingleEdit)
    ensures
        smallest_edit(edit, old.spec_bytes(), new.spec_bytes()),
{
    broadcast use
        vstd::utf8::encode_utf8_valid_utf8,
        vstd::utf8::is_char_boundary_start_end_of_seq,
    ;

    let before = old.as_bytes();
    let after = new.as_bytes();
    let shorter = if before.len() < after.len() {
        before.len()
    } else {
        after.len()
    };
    let mut start: usize = 0;
    while start < shorter && before[start] == after[start]
        invariant
            start <= shorter <= before.len(),
            shorter <= after.len(),
            before@.subrange(0, start as int) == after@.subrange(0, start as int),
        decreases shorter - start,
    {
        assert(before@.subrange(0, start + 1) =~= before@.subrange(0, start as int).push(
            before@[start as int],
        ));
        assert(after@.subrange(0, start + 1) =~= after@.subrange(0, start as int).push(
            after@[start as int],
        ));
        start += 1;
    }
    proof {
        assert forall|n: int| start < n implies !common_start(before@, after@, n) by {
            if n <= shorter {
                assert(before@.subrange(0, n)[start as int] != after@.subrange(0, n)[start as int]);
            }
        }
    }
    while start > 0 && !(old.is_char_boundary(start) && new.is_char_boundary(start))
        invariant
            start <= shorter <= before.len(),
            shorter <= after.len(),
            before@ == old.spec_bytes(),
            after@ == new.spec_bytes(),
            before@.subrange(0, start as int) == after@.subrange(0, start as int),
            forall|n: int| start < n ==> !common_start(before@, after@, n),
        decreases start,
    {
        assert(before@.subrange(0, start - 1) =~= before@.subrange(0, start as int).subrange(
            0,
            start - 1,
        ));
        assert(after@.subrange(0, start - 1) =~= after@.subrange(0, start as int).subrange(
            0,
            start - 1,
        ));
        start -= 1;
    }
    let mut kept: usize = 0;
    while kept < shorter - start && before[before.len() - 1 - kept] == after[after.len() - 1
        - kept]
        invariant
            start <= shorter <= before.len(),
            shorter <= after.len(),
            kept <= shorter - start,
            before@.subrange(before.len() - kept, before.len() as int) == after@.subrange(
                after.len() - kept,
                after.len() as int,
            ),
        decreases shorter - start - kept,
    {
        assert(before@.subrange(before.len() - kept - 1, before.len() as int) =~= seq![
            before@[before.len() - kept - 1],
        ] + before@.subrange(before.len() - kept, before.len() as int));
        assert(after@.subrange(after.len() - kept - 1, after.len() as int) =~= seq![
            after@[after.len() - kept - 1],
        ] + after@.subrange(after.len() - kept, after.len() as int));
        kept += 1;
    }
    proof {
        assert forall|n: int| kept < n implies !common_end(before@, after@, start as int, n) by {
            if n <= shorter - start {
                assert(before@.subrange(before.len() - n, before.len() as int)[n - 1 - kept]
                    != after@.subrange(after.len() - n, after.len() as int)[n - 1 - kept]);
            }
        }
    }
    while kept > 0 && !(old.is_char_boundary(before.len() - kept) && new.is_char_boundary(
        after.len() - kept,
    ))
        invariant
            start <= shorter <= before.len(),
            shorter <= after.len(),
            kept <= shorter - start,
            before@ == old.spec_bytes(),
            after@ == new.spec_bytes(),
            before@.subrange(before.len() - kept, before.len() as int) == after@.subrange(
                after.len() - kept,
                after.len() as int,
            ),
            forall|n: int| kept < n ==> !common_end(before@, after@, start as int, n),
        decreases kept,
    {
        assert(before@.subrange(before.len() - kept + 1, before.len() as int)
            =~= before@.subrange(before.len() - kept, before.len() as int).subrange(
            1,
            kept as int,
        ));
        assert(after@.subrange(after.len() - kept + 1, after.len() as int) =~= after@.subrange(
            after.len() - kept,
            after.len() as int,
        ).subrange(1, kept as int));
        kept -= 1;
    }
    SingleEdit { start, old_end: before.len() - kept, new_end: after.len() - kept }
}

/// Brings a source that was parsed earlier up to a new text, by one edit
/// where the texts differ.
pub fn update_source(id: FileId, previous: Source, text: &str) -> (source: Source)
    requires
        source_file(previous) == id,
    ensures
        source_file(source) == id,
        vstd::utf8::encode_utf8(source_text(source)) == text.spec_bytes(),
{
    let edit = single_edit(source_as_str(&previous), text);
    let (kept, _) = text.split_at(edit.new_end);
    proof {
        vstd::utf8::encode_utf8_valid_utf8(text@);
        lemma_boundary_of_start(text.spec_bytes(), edit.start as int, edit.new_end as int);
    }
    let (_, with) = kept.split_at(edit.start);
    let ghost old = vstd::utf8::encode_utf8(source_text(previous));
    let source = source_edit(previous, edit.start, edit.old_end, with);
    proof {
        let new = text.spec_bytes();
        assert(with.spec_bytes() =~= new.subrange(edit.start as int, edit.new_end as int));
        assert(old.subrange(0, edit.start as int) + with.spec_bytes() + old.subrange(
            edit.old_end as int,
            old.len() as int,
        ) =~= new.subrange(0, edit.start as int) + new.subrange(
            edit.start as int,
            edit.new_end as int,
        ) + new.subrange(edit.new_end as int, new.len() as int));
        assert(new.subrange(0, edit.start as int) + new.subrange(
            edit.start as int,
            edit.new_end as int,
        ) + new.subrange(edit.new_end as int, new.len() as int) =~= new);
    }
    source
}

/// A character boundary of a text is one of every start of the text that
/// ends at a later character boundary.
proof fn lemma_boundary_of_start(text: Seq<u8>, at: int, end: int)
    requires
        vstd::utf8::valid_utf8(text),
        0 <= at <= end <= text.len(),
        vstd::utf8::is_char_boundary(text, at),
        vstd::utf8::is_char_boundary(text, end),
    ensures
        vstd::utf8::valid_utf8(text.subrange(0, end)),
        vstd::utf8::is_char_boundary(text.subrange(0, end), at),
{
    let start = text.subrange(0, end);
    vstd::utf8::valid_utf8_split(text, end);
    if at < end {
        vstd::utf8::is_char_boundary_iff_not_is_continuation_byte(text, at);
        vstd::utf8::is_char_boundary_iff_not_is_continuation_byte(start, at);
    } else {
        vstd::utf8::is_char_boundary_start_end_of_seq(start);
    }
}

/// Parses the bytes of a file. A source parsed earlier for the same file is
/// edited in place of a full parse.
pub fn parse_source(id: FileId, data: Vec<u8>, prev: Option<Source>) -> (outcome: Result<
    Source,
    FileError,
>)
    requires
        prev matches Some(previous) ==> source_file(previous) == id,
    ensures
        parsed(id, data@, outcome),
{
    let text = match decode_utf8(data.as_slice()) {
        Ok(text) => text,
        Err(error) => {
            return Err(error);
        },
    };
    match prev {
        Some(previous) => Ok(update_source(id, previous, text)),
        None => Ok(source_new(id, text.to_owned())),
    }
}

} // verus!
