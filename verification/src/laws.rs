//! Laws that relate the operations of the library to each other.

use crate::cache::refreshed;
use crate::cell::{revalidated, same_outcome, CellState};
use crate::parsing::{parsed, without_bom};
use crate::diagnostic::{report_all, reports, Diagnostic, RawDiagnostic};
use crate::document::no_document_text;
use crate::error::FileError;
use crate::options::PdfOptionsNif;
use crate::outside::{bytes_content, fingerprint_of, loaded_view};
use crate::position::{
    characters, is_continuation, line_breaks, line_start, position_at, starts_line, Position,
};
use crate::session::SessionState;
use crate::world::{file_provided, source_provided, WorldState};
use typst::foundations::Bytes;
use typst::syntax::{FileId, Source};
use vstd::prelude::*;

verus! {

/// A cell that holds an outcome, and is revalidated against data with the
/// fingerprint that it holds, keeps the outcome and hands out a copy of it.
/// Neither the data nor the transform plays a part.
pub proof fn lemma_held_fingerprint_skips_transform<
    T: Clone,
    F: FnOnce(Vec<u8>, Option<T>) -> Result<T, FileError>,
>(
    pre: CellState<T>,
    loaded: Result<Vec<u8>, FileError>,
    f: F,
    post: CellState<T>,
    result: Result<T, FileError>,
)
    requires
        pre.data is Some,
        revalidated(pre, loaded, pre.fingerprint, f, post, result),
    ensures
        post.data == pre.data,
        post.fingerprint == pre.fingerprint,
        same_outcome(pre.data->0, result),
{
}

/// A slot cell that holds an outcome, and is read when the file has the
/// fingerprint that the cell holds, hands out the outcome that it holds and
/// keeps it. How the data would be processed plays no part.
pub proof fn lemma_unchanged_fingerprint_reuses<T>(
    pre: CellState<T>,
    loaded: Result<Vec<u8>, FileError>,
    processed: spec_fn(Seq<u8>, Result<T, FileError>) -> bool,
    post: CellState<T>,
    result: Result<T, FileError>,
)
    requires
        pre.data is Some,
        pre.fingerprint == fingerprint_of(loaded_view(loaded)),
        refreshed(pre, loaded, processed, post, result),
    ensures
        post.data == pre.data,
        pre.data == Some(result),
{
}

/// A file that is read in two compilations, with the same bytes or the same
/// error both times, is processed in the first only: the second hands out
/// the outcome of the first, whatever its own processing would give.
pub proof fn lemma_same_content_is_processed_once<T>(
    start: CellState<T>,
    first: Result<Vec<u8>, FileError>,
    processed_first: spec_fn(Seq<u8>, Result<T, FileError>) -> bool,
    between: CellState<T>,
    first_result: Result<T, FileError>,
    second: Result<Vec<u8>, FileError>,
    processed_second: spec_fn(Seq<u8>, Result<T, FileError>) -> bool,
    end: CellState<T>,
    second_result: Result<T, FileError>,
)
    requires
        refreshed(start, first, processed_first, between, first_result),
        loaded_view(second) == loaded_view(first),
        refreshed(
            CellState { accessed: false, ..between },
            second,
            processed_second,
            end,
            second_result,
        ),
    ensures
        second_result == first_result,
        end == between,
{
}

/// After the markup or a virtual file was replaced, or a virtual file
/// removed, rendering and exporting are refused for want of a compiled
/// document, whatever the session held before.
pub proof fn lemma_edit_empties_session(
    session: SessionState,
    text: Seq<char>,
    id: FileId,
    content: Seq<u8>,
    page_index: usize,
    options: PdfOptionsNif,
)
    ensures
        session.with_markup(text).render_refusal(page_index) == Some(no_document_text()),
        session.with_markup(text).export_refusal(options) == Some(no_document_text()),
        session.with_virtual_file(id, content).render_refusal(page_index) == Some(
            no_document_text(),
        ),
        session.with_virtual_file(id, content).export_refusal(options) == Some(
            no_document_text(),
        ),
        session.without_virtual_file(id).render_refusal(page_index) == Some(no_document_text()),
        session.without_virtual_file(id).export_refusal(options) == Some(no_document_text()),
{
}

/// After a compilation that failed, rendering and exporting are refused for
/// want of a compiled document: the errors of the compilation are not
/// reported again, and a document of an earlier compilation is gone.
pub proof fn lemma_failed_compile_empties_session(
    session: SessionState,
    errors: Vec<RawDiagnostic>,
    page_index: usize,
    options: PdfOptionsNif,
)
    ensures
        session.finished(Err(errors)).document is None,
        session.finished(Err(errors)).render_refusal(page_index) == Some(no_document_text()),
        session.finished(Err(errors)).export_refusal(options) == Some(no_document_text()),
{
}

/// A virtual file shadows the cache and the disk: for a file other than the
/// main file, the world knows the text of its virtual file, and provides
/// that as its source without a change to the cache, whatever the cache
/// holds and whatever loading the file would give.
pub proof fn lemma_virtual_file_shadows<L: FnOnce() -> Result<Vec<u8>, FileError>>(
    world: WorldState,
    id: FileId,
    load: L,
    after: WorldState,
    result: Result<Source, FileError>,
)
    requires
        id != world.main,
        world.overlay.contains_key(id),
        source_provided(world, id, load, after, result),
    ensures
        after == world,
        parsed(id, world.overlay[id], result),
        world.known_text(id) == if vstd::utf8::valid_utf8(without_bom(world.overlay[id])) {
            Some(without_bom(world.overlay[id]))
        } else {
            None::<Seq<u8>>
        },
{
}

/// A virtual file shadows the cache and the disk for raw bytes as well: the
/// world provides the content of the virtual file, without a change to the
/// cache, whatever the cache holds and whatever loading the file would give.
pub proof fn lemma_virtual_bytes_shadow<L: FnOnce() -> Result<Vec<u8>, FileError>>(
    world: WorldState,
    id: FileId,
    load: L,
    after: WorldState,
    result: Result<Bytes, FileError>,
)
    requires
        id != world.main,
        world.overlay.contains_key(id),
        file_provided(world, id, load, after, result),
    ensures
        after == world,
        result matches Ok(buffer) && bytes_content(buffer) == world.overlay[id],
{
}

/// Positions are counted from 1, and the start of a text is at line 1 and
/// column 1.
pub proof fn lemma_positions_count_from_one(text: Seq<u8>, offset: int)
    ensures
        position_at(text, offset) matches Some((line, column)) ==> line >= 1 && column >= 1,
        text.len() == 0 || !is_continuation(text[0]) ==> position_at(text, 0) == Some(
            (1nat, 1nat),
        ),
{
}

/// Whether a text ends its lines with line feeds only: it holds no
/// vertical tab, form feed or carriage return, and no next line, line
/// separator or paragraph separator.
pub open spec fn ends_lines_with_line_feeds(text: Seq<u8>) -> bool {
    forall|i: int|
        0 <= i < text.len() ==> {
            &&& (#[trigger] text[i]) != 0x0b
            &&& text[i] != 0x0c
            &&& text[i] != 0x0d
            &&& !(i >= 1 && text[i - 1] == 0xc2 && text[i] == 0x85)
            &&& !(i >= 2 && text[i - 2] == 0xe2 && text[i - 1] == 0x80 && (text[i] == 0xa8
                || text[i] == 0xa9))
        }
}

/// The number of line feeds in `text[..upto]`.
pub open spec fn line_feeds(text: Seq<u8>, upto: int) -> nat
    decreases upto,
{
    if upto <= 0 {
        0
    } else {
        line_feeds(text, upto - 1) + if text[upto - 1] == 0x0a {
            1nat
        } else {
            0nat
        }
    }
}

/// The offset behind the last line feed in `text[..offset]`, or 0 if there
/// is none.
pub open spec fn behind_last_line_feed(text: Seq<u8>, offset: int) -> int
    decreases offset,
{
    if offset <= 0 {
        0
    } else if text[offset - 1] == 0x0a {
        offset
    } else {
        behind_last_line_feed(text, offset - 1)
    }
}

/// In a text that ends its lines with line feeds only, the lines that start
/// up to an offset are as many as the line feeds before it, and the line
/// that holds the offset starts behind the last of them.
pub proof fn lemma_lines_follow_line_feeds(text: Seq<u8>, offset: int)
    requires
        ends_lines_with_line_feeds(text),
        0 <= offset <= text.len(),
    ensures
        line_breaks(text, offset) == line_feeds(text, offset),
        line_start(text, offset) == behind_last_line_feed(text, offset),
    decreases offset,
{
    if offset > 0 {
        lemma_lines_follow_line_feeds(text, offset - 1);
        assert(text[offset - 1] != 0x0b);
        assert(starts_line(text, offset) == (text[offset - 1] == 0x0a));
    }
}

/// In a text that ends its lines with line feeds only, the position of a
/// byte offset is one more than the number of line feeds before it, and one
/// more than the number of characters between the last of them and the
/// offset. Offsets inside a character, and the largest offset there is,
/// have no position.
pub proof fn lemma_position_counts_line_feeds(text: Seq<u8>, offset: int)
    requires
        ends_lines_with_line_feeds(text),
        0 <= offset <= text.len(),
        offset < usize::MAX,
        offset < text.len() ==> !is_continuation(text[offset]),
    ensures
        position_at(text, offset) == Some(
            (
                1 + line_feeds(text, offset),
                1 + characters(text, behind_last_line_feed(text, offset), offset),
            ),
        ),
{
    lemma_lines_follow_line_feeds(text, offset);
}

/// The start of a compilation changes no position: the world knows the
/// same texts as before.
pub proof fn lemma_start_keeps_positions(session: SessionState, id: FileId, offset: usize)
    ensures
        session.started().world.known_text(id) == session.world.known_text(id),
        session.started().world.position_of(id, offset) == session.world.position_of(id, offset),
{
}

/// Reporting is a function of the compiler diagnostic and the positions:
/// two reports of one diagnostic agree in every part.
pub proof fn lemma_reports_agree(
    raw: RawDiagnostic,
    first: Diagnostic,
    second: Diagnostic,
    positions: spec_fn(FileId, usize) -> Option<Position>,
)
    requires
        reports(raw, first, positions),
        reports(raw, second, positions),
    ensures
        first.severity == second.severity,
        first.message == second.message,
        first.span == second.span,
        first.hints@ == second.hints@,
        first.trace@ == second.trace@,
{
    assert(first.trace@ =~= second.trace@);
}

/// Compiling twice with nothing changed in between gives the same reports:
/// where the compiler returns the same diagnostics both times, the second
/// compilation reports them as the first did.
pub proof fn lemma_recompiling_reports_alike(
    session: SessionState,
    raw: Seq<RawDiagnostic>,
    first: Seq<Diagnostic>,
    second: Seq<Diagnostic>,
    output: Result<typst::layout::PagedDocument, Vec<RawDiagnostic>>,
)
    requires
        report_all(raw, first, session.started().world.positions()),
        report_all(raw, second, session.started().finished(output).started().world.positions()),
    ensures
        first.len() == second.len(),
        forall|i: int|
            0 <= i < first.len() ==> {
                &&& (#[trigger] first[i]).severity == second[i].severity
                &&& first[i].message == second[i].message
                &&& first[i].span == second[i].span
                &&& first[i].hints@ == second[i].hints@
                &&& first[i].trace@ == second[i].trace@
            },
{
    let before = session.started().world;
    let after = session.started().finished(output).started().world;
    assert(after.cache =~= before.cache);
    assert(after == before);
    assert forall|i: int| 0 <= i < first.len() implies {
        &&& (#[trigger] first[i]).severity == second[i].severity
        &&& first[i].message == second[i].message
        &&& first[i].span == second[i].span
        &&& first[i].hints@ == second[i].hints@
        &&& first[i].trace@ == second[i].trace@
    } by {
        lemma_reports_agree(raw[i], first[i], second[i], before.positions());
    }
}

} // verus!
