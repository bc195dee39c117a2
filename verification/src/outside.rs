//! Declarations and contracts for the items of other crates that the
//! library calls. Nothing in this module is proved: each contract restates
//! what the named function's source or documentation promises.

use chrono::Datelike;
use crate::diagnostic::{RawDiagnostic, RawSpan, RawTracePoint, Severity};
use crate::error::FileError;
use crate::options::PdfStandardNif;
use crate::page_range::PageRange;
use std::num::NonZeroUsize;
use typst::diag::{Severity as Level, SourceDiagnostic};
use typst::foundations::Smart;
use typst::layout::PageRanges;
use typst::syntax::Span;
use vstd::prelude::*;
use vstd::string::StringSliceAdditionalSpecFns;

verus! {

/// `typst::syntax::FileId`: an interned file identity, carried as an opaque value.
#[verifier::external_type_specification]
#[verifier::external_body]
pub struct ExFileId(typst::syntax::FileId);

/// `typst::syntax::Source`: a parsed source file, carried as an opaque value.
#[verifier::external_type_specification]
#[verifier::external_body]
pub struct ExSource(typst::syntax::Source);

/// `typst::foundations::Bytes`: a shared byte buffer, carried as an opaque value.
#[verifier::external_type_specification]
#[verifier::external_body]
pub struct ExBytes(typst::foundations::Bytes);

/// `typst::layout::PagedDocument`: a laid-out document, carried as an opaque value.
#[verifier::external_type_specification]
#[verifier::external_body]
pub struct ExPagedDocument(typst::layout::PagedDocument);

/// `typst_pdf::PdfStandards`: a set of PDF standards that go together,
/// carried as an opaque value.
#[verifier::external_type_specification]
#[verifier::external_body]
pub struct ExPdfStandards(typst_pdf::PdfStandards);

/// `typst_pdf::PdfStandard`: a PDF standard, with its variants.
#[verifier::external_type_specification]
pub struct ExPdfStandard(typst_pdf::PdfStandard);

/// `typst_pdf::PdfOptions`: the settings of a PDF export, carried as an
/// opaque value.
#[verifier::external_type_specification]
#[verifier::external_body]
pub struct ExPdfOptions<'a>(typst_pdf::PdfOptions<'a>);

/// `std::path::PathBuf`: a path of the file system, carried as an opaque value.
#[verifier::external_type_specification]
#[verifier::external_body]
pub struct ExPathBuf(std::path::PathBuf);

/// What `VirtualPath::resolve` returns for the path of a file identity and
/// a root: the root with the components of the path joined to it, or
/// nothing if the path leaves the root.
pub uninterp spec fn resolved_path(id: typst::syntax::FileId, root: std::path::PathBuf) -> Option<
    std::path::PathBuf,
>;

/// `VirtualPath::resolve` on the path of a file identity. It joins the
/// components of the path to the root and touches no file system, so the
/// result depends on the identity and the root alone.
#[verifier::external_body]
pub(crate) fn resolve_path(id: typst::syntax::FileId, root: &std::path::PathBuf) -> (path: Option<
    std::path::PathBuf,
>)
    ensures
        path == resolved_path(id, *root),
{
    id.vpath().resolve(root)
}

/// `FileId`'s `==`: two identities are equal exactly when they are the same
/// interned value.
#[verifier::external_body]
pub(crate) fn same_file(a: typst::syntax::FileId, b: typst::syntax::FileId) -> (same: bool)
    ensures
        same == (a == b),
{
    a.eq(&b)
}

/// The text that a `typst::syntax::Source` holds.
pub uninterp spec fn source_text(source: typst::syntax::Source) -> Seq<char>;

/// The file identity that a `typst::syntax::Source` was made for.
pub uninterp spec fn source_file(source: typst::syntax::Source) -> typst::syntax::FileId;

/// The bytes that a `typst::foundations::Bytes` holds.
pub uninterp spec fn bytes_content(bytes: typst::foundations::Bytes) -> Seq<u8>;

/// What `typst::utils::hash128` returns for the outcome of a load.
pub uninterp spec fn fingerprint_of(loaded: Result<Seq<u8>, FileError>) -> u128;

/// The outcome of a load, with the bytes as a sequence.
pub open spec fn loaded_view(loaded: Result<Vec<u8>, FileError>) -> Result<Seq<u8>, FileError> {
    match loaded {
        Ok(bytes) => Ok(bytes@),
        Err(error) => Err(error),
    }
}

/// `typst::utils::hash128` on the outcome of a load. It feeds the value to a
/// SipHash-1-3 with a fixed key, so equal outcomes hash alike.
#[verifier::external_body]
pub(crate) fn fingerprint(loaded: &Result<Vec<u8>, FileError>) -> (hash: u128)
    ensures
        hash == fingerprint_of(loaded_view(*loaded)),
{
    typst::utils::hash128(loaded)
}

/// `std::str::from_utf8`: succeeds exactly on valid UTF-8, and the string
/// it returns consists of the bytes given.
#[verifier::external_body]
pub(crate) fn from_utf8(bytes: &[u8]) -> (text: Option<&str>)
    ensures
        text is Some <==> vstd::utf8::valid_utf8(bytes@),
        text matches Some(t) ==> t.spec_bytes() == bytes@,
{
    std::str::from_utf8(bytes).ok()
}

/// `Source::new`: parses the text under the given identity; the source
/// holds the identity and the text unchanged.
#[verifier::external_body]
pub(crate) fn source_new(id: typst::syntax::FileId, text: String) -> (source: typst::syntax::Source)
    ensures
        source_file(source) == id,
        source_text(source) == text@,
{
    typst::syntax::Source::new(id, text)
}

/// `Source::edit`: replaces a range of bytes of the text of a source,
/// reparsing only what changed; the source keeps its identity. The range
/// must lie within the text and on character boundaries.
#[verifier::external_body]
pub(crate) fn source_edit(
    previous: typst::syntax::Source,
    start: usize,
    end: usize,
    with: &str,
) -> (source: typst::syntax::Source)
    requires
        start <= end <= vstd::utf8::encode_utf8(source_text(previous)).len(),
        vstd::utf8::is_char_boundary(vstd::utf8::encode_utf8(source_text(previous)), start as int),
        vstd::utf8::is_char_boundary(vstd::utf8::encode_utf8(source_text(previous)), end as int),
    ensures
        source_file(source) == source_file(previous),
        vstd::utf8::encode_utf8(source_text(source)) == vstd::utf8::encode_utf8(
            source_text(previous),
        ).subrange(0, start as int) + with.spec_bytes() + vstd::utf8::encode_utf8(
            source_text(previous),
        ).subrange(end as int, vstd::utf8::encode_utf8(source_text(previous)).len() as int),
{
    let mut source = previous;
    source.edit(start..end, with);
    source
}

/// `Source::text`: the whole text of a source.
#[verifier::external_body]
pub(crate) fn source_as_str<'a>(source: &'a typst::syntax::Source) -> (text: &'a str)
    ensures
        text@ == source_text(*source),
{
    source.text()
}

/// `Bytes::new`: wraps a buffer; the result holds the same bytes.
#[verifier::external_body]
pub(crate) fn bytes_new(data: Vec<u8>) -> (bytes: typst::foundations::Bytes)
    ensures
        bytes_content(bytes) == data@,
{
    typst::foundations::Bytes::new(data)
}

/// Cloning a `Source` shares its contents: the clone is the same value.
pub assume_specification[ <typst::syntax::Source as Clone>::clone ](
    source: &typst::syntax::Source,
) -> (copy: typst::syntax::Source)
    ensures
        copy == *source,
;

/// Cloning a `Bytes` shares its buffer: the clone is the same value.
pub assume_specification[ <typst::foundations::Bytes as Clone>::clone ](
    bytes: &typst::foundations::Bytes,
) -> (copy: typst::foundations::Bytes)
    ensures
        copy == *bytes,
;

/// The calendar date (year, month, day) that chrono gives for an instant,
/// in seconds since the Unix epoch, at a fixed offset east of UTC in
/// seconds; `None` where chrono cannot represent the instant or the offset.
pub uninterp spec fn civil_date(timestamp: i64, offset_seconds: i32) -> Option<(i32, u32, u32)>;

/// `chrono::Utc::now`, in whole seconds since the Unix epoch. Nothing is
/// promised of the value.
#[verifier::external_body]
pub(crate) fn utc_now() -> (timestamp: i64) {
    chrono::Utc::now().timestamp()
}

/// `DateTime::from_timestamp`, `FixedOffset::east_opt` and
/// `DateTime::with_timezone`, then `Datelike::{year, month, day}`: the
/// calendar date of an instant at a fixed offset. `east_opt` refuses an
/// offset of a day or more; months are numbered from 1 to 12 and days from
/// 1 to 31.
#[verifier::external_body]
pub(crate) fn date_at_offset(timestamp: i64, offset_seconds: i32) -> (date: Option<(i32, u32, u32)>)
    ensures
        date == civil_date(timestamp, offset_seconds),
        !(-86_400 < offset_seconds < 86_400) ==> date is None,
        date matches Some((_, month, day)) ==> 1 <= month <= 12 && 1 <= day <= 31,
{
    let utc = chrono::DateTime::from_timestamp(timestamp, 0)?;
    let shifted = utc.with_timezone(&chrono::FixedOffset::east_opt(offset_seconds)?);
    Some((shifted.year(), shifted.month(), shifted.day()))
}

/// Whether `date` is the calendar date of the instant at some fixed offset
/// of less than a day.
pub open spec fn at_some_offset(timestamp: i64, date: Option<(i32, u32, u32)>) -> bool {
    exists|offset_seconds: i32|
        -86_400 < offset_seconds < 86_400 && date == #[trigger] civil_date(
            timestamp,
            offset_seconds,
        )
}

/// `DateTime::with_timezone(&Local)`, then `Datelike::{year, month, day}`:
/// the calendar date of an instant in the time zone of the machine. At any
/// instant that zone is some fixed offset of less than a day, so the date
/// is the one at that offset; which offset it is depends on the machine.
/// Months are numbered from 1 to 12 and days from 1 to 31.
#[verifier::external_body]
pub(crate) fn date_in_local_zone(timestamp: i64) -> (date: Option<(i32, u32, u32)>)
    ensures
        at_some_offset(timestamp, date),
        date matches Some((_, month, day)) ==> 1 <= month <= 12 && 1 <= day <= 31,
{
    let utc = chrono::DateTime::from_timestamp(timestamp, 0)?;
    let local = utc.with_timezone(&chrono::Local).fixed_offset();
    Some((local.year(), local.month(), local.day()))
}

/// `String::push`: appends a character to a string.
#[verifier::external_body]
pub(crate) fn push_char(text: &mut String, c: char)
    ensures
        final(text)@ == old(text)@.push(c),
{
    text.push(c)
}

/// The number of pages of a `PagedDocument`.
pub uninterp spec fn page_count_of(document: typst::layout::PagedDocument) -> nat;

/// The length of the public field `pages` of a `PagedDocument`.
#[verifier::external_body]
pub(crate) fn page_count(document: &typst::layout::PagedDocument) -> (count: usize)
    ensures
        count == page_count_of(*document),
{
    document.pages.len()
}

/// What `typst_svg::svg` returns for the page at an index of a document.
pub uninterp spec fn page_svg(document: typst::layout::PagedDocument, index: usize) -> Seq<char>;

/// `typst_svg::svg` on one page of a document: the page as an SVG image.
/// The renderer works from the page alone.
#[verifier::external_body]
pub(crate) fn render_svg(document: &typst::layout::PagedDocument, index: usize) -> (image: String)
    requires
        index < page_count_of(*document),
    ensures
        image@ == page_svg(*document, index),
{
    typst_svg::svg(&document.pages[index])
}

/// Whether a list of standards names both PDF/A-2b and PDF/A-3b.
pub open spec fn standards_conflict(list: Seq<PdfStandardNif>) -> bool {
    list.contains(PdfStandardNif::PdfA2b) && list.contains(PdfStandardNif::PdfA3b)
}

/// What `PdfStandards::new` says of a list that it refuses.
pub open spec fn standards_conflict_text() -> Seq<char> {
    "PDF cannot conform to A-2B and A-3B at the same time"@
}

/// The set that `PdfStandards::new` makes of a list of standards that go
/// together.
pub uninterp spec fn standards_for(list: Seq<PdfStandardNif>) -> typst_pdf::PdfStandards;

/// `PdfStandards::new`: the standards as one set. It refuses exactly the
/// lists that name both PDF/A-2b and PDF/A-3b, with a fixed message; the
/// set that it makes of any other list depends on the list alone.
#[verifier::external_body]
pub(crate) fn pdf_standards(list: &Vec<PdfStandardNif>) -> (standards: Result<
    typst_pdf::PdfStandards,
    String,
>)
    ensures
        standards is Err <==> standards_conflict(list@),
        standards matches Err(message) ==> message@ == standards_conflict_text(),
        standards matches Ok(set) ==> set == standards_for(list@),
{
    let list: Vec<typst_pdf::PdfStandard> = list.iter().map(|standard| (*standard).into()).collect();
    typst_pdf::PdfStandards::new(&list).map_err(|message| message.to_string())
}

/// The identifier that the settings of an export hold, if they hold one.
pub uninterp spec fn options_ident(options: typst_pdf::PdfOptions<'_>) -> Option<Seq<char>>;

/// The page ranges that the settings of an export hold, if they hold any.
pub uninterp spec fn options_ranges(options: typst_pdf::PdfOptions<'_>) -> Option<Seq<PageRange>>;

/// The standards that the settings of an export hold.
pub uninterp spec fn options_standards(options: typst_pdf::PdfOptions<'_>) -> typst_pdf::PdfStandards;

/// Whether the settings of an export hold a timestamp for the file.
pub uninterp spec fn options_timestamped(options: typst_pdf::PdfOptions<'_>) -> bool;

/// The text of an optional string.
pub open spec fn text_view(text: Option<&str>) -> Option<Seq<char>> {
    match text {
        Some(text) => Some(text@),
        None => None,
    }
}

/// The items of an optional list of page ranges.
pub open spec fn ranges_view(ranges: Option<&Vec<PageRange>>) -> Option<Seq<PageRange>> {
    match ranges {
        Some(ranges) => Some(ranges@),
        None => None,
    }
}

/// The fields of a `typst_pdf::PdfOptions`: the identifier given or
/// `Smart::Auto`, no timestamp, the page ranges as `PageRanges::new` takes
/// them, and the standards. Page numbers start at 1, so that each bound
/// goes into the range as it is.
#[verifier::external_body]
pub(crate) fn pdf_options<'a>(
    ident: Option<&'a str>,
    standards: typst_pdf::PdfStandards,
    ranges: Option<&Vec<PageRange>>,
) -> (options: typst_pdf::PdfOptions<'a>)
    requires
        ranges matches Some(list) ==> forall|i: int|
            0 <= i < list@.len() ==> (#[trigger] list@[i]).start >= 1 && list@[i].end >= 1,
    ensures
        options_ident(options) == text_view(ident),
        options_ranges(options) == ranges_view(ranges),
        options_standards(options) == standards,
        !options_timestamped(options),
{
    let bounds = |r: &PageRange| NonZeroUsize::new(r.start)..=NonZeroUsize::new(r.end);
    let page_ranges = ranges.map(|ranges| PageRanges::new(ranges.iter().map(bounds).collect()));
    let ident = ident.map_or(Smart::Auto, Smart::Custom);
    typst_pdf::PdfOptions { ident, timestamp: None, page_ranges, standards }
}

/// What `typst_pdf::pdf` returns for a document and the settings of an
/// export: the bytes of the file, or the diagnostics of the serializer.
pub uninterp spec fn pdf_written(
    document: typst::layout::PagedDocument,
    options: typst_pdf::PdfOptions<'_>,
) -> Result<Seq<u8>, Seq<RawDiagnostic>>;

/// What was written, with the bytes and the diagnostics as sequences.
pub open spec fn written_view(written: Result<Vec<u8>, Vec<RawDiagnostic>>) -> Result<
    Seq<u8>,
    Seq<RawDiagnostic>,
> {
    match written {
        Ok(bytes) => Ok(bytes@),
        Err(diagnostics) => Err(diagnostics@),
    }
}

/// `typst_pdf::pdf`: the document as the bytes of a PDF file, or the
/// diagnostics of the serializer. The serializer works from the document
/// and the settings alone. Of each diagnostic the public fields are handed
/// on: each span by `Span::id` and `Span::range` (the byte range, where the
/// span itself carries one), each tracepoint written out by its `Display`.
#[verifier::external_body]
pub(crate) fn write_pdf(
    document: &typst::layout::PagedDocument,
    options: &typst_pdf::PdfOptions,
) -> (written: Result<Vec<u8>, Vec<RawDiagnostic>>)
    ensures
        written_view(written) == pdf_written(*document, *options),
{
    let span = |s: Span| RawSpan { file: s.id(), range: s.range().map(|r| (r.start, r.end)) };
    let raw = |d: &SourceDiagnostic| RawDiagnostic {
        severity: match d.severity {
            Level::Error => Severity::Error,
            Level::Warning => Severity::Warning,
        },
        message: d.message.to_string(),
        span: span(d.span),
        trace: d.trace.iter().map(|p| RawTracePoint { span: span(p.span), message: p.v.to_string() }).collect(),
        hints: d.hints.iter().map(ToString::to_string).collect(),
    };
    typst_pdf::pdf(document, options).map_err(|errors| errors.iter().map(raw).collect())
}

} // verus!
