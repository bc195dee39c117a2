//! What is done with a compiled document: rendering a page, and exporting
//! the document as a PDF file.

use crate::diagnostic::{
    diagnostic_texts, diagnostics_to_string, no_positions, report_all, unresolved, Diagnostic,
    RawDiagnostic, Severity,
};
use crate::options::PdfOptionsNif;
use crate::outside::{
    options_ident, options_ranges, options_standards, options_timestamped, page_count,
    page_count_of, page_svg,
    pdf_options, pdf_standards, pdf_written, push_char, render_svg, standards_conflict,
    standards_conflict_text, standards_for, write_pdf, written_view,
};
use crate::page_range::{pages_view, parse, refusal_text, selection, PageRange};
use crate::position::Position;
use typst::syntax::FileId;
use crate::text::{decimal, joined, push_decimal};
use crate::world::SystemWorld;
use typst::layout::PagedDocument;
use typst_pdf::PdfOptions;
use vstd::prelude::*;
use vstd::string::StringExecFns;

verus! {

/// What is said where an operation needs a compiled document and there is
/// none.
pub open spec fn no_document_text() -> Seq<char> {
    "no compiled document: compile the markup before rendering or exporting"@
}

/// What is said of a page index that the document does not have.
pub open spec fn page_out_of_range_text(index: nat, count: nat) -> Seq<char> {
    "page index "@ + decimal(index) + " is out of range: the document has "@ + decimal(count)
        + " pages"@
}

/// What is said of standards that do not go together.
pub open spec fn invalid_standards_text(reason: Seq<char>) -> Seq<char> {
    "Invalid PDF standards: "@ + reason
}

/// An error with the given message that points nowhere.
pub open spec fn is_bare_error(diagnostic: Diagnostic, message: Seq<char>) -> bool {
    &&& diagnostic.severity == Severity::Error
    &&& diagnostic.message@ == message
    &&& diagnostic.span is None
    &&& diagnostic.trace@.len() == 0
    &&& diagnostic.hints@.len() == 0
}

/// The result is a refusal: a single error with the given message that
/// points nowhere.
pub open spec fn refused_with<T>(result: Result<T, Vec<Diagnostic>>, message: Seq<char>) -> bool {
    result matches Err(diagnostics) && diagnostics@.len() == 1 && is_bare_error(
        diagnostics@[0],
        message,
    )
}

/// Why export options are refused for a document of `count` pages, if they
/// are: for standards that do not go together, else for a page-range
/// selector that does not fit the document.
pub open spec fn options_refusal(options: PdfOptionsNif, count: nat) -> Option<Seq<char>> {
    if standards_conflict(options.pdf_standards@) {
        Some(invalid_standards_text(standards_conflict_text()))
    } else {
        match options.pages {
            Some(selector) => match selection(selector@, count) {
                Err((violation, token)) => Some(refusal_text(violation, token, count)),
                Ok(_) => None,
            },
            None => None,
        }
    }
}

/// Whether the settings of an export hold what the options ask of a
/// document of `count` pages: the identifier of the options or none, the
/// set made of their standards, the ranges that their selector denotes or
/// none, and no timestamp.
pub open spec fn settings_hold(options: PdfOptionsNif, count: nat, settings: PdfOptions<'_>) -> bool {
    &&& !options_timestamped(settings)
    &&& options_ident(settings) == match options.document_id {
        Some(ident) => Some(ident@),
        None => None,
    }
    &&& options_standards(settings) == standards_for(options.pdf_standards@)
    &&& match options.pages {
        Some(selector) => options_ranges(settings) matches Some(list) && selection(
            selector@,
            count,
        ) == Ok::<Seq<(nat, nat)>, (crate::page_range::Violation, Seq<char>)>(pages_view(list)),
        None => options_ranges(settings) is None,
    }
}

/// What an export comes to, given what the serializer returns: the bytes of
/// the file, or its diagnostics, reported in their order and without
/// positions.
pub open spec fn exported(
    written: Result<Seq<u8>, Seq<RawDiagnostic>>,
    result: Result<Vec<u8>, Vec<Diagnostic>>,
) -> bool {
    match written {
        Ok(bytes) => result matches Ok(file) && file@ == bytes,
        Err(raw) => {
            &&& result matches Err(diagnostics)
            &&& report_all(raw, diagnostics@, no_positions())
            &&& forall|i: int|
                0 <= i < diagnostics@.len() ==> unresolved(#[trigger] diagnostics@[i])
        },
    }
}

/// What the export of a document comes to where the options fit it: the
/// serializer is run on the document with settings that hold what the
/// options ask, and what it returns is the outcome.
pub open spec fn export_outcome(
    document: PagedDocument,
    options: PdfOptionsNif,
    result: Result<Vec<u8>, Vec<Diagnostic>>,
) -> bool {
    exists|settings: PdfOptions<'_>|
        #[trigger] settings_hold(options, page_count_of(document), settings) && exported(
            pdf_written(document, settings),
            result,
        )
}

/// A refusal with the given message.
pub fn refuse<T>(message: String) -> (result: Result<T, Vec<Diagnostic>>)
    ensures
        refused_with(result, message@),
{
    let mut diagnostics: Vec<Diagnostic> = Vec::new();
    diagnostics.push(Diagnostic::error(message));
    Err(diagnostics)
}

/// The refusal of an operation that needs a compiled document.
pub fn refuse_without_document<T>() -> (result: Result<T, Vec<Diagnostic>>)
    ensures
        refused_with(result, no_document_text()),
{
    refuse("no compiled document: compile the markup before rendering or exporting".to_owned())
}

impl PdfOptionsNif {
    /// Checks the options against a document of `page_count` pages and
    /// turns them into the settings of the serializer.
    pub fn to_pdf_options(&self, page_count: usize) -> (result: Result<PdfOptions<'_>, Diagnostic>)
        ensures
            match options_refusal(*self, page_count as nat) {
                Some(message) => result matches Err(diagnostic) && is_bare_error(
                    diagnostic,
                    message,
                ),
                None => result matches Ok(settings) && settings_hold(
                    *self,
                    page_count as nat,
                    settings,
                ),
            },
    {
        let standards = match pdf_standards(&self.pdf_standards) {
            Ok(standards) => standards,
            Err(reason) => {
                let mut message = "Invalid PDF standards: ".to_owned();
                message.append(reason.as_str());
                return Err(Diagnostic::error(message));
            },
        };
        let ranges: Option<Vec<PageRange>> = match &self.pages {
            Some(selector) => match parse(selector.as_str(), page_count) {
                Ok(ranges) => Some(ranges),
                Err(error) => {
                    return Err(Diagnostic::error(error.message()));
                },
            },
            None => None,
        };
        let ident: Option<&str> = match &self.document_id {
            Some(ident) => Some(ident.as_str()),
            None => None,
        };
        Ok(pdf_options(ident, standards, ranges.as_ref()))
    }
}

/// Renders one page of a document as an SVG image. A page index that the
/// document does not have is refused.
pub fn render_page(document: &PagedDocument, page_index: usize) -> (result: Result<
    String,
    Vec<Diagnostic>,
>)
    ensures
        page_index < page_count_of(*document) ==> (result matches Ok(image) && image@ == page_svg(
            *document,
            page_index,
        )),
        page_index >= page_count_of(*document) ==> refused_with(
            result,
            page_out_of_range_text(page_index as nat, page_count_of(*document)),
        ),
{
    let count = page_count(document);
    if page_index >= count {
        let mut message = "page index ".to_owned();
        push_decimal(&mut message, page_index);
        message.append(" is out of range: the document has ");
        push_decimal(&mut message, count);
        message.append(" pages");
        return refuse(message);
    }
    Ok(render_svg(document, page_index))
}

/// What an export comes to, given what the serializer returned: the bytes
/// of the file, or its diagnostics, reported in their order and without
/// positions.
pub fn serialized(written: Result<Vec<u8>, Vec<RawDiagnostic>>) -> (result: Result<
    Vec<u8>,
    Vec<Diagnostic>,
>)
    ensures
        exported(written_view(written), result),
{
    match written {
        Ok(bytes) => Ok(bytes),
        Err(raw) => Err(Diagnostic::all_without_position(&raw)),
    }
}

/// Exports a document as a PDF file.
///
/// Options that do not fit the document are refused. Otherwise the
/// serializer is run with the identifier, standards and page ranges of the
/// options: it gives the bytes of the file, or diagnostics, which are
/// reported without positions.
pub fn export_document(document: &PagedDocument, options: &PdfOptionsNif) -> (result: Result<
    Vec<u8>,
    Vec<Diagnostic>,
>)
    ensures
        match options_refusal(*options, page_count_of(*document)) {
            Some(message) => refused_with(result, message),
            None => export_outcome(*document, *options, result),
        },
{
    let settings = match options.to_pdf_options(page_count(document)) {
        Ok(settings) => settings,
        Err(diagnostic) => {
            let mut diagnostics: Vec<Diagnostic> = Vec::new();
            diagnostics.push(diagnostic);
            return Err(diagnostics);
        },
    };
    let result = serialized(write_pdf(document, &settings));
    proof {
        assert(settings_hold(*options, page_count_of(*document), settings));
    }
    result
}

/// The bytes as a string with one character for each byte, the character
/// whose code is the byte.
pub fn latin1_string(bytes: &Vec<u8>) -> (text: String)
    ensures
        text@ == latin1(bytes@),
{
    let mut text = String::new();
    let mut i: usize = 0;
    while i < bytes.len()
        invariant
            i <= bytes.len(),
            text@ == bytes@.take(i as int).map_values(|byte: u8| byte as char),
        decreases bytes.len() - i,
    {
        push_char(&mut text, bytes[i] as char);
        assert(text@ =~= bytes@.take(i + 1).map_values(|byte: u8| byte as char));
        i += 1;
    }
    assert(bytes@.take(bytes.len() as int) =~= bytes@);
    text
}

/// Whether `text` is the text for the diagnostics of `raw` as they are
/// reported with the given positions.
pub open spec fn reported_text(
    positions: spec_fn(FileId, usize) -> Option<Position>,
    raw: Seq<RawDiagnostic>,
    text: Seq<char>,
) -> bool {
    exists|mapped: Seq<Diagnostic>|
        #[trigger] report_all(raw, mapped, positions) && text == joined(
            diagnostic_texts(mapped),
            "\n\n"@,
        )
}

/// The bytes as characters, one for each byte: the character whose code is
/// the byte.
pub open spec fn latin1(bytes: Seq<u8>) -> Seq<char> {
    bytes.map_values(|byte: u8| byte as char)
}

/// What the export of a compiled document comes to as text, where the
/// options fit it: the serializer is run on the document with settings that
/// hold what the options ask. Its bytes come back one character for each
/// byte, with the warnings of the compilation as the world reports them;
/// its diagnostics come back as text, reported without positions.
pub open spec fn export_text(
    world: SystemWorld,
    document: PagedDocument,
    options: PdfOptionsNif,
    warnings: Seq<RawDiagnostic>,
    result: Result<(String, String), String>,
) -> bool {
    exists|settings: PdfOptions<'_>|
        #[trigger] settings_hold(options, page_count_of(document), settings) && match pdf_written(
            document,
            settings,
        ) {
            Ok(bytes) => {
                &&& result matches Ok((text, notes))
                &&& text@ == latin1(bytes)
                &&& reported_text(world@.positions(), warnings, notes@)
            },
            Err(raw) => result matches Err(text) && reported_text(no_positions(), raw, text@),
        }
}

impl SystemWorld {
    /// Writes out compiler diagnostics as the world reports them.
    fn report(&self, raw: &Vec<RawDiagnostic>) -> (text: String)
        requires
            self.wf(),
        ensures
            reported_text(self@.positions(), raw@, text@),
    {
        let mapped = self.map_diagnostics(raw);
        let text = diagnostics_to_string(&mapped);
        assert(report_all(raw@, mapped@, self@.positions()));
        text
    }

    /// Turns the outcome of a compilation into a preview: the first page as
    /// an SVG image and the warnings as text, or the errors as text.
    pub fn preview(
        &self,
        output: &Result<PagedDocument, Vec<RawDiagnostic>>,
        warnings: &Vec<RawDiagnostic>,
    ) -> (result: Result<(String, String), String>)
        requires
            self.wf(),
        ensures
            match *output {
                Ok(document) => if page_count_of(document) > 0 {
                    &&& result matches Ok((image, notes))
                    &&& image@ == page_svg(document, 0)
                    &&& reported_text(self@.positions(), warnings@, notes@)
                } else {
                    result matches Err(text) && text@ == refusal_line(
                        page_out_of_range_text(0, 0),
                    )
                },
                Err(errors) => result matches Err(text) && reported_text(
                    self@.positions(),
                    errors@,
                    text@,
                ),
            },
    {
        match output {
            Ok(document) => match render_page(document, 0) {
                Ok(image) => Ok((image, self.report(warnings))),
                Err(diagnostics) => {
                    let text = diagnostics_to_string(&diagnostics);
                    proof {
                        lemma_refusal_text(diagnostics@, page_out_of_range_text(0, 0));
                    }
                    Err(text)
                },
            },
            Err(errors) => Err(self.report(errors)),
        }
    }

    /// Turns the outcome of a compilation into a PDF export: the bytes of
    /// the file, one character for each byte, and the warnings as text; or
    /// as text the errors of the compilation, the refusal of the options,
    /// or the diagnostics of the serializer.
    pub fn export_pdf(
        &self,
        output: &Result<PagedDocument, Vec<RawDiagnostic>>,
        warnings: &Vec<RawDiagnostic>,
        pdf_opts: &PdfOptionsNif,
    ) -> (result: Result<(String, String), String>)
        requires
            self.wf(),
        ensures
            match *output {
                Ok(document) => match options_refusal(*pdf_opts, page_count_of(document)) {
                    Some(message) => result matches Err(text) && text@ == refusal_line(message),
                    None => export_text(*self, document, *pdf_opts, warnings@, result),
                },
                Err(errors) => result matches Err(text) && reported_text(
                    self@.positions(),
                    errors@,
                    text@,
                ),
            },
    {
        match output {
            Ok(document) => {
                let exported = export_document(document, pdf_opts);
                let ghost refusal = options_refusal(*pdf_opts, page_count_of(*document));
                let ghost settings = choose|settings: PdfOptions<'_>|
                    #[trigger] settings_hold(*pdf_opts, page_count_of(*document), settings)
                        && self::exported(pdf_written(*document, settings), exported);
                match exported {
                    Ok(bytes) => {
                        let result = Ok((latin1_string(&bytes), self.report(warnings)));
                        proof {
                            if refusal is None {
                                assert(settings_hold(
                                    *pdf_opts,
                                    page_count_of(*document),
                                    settings,
                                ));
                            }
                        }
                        result
                    },
                    Err(diagnostics) => {
                        let text = diagnostics_to_string(&diagnostics);
                        proof {
                            match refusal {
                                Some(message) => {
                                    lemma_refusal_text(diagnostics@, message);
                                },
                                None => {
                                    let raw = pdf_written(*document, settings)->Err_0;
                                    assert(report_all(raw, diagnostics@, no_positions()));
                                    assert(reported_text(no_positions(), raw, text@));
                                    assert(settings_hold(
                                        *pdf_opts,
                                        page_count_of(*document),
                                        settings,
                                    ));
                                },
                            }
                        }
                        Err(text)
                    },
                }
            },
            Err(errors) => Err(self.report(errors)),
        }
    }
}

/// The text of a refusal: that of an error with the given message that
/// points nowhere.
pub open spec fn refusal_line(message: Seq<char>) -> Seq<char> {
    "Severity: "@ + "Error"@ + "\nSpan: "@ + "none"@ + "\nMessage: "@ + message + "\nTrace: "@ + (
    "["@ + Seq::<char>::empty() + "]"@) + "\nHints: "@ + ("["@ + Seq::<char>::empty() + "]"@)
}

/// The text of a refusal is the text of its one error.
proof fn lemma_refusal_text(diagnostics: Seq<Diagnostic>, message: Seq<char>)
    requires
        diagnostics.len() == 1,
        is_bare_error(diagnostics[0], message),
    ensures
        joined(diagnostic_texts(diagnostics), "\n\n"@) == refusal_line(message),
{
    let d = diagnostics[0];
    assert(crate::diagnostic::trace_texts(d.trace@) =~= Seq::<Seq<char>>::empty());
    assert(crate::text::string_views(d.hints@) =~= Seq::<Seq<char>>::empty());
    assert(joined(Seq::<Seq<char>>::empty(), ", "@) =~= Seq::<char>::empty());
    assert(crate::diagnostic::diagnostic_text(d) =~= refusal_line(message));
    assert(diagnostic_texts(diagnostics) =~= seq![refusal_line(message)]);
}

} // verus!
