use std::path::PathBuf;

use typst::layout::PagedDocument;
use typst::syntax::{FileId, VirtualPath};
use typst_nif::diagnostic::{
    diagnostics_to_string, format_diagnostic, Diagnostic, RawDiagnostic, RawSpan, Severity, Span,
    TracePoint,
};
use typst_nif::document::{export_document, latin1_string, refuse, refuse_without_document, render_page};
use typst_nif::options::{FontOptionsNif, FontPath, FontSearch, PdfOptionsNif, PdfStandardNif, PreviewOptionsNif};
use typst_nif::position::Position;
use typst_nif::text::{clone_strings, decimal_string, join_strings};
use typst_nif::world::SystemWorld;

fn full() -> Diagnostic {
    Diagnostic {
        severity: Severity::Error,
        message: "unknown variable: x".to_string(),
        span: Some(Span { start: 12, end: 13, position: Some(Position { line: 2, column: 5 }) }),
        trace: vec![
            TracePoint {
                span: Some(Span { start: 0, end: 20, position: None }),
                message: "error occurred in this function call".to_string(),
            },
            TracePoint { span: None, message: "error occurred while importing this module".to_string() },
        ],
        hints: vec!["did you mean y?".to_string(), "check the spelling".to_string()],
    }
}

#[test]
fn diagnostic_is_written_in_five_lines() {
    assert_eq!(
        format_diagnostic(&full()),
        "Severity: Error\n\
         Span: 12..13 (2:5)\n\
         Message: unknown variable: x\n\
         Trace: [0..20: error occurred in this function call, none: error occurred while importing this module]\n\
         Hints: [did you mean y?, check the spelling]"
    );
}

#[test]
fn bare_error_is_written_with_empty_lists() {
    assert_eq!(
        format_diagnostic(&Diagnostic::error("no luck".to_string())),
        "Severity: Error\nSpan: none\nMessage: no luck\nTrace: []\nHints: []"
    );
}

#[test]
fn warning_is_written_as_such() {
    let warning = Diagnostic {
        severity: Severity::Warning,
        message: "unused".to_string(),
        span: Some(Span { start: 0, end: 0, position: None }),
        trace: vec![],
        hints: vec!["remove it".to_string()],
    };
    assert_eq!(
        format_diagnostic(&warning),
        "Severity: Warning\nSpan: 0..0\nMessage: unused\nTrace: []\nHints: [remove it]"
    );
}

#[test]
fn diagnostics_are_separated_by_an_empty_line() {
    let list = vec![Diagnostic::error("one".to_string()), Diagnostic::error("two".to_string())];
    assert_eq!(
        diagnostics_to_string(&list),
        "Severity: Error\nSpan: none\nMessage: one\nTrace: []\nHints: []\n\n\
         Severity: Error\nSpan: none\nMessage: two\nTrace: []\nHints: []"
    );
    assert_eq!(diagnostics_to_string(&vec![]), "");
    assert_eq!(
        diagnostics_to_string(&vec![Diagnostic::error("one".to_string())]),
        "Severity: Error\nSpan: none\nMessage: one\nTrace: []\nHints: []"
    );
}

#[test]
fn numbers_are_written_in_decimal() {
    assert_eq!(decimal_string(0), "0");
    assert_eq!(decimal_string(7), "7");
    assert_eq!(decimal_string(10), "10");
    assert_eq!(decimal_string(1234567890), "1234567890");
    assert_eq!(decimal_string(usize::MAX), usize::MAX.to_string());
}

#[test]
fn strings_are_joined_with_a_separator() {
    let parts = vec!["a".to_string(), "".to_string(), "c".to_string()];
    assert_eq!(join_strings(&parts, ", "), "a, , c");
    assert_eq!(join_strings(&vec![], ", "), "");
    assert_eq!(join_strings(&vec!["only".to_string()], ", "), "only");
    assert_eq!(clone_strings(&parts), parts);
}

#[test]
fn bytes_become_one_character_each() {
    assert_eq!(latin1_string(&vec![0x25, 0x50, 0x44, 0x46]), "%PDF");
    assert_eq!(latin1_string(&vec![0xe9, 0xff, 0x00]), "\u{e9}\u{ff}\u{0}");
    assert_eq!(latin1_string(&vec![]), "");
    let all: Vec<u8> = (0..=255).collect();
    let text = latin1_string(&all);
    assert_eq!(text.chars().count(), 256);
    assert!(text.chars().zip(all).all(|(c, b)| c as u32 == b as u32));
}

#[test]
fn refusals_are_single_errors_without_span() {
    let refused: Result<(), Vec<Diagnostic>> = refuse("no".to_string());
    assert_eq!(refused, Err(vec![Diagnostic::error("no".to_string())]));
    let refused: Result<(), Vec<Diagnostic>> = refuse_without_document();
    assert_eq!(
        refused,
        Err(vec![Diagnostic::error(
            "no compiled document: compile the markup before rendering or exporting".to_string()
        )])
    );
}

#[test]
fn document_without_pages_has_no_page_to_render() {
    let document = PagedDocument::default();
    assert_eq!(
        render_page(&document, 0),
        Err(vec![Diagnostic::error(
            "page index 0 is out of range: the document has 0 pages".to_string()
        )])
    );
}

fn options() -> PdfOptionsNif {
    PdfOptionsNif {
        pages: None,
        pdf_standards: vec![],
        document_id: None,
        font_paths: vec!["/fonts".to_string()],
        ignore_system_fonts: true,
    }
}

#[test]
fn options_are_checked_against_the_page_count() {
    let mut options = options();
    assert!(options.to_pdf_options(3).is_ok());
    options.pages = Some("1-3".to_string());
    assert!(options.to_pdf_options(3).is_ok());
    assert_eq!(
        options.to_pdf_options(2).unwrap_err(),
        Diagnostic::error("page range `1-3` is out of bounds: the document has 2 pages".to_string())
    );
    options.pdf_standards = vec![PdfStandardNif::PdfA3b, PdfStandardNif::Pdf17, PdfStandardNif::PdfA2b];
    assert_eq!(
        options.to_pdf_options(3).unwrap_err(),
        Diagnostic::error(
            "Invalid PDF standards: PDF cannot conform to A-2B and A-3B at the same time".to_string()
        )
    );
    options.pdf_standards = vec![PdfStandardNif::PdfA2b, PdfStandardNif::PdfA2b];
    assert!(options.to_pdf_options(3).is_ok());
    options.pdf_standards = vec![PdfStandardNif::PdfA3b];
    options.document_id = Some("id".to_string());
    assert!(options.to_pdf_options(3).is_ok());
}

#[test]
fn export_of_a_document_checks_the_options_first() {
    let document = PagedDocument::default();
    let mut options = options();
    options.pages = Some("1".to_string());
    assert_eq!(
        export_document(&document, &options),
        Err(vec![Diagnostic::error(
            "page range `1` is out of bounds: the document has 0 pages".to_string()
        )])
    );
}

#[test]
fn option_records_answer_for_their_fields() {
    let preview = PreviewOptionsNif { font_paths: vec!["/a".to_string()], ignore_system_fonts: true };
    assert_eq!(preview.get_font_paths(), &vec!["/a".to_string()]);
    assert!(preview.should_ignore_system_fonts());
    let fonts = FontOptionsNif { font_paths: vec![], ignore_system_fonts: false };
    assert!(fonts.get_font_paths().is_empty());
    assert!(!fonts.should_ignore_system_fonts());
    let pdf = options();
    assert_eq!(pdf.get_font_paths(), &vec!["/fonts".to_string()]);
    assert!(pdf.should_ignore_system_fonts());
}

#[test]
fn font_search_keeps_directories_in_order() {
    let candidates = vec![
        FontPath { path: "b".to_string(), is_directory: true },
        FontPath { path: "file.ttf".to_string(), is_directory: false },
        FontPath { path: "a".to_string(), is_directory: true },
        FontPath { path: "b".to_string(), is_directory: true },
    ];
    let search = FontSearch::plan(&candidates, false);
    assert!(search.include_system_fonts);
    assert_eq!(search.directories, vec!["b".to_string(), "a".to_string(), "b".to_string()]);
    assert!(search.scans_directories());
    let files = vec![FontPath { path: "file.ttf".to_string(), is_directory: false }];
    let search = FontSearch::plan(&files, true);
    assert!(!search.include_system_fonts);
    assert!(search.directories.is_empty());
    assert!(!search.scans_directories());
}

fn raw_error(file: Option<FileId>, range: Option<(usize, usize)>) -> RawDiagnostic {
    RawDiagnostic {
        severity: Severity::Error,
        message: "broken".to_string(),
        span: RawSpan { file, range },
        trace: vec![],
        hints: vec![],
    }
}

#[test]
fn preview_of_a_failed_compilation_is_the_errors_as_text() {
    let main = FileId::new_fake(VirtualPath::new("MARKUP.tsp"));
    let world = SystemWorld::new(PathBuf::from("."), main, "ab\ncd".to_string());
    let output = Err(vec![raw_error(Some(main), Some((3, 4))), raw_error(None, None)]);
    assert_eq!(
        world.preview(&output, &vec![]),
        Err("Severity: Error\nSpan: 3..4 (2:1)\nMessage: broken\nTrace: []\nHints: []\n\n\
             Severity: Error\nSpan: none\nMessage: broken\nTrace: []\nHints: []"
            .to_string())
    );
    assert_eq!(
        world.export_pdf(&output, &vec![], &options()),
        Err("Severity: Error\nSpan: 3..4 (2:1)\nMessage: broken\nTrace: []\nHints: []\n\n\
             Severity: Error\nSpan: none\nMessage: broken\nTrace: []\nHints: []"
            .to_string())
    );
}

#[test]
fn preview_of_a_document_without_pages_is_refused() {
    let main = FileId::new_fake(VirtualPath::new("MARKUP.tsp"));
    let world = SystemWorld::new(PathBuf::from("."), main, String::new());
    assert_eq!(
        world.preview(&Ok(PagedDocument::default()), &vec![]),
        Err("Severity: Error\nSpan: none\nMessage: page index 0 is out of range: the document has 0 pages\nTrace: []\nHints: []".to_string())
    );
}
