use std::collections::HashMap;
use std::path::PathBuf;
use std::sync::Mutex;

use typst::diag::{FileResult, SourceDiagnostic};
use typst::foundations::{Bytes, Datetime};
use typst::layout::PagedDocument;
use typst::syntax::{FileId, Source, VirtualPath};
use typst::text::{Font, FontBook};
use typst::utils::LazyHash;
use typst::{Library, World, WorldExt};
use typst_nif::diagnostic::{Diagnostic, RawDiagnostic, RawSpan, RawTracePoint, Severity};
use typst_nif::error::{FileError, PackageError};
use typst_nif::options::{PdfOptionsNif, PdfStandardNif};
use typst_nif::position::Position;
use typst_nif::session::CompilationContext;
use typst_nif::world::SystemWorld;

/// A world for the compiler, on a session of the library and a disk in
/// memory.
struct TestWorld {
    session: Mutex<CompilationContext>,
    library: LazyHash<Library>,
    book: LazyHash<FontBook>,
    main: FileId,
    disk: HashMap<FileId, Vec<u8>>,
}

fn to_typst(error: FileError) -> typst::diag::FileError {
    match error {
        FileError::NotFound(path) => typst::diag::FileError::NotFound(path.into()),
        FileError::AccessDenied => typst::diag::FileError::AccessDenied,
        FileError::IsDirectory => typst::diag::FileError::IsDirectory,
        FileError::NotSource => typst::diag::FileError::NotSource,
        FileError::InvalidUtf8 => typst::diag::FileError::InvalidUtf8,
        FileError::Package(PackageError::Other(detail)) => typst::diag::FileError::Package(
            typst::diag::PackageError::Other(detail.map(Into::into)),
        ),
        FileError::Package(_) => typst::diag::FileError::Package(typst::diag::PackageError::Other(None)),
        FileError::Other(detail) => typst::diag::FileError::Other(detail.map(Into::into)),
    }
}

impl TestWorld {
    fn new(markup: &str) -> Self {
        let main = FileId::new_fake(VirtualPath::new("MARKUP.tsp"));
        let world = SystemWorld::new(PathBuf::from("."), main, markup.to_string());
        TestWorld {
            session: Mutex::new(CompilationContext::new(world)),
            library: LazyHash::new(Library::default()),
            book: LazyHash::new(FontBook::new()),
            main,
            disk: HashMap::new(),
        }
    }

    fn load(&self, id: FileId) -> Result<Vec<u8>, FileError> {
        match self.disk.get(&id) {
            Some(bytes) => Ok(bytes.clone()),
            None => Err(FileError::NotFound(format!("{:?}", id.vpath()))),
        }
    }

    fn raw(&self, diagnostic: &SourceDiagnostic) -> RawDiagnostic {
        let span = |span: typst::syntax::Span| RawSpan {
            file: span.id(),
            range: self.range(span).map(|range| (range.start, range.end)),
        };
        RawDiagnostic {
            severity: match diagnostic.severity {
                typst::diag::Severity::Error => Severity::Error,
                typst::diag::Severity::Warning => Severity::Warning,
            },
            message: diagnostic.message.to_string(),
            span: span(diagnostic.span),
            trace: diagnostic
                .trace
                .iter()
                .map(|point| RawTracePoint { span: span(point.span), message: point.v.to_string() })
                .collect(),
            hints: diagnostic.hints.iter().map(|hint| hint.to_string()).collect(),
        }
    }

    fn compile(&self) -> Result<(usize, Vec<Diagnostic>), Vec<Diagnostic>> {
        self.session.lock().unwrap().begin_compile();
        let compiled = typst::compile::<PagedDocument>(self);
        let warnings: Vec<RawDiagnostic> = compiled.warnings.iter().map(|d| self.raw(d)).collect();
        let output = compiled
            .output
            .map_err(|errors| errors.iter().map(|d| self.raw(d)).collect::<Vec<_>>());
        let summary = self.session.lock().unwrap().finish_compile(output, &warnings)?;
        Ok((summary.page_count, summary.warnings))
    }
}

impl World for TestWorld {
    fn library(&self) -> &LazyHash<Library> {
        &self.library
    }

    fn book(&self) -> &LazyHash<FontBook> {
        &self.book
    }

    fn main(&self) -> FileId {
        self.main
    }

    fn source(&self, id: FileId) -> FileResult<Source> {
        self.session.lock().unwrap().source(id, || self.load(id)).map_err(to_typst)
    }

    fn file(&self, id: FileId) -> FileResult<Bytes> {
        self.session.lock().unwrap().file(id, || self.load(id)).map_err(to_typst)
    }

    fn font(&self, _index: usize) -> Option<Font> {
        None
    }

    fn today(&self, offset: Option<i64>) -> Option<Datetime> {
        let date = self.session.lock().unwrap().today(offset)?;
        Datetime::from_ymd(date.year, date.month, date.day)
    }
}

fn plain_options() -> PdfOptionsNif {
    PdfOptionsNif {
        pages: None,
        pdf_standards: vec![],
        document_id: None,
        font_paths: vec![],
        ignore_system_fonts: true,
    }
}

const NO_DOCUMENT: &str = "no compiled document: compile the markup before rendering or exporting";

fn assert_refused<T: std::fmt::Debug>(result: Result<T, Vec<Diagnostic>>, message: &str) {
    let diagnostics = result.unwrap_err();
    assert_eq!(
        diagnostics,
        vec![Diagnostic {
            severity: Severity::Error,
            message: message.to_string(),
            span: None,
            trace: vec![],
            hints: vec![],
        }]
    );
}

#[test]
fn compiling_unchanged_markup_twice_gives_the_same() {
    let world = TestWorld::new("= Title\n\nSome text.\n#pagebreak()\nMore text.");
    let first = world.compile();
    let second = world.compile();
    assert_eq!(first, second);
    let (page_count, _) = first.unwrap();
    assert_eq!(page_count, 2);
}

#[test]
fn compiling_unchanged_erroneous_markup_twice_gives_the_same() {
    let world = TestWorld::new("#let x = \n#unknown-function()");
    let first = world.compile();
    let second = world.compile();
    assert!(first.is_err());
    assert_eq!(first, second);
}

#[test]
fn render_before_compile_is_refused() {
    let world = TestWorld::new("Hello");
    let session = world.session.lock().unwrap();
    assert!(!session.is_compiled());
    assert_refused(session.render(0), NO_DOCUMENT);
    assert_refused(session.export(&plain_options()), NO_DOCUMENT);
}

#[test]
fn render_after_compile_gives_an_image() {
    let world = TestWorld::new("Hello");
    world.compile().unwrap();
    let session = world.session.lock().unwrap();
    assert!(session.is_compiled());
    let image = session.render(0).unwrap();
    assert!(image.starts_with("<svg"));
}

#[test]
fn render_beyond_the_last_page_is_refused() {
    let world = TestWorld::new("Hello");
    let (page_count, _) = world.compile().unwrap();
    assert_eq!(page_count, 1);
    let session = world.session.lock().unwrap();
    assert_refused(
        session.render(1),
        "page index 1 is out of range: the document has 1 pages",
    );
    assert_refused(
        session.render(12),
        "page index 12 is out of range: the document has 1 pages",
    );
}

#[test]
fn set_markup_empties_the_session() {
    let world = TestWorld::new("Hello");
    world.compile().unwrap();
    let mut session = world.session.lock().unwrap();
    session.set_markup("Changed".to_string());
    assert!(!session.is_compiled());
    assert_refused(session.render(0), NO_DOCUMENT);
    assert_refused(session.export(&plain_options()), NO_DOCUMENT);
}

#[test]
fn set_virtual_file_empties_the_session() {
    let world = TestWorld::new("Hello");
    world.compile().unwrap();
    let mut session = world.session.lock().unwrap();
    let id = FileId::new(None, VirtualPath::new("/data.txt"));
    session.set_virtual_file(id, b"data".to_vec());
    assert_refused(session.render(0), NO_DOCUMENT);
    assert_refused(session.export(&plain_options()), NO_DOCUMENT);
}

#[test]
fn clear_virtual_file_empties_the_session() {
    let world = TestWorld::new("Hello");
    let id = FileId::new(None, VirtualPath::new("/data.txt"));
    world.session.lock().unwrap().set_virtual_file(id, b"data".to_vec());
    world.compile().unwrap();
    let mut session = world.session.lock().unwrap();
    assert!(session.is_compiled());
    session.clear_virtual_file(id);
    assert_refused(session.render(0), NO_DOCUMENT);
    assert_refused(session.export(&plain_options()), NO_DOCUMENT);
}

#[test]
fn append_and_inputs_keep_the_document() {
    let world = TestWorld::new("Hello");
    world.compile().unwrap();
    let mut session = world.session.lock().unwrap();
    let id = FileId::new(None, VirtualPath::new("/upload.bin"));
    session.append_virtual_file(id, b"ab".to_vec());
    session.append_virtual_file(id, b"cd".to_vec());
    session.set_input("key".to_string(), "value".to_string());
    assert!(session.is_compiled());
    assert!(session.render(0).is_ok());
    let bytes = session.file(id, || Err(FileError::AccessDenied)).unwrap();
    assert_eq!(bytes.as_slice(), b"abcd");
}

#[test]
fn export_after_failed_compile_is_refused_for_want_of_a_document() {
    let world = TestWorld::new("Hello");
    world.compile().unwrap();
    world.session.lock().unwrap().set_markup("#unknown-function()".to_string());
    let errors = world.compile().unwrap_err();
    assert!(!errors.is_empty());
    assert!(errors.iter().all(|error| error.severity == Severity::Error));
    let session = world.session.lock().unwrap();
    assert!(!session.is_compiled());
    assert_refused(session.export(&plain_options()), NO_DOCUMENT);
    assert_refused(session.render(0), NO_DOCUMENT);
}

#[test]
fn failed_compile_drops_the_document_of_an_earlier_one() {
    let world = TestWorld::new("Hello");
    world.compile().unwrap();
    {
        let mut session = world.session.lock().unwrap();
        session.set_markup("#(1 +".to_string());
    }
    assert!(world.compile().is_err());
    assert!(!world.session.lock().unwrap().is_compiled());
}

#[test]
fn error_is_reported_at_its_line_and_column() {
    let markup = "First line\nSecond #unknown-function() line";
    let world = TestWorld::new(markup);
    let errors = world.compile().unwrap_err();
    let offset = markup.find("unknown-function").unwrap();
    let span = errors[0].span.unwrap();
    assert_eq!(span.start, offset);
    assert_eq!(span.position, Some(Position { line: 2, column: 9 }));
}

#[test]
fn error_after_wide_characters_counts_characters() {
    let markup = "ä💛 #unknown-function()";
    let world = TestWorld::new(markup);
    let errors = world.compile().unwrap_err();
    let span = errors[0].span.unwrap();
    assert_eq!(span.start, markup.find("unknown-function").unwrap());
    assert_eq!(span.start, 8);
    assert_eq!(span.position, Some(Position { line: 1, column: 5 }));
}

#[test]
fn virtual_file_shadows_the_disk_for_imports() {
    let mut world = TestWorld::new("#import \"lib.typ\": value\n#assert(value == 2)\nok");
    let id = FileId::new(None, VirtualPath::new("/lib.typ"));
    world.disk.insert(id, b"#let value = 1".to_vec());
    assert!(world.compile().is_err());
    world.session.lock().unwrap().set_virtual_file(id, b"#let value = 2".to_vec());
    assert!(world.compile().is_ok());
    world.session.lock().unwrap().clear_virtual_file(id);
    assert!(world.compile().is_err());
}

#[test]
fn export_gives_a_pdf_file() {
    let world = TestWorld::new("Hello\n#pagebreak()\nWorld");
    world.compile().unwrap();
    let session = world.session.lock().unwrap();
    let bytes = session.export(&plain_options()).unwrap();
    assert!(bytes.starts_with(b"%PDF-"));
}

#[test]
fn export_of_selected_pages_is_smaller_than_the_whole() {
    let world = TestWorld::new("One\n#pagebreak()\nTwo\n#pagebreak()\nThree");
    world.compile().unwrap();
    let session = world.session.lock().unwrap();
    let mut options = plain_options();
    let whole = session.export(&options).unwrap();
    options.pages = Some("2".to_string());
    let one = session.export(&options).unwrap();
    assert!(one.starts_with(b"%PDF-"));
    assert!(one.len() < whole.len());
}

#[test]
fn export_with_an_identifier_differs_from_one_without() {
    let world = TestWorld::new("Hello");
    world.compile().unwrap();
    let session = world.session.lock().unwrap();
    let mut options = plain_options();
    let plain = session.export(&options).unwrap();
    options.document_id = Some("a stable identifier".to_string());
    let named = session.export(&options).unwrap();
    assert_ne!(plain, named);
}

#[test]
fn export_refuses_a_selector_beyond_the_document() {
    let world = TestWorld::new("Hello");
    world.compile().unwrap();
    let session = world.session.lock().unwrap();
    let mut options = plain_options();
    options.pages = Some("1, 2".to_string());
    assert_refused(
        session.export(&options),
        "page range `2` is out of bounds: the document has 1 pages",
    );
    options.pages = Some("1-x".to_string());
    assert_refused(session.export(&options), "invalid page range `1-x`");
}

#[test]
fn export_refuses_standards_that_do_not_go_together() {
    let world = TestWorld::new("Hello");
    world.compile().unwrap();
    let session = world.session.lock().unwrap();
    let mut options = plain_options();
    options.pdf_standards = vec![PdfStandardNif::PdfA2b, PdfStandardNif::PdfA3b];
    options.pages = Some("9".to_string());
    assert_refused(
        session.export(&options),
        "Invalid PDF standards: PDF cannot conform to A-2B and A-3B at the same time",
    );
}

#[test]
fn export_accepts_a_single_standard() {
    let world = TestWorld::new("Hello");
    world.compile().unwrap();
    let session = world.session.lock().unwrap();
    let mut options = plain_options();
    options.pdf_standards = vec![PdfStandardNif::Pdf17];
    assert!(session.export(&options).is_ok());
}

#[test]
fn warnings_come_with_a_successful_compile() {
    let world = TestWorld::new("#set text(font: \"no such font\")\nHello");
    let (page_count, warnings) = world.compile().unwrap();
    assert_eq!(page_count, 1);
    assert!(!warnings.is_empty());
    assert!(warnings.iter().all(|warning| warning.severity == Severity::Warning));
    let span = warnings[0].span.unwrap();
    assert_eq!(span.position.unwrap().line, 1);
}

#[test]
fn serializer_diagnostics_come_without_positions() {
    let world = TestWorld::new("#pdf.embed(\"data.txt\", bytes(\"hello\"))\nText");
    world.compile().unwrap();
    let session = world.session.lock().unwrap();
    let mut options = plain_options();
    assert!(session.export(&options).is_ok());
    options.pdf_standards = vec![PdfStandardNif::PdfA2b];
    let diagnostics = session.export(&options).unwrap_err();
    assert_eq!(diagnostics.len(), 1);
    assert_eq!(diagnostics[0].severity, Severity::Error);
    assert_eq!(
        diagnostics[0].message,
        "file embeddings are not currently supported for PDF/A-2"
    );
    assert_eq!(diagnostics[0].hints, vec!["PDF/A-3 supports arbitrary embedded files".to_string()]);
    assert!(diagnostics[0].span.map_or(true, |span| span.position.is_none()));
    assert!(session.is_compiled());
}

#[test]
fn rendering_a_page_twice_gives_the_same_image() {
    let world = TestWorld::new("One\n#pagebreak()\nTwo");
    world.compile().unwrap();
    let session = world.session.lock().unwrap();
    let first = session.render(0).unwrap();
    assert_eq!(session.render(0).unwrap(), first);
    let second = session.render(1).unwrap();
    assert_eq!(session.render(1).unwrap(), second);
}

#[test]
fn exporting_twice_gives_the_same_file() {
    let world = TestWorld::new("One\n#pagebreak()\nTwo\n#rect(fill: red)");
    world.compile().unwrap();
    let session = world.session.lock().unwrap();
    let mut options = plain_options();
    assert_eq!(session.export(&options).unwrap(), session.export(&options).unwrap());
    options.pages = Some("2".to_string());
    options.document_id = Some("id".to_string());
    options.pdf_standards = vec![PdfStandardNif::PdfA3b];
    assert_eq!(session.export(&options).unwrap(), session.export(&options).unwrap());
}

#[test]
fn export_holds_the_pages_that_the_selector_denotes() {
    let world = TestWorld::new("One\n#pagebreak()\nTwo\n#pagebreak()\nThree");
    world.compile().unwrap();
    let session = world.session.lock().unwrap();
    let mut options = plain_options();
    let count = |bytes: &[u8]| {
        let text = String::from_utf8_lossy(bytes).into_owned();
        text.matches("/Type /Page\n").count() + text.matches("/Type /Page ").count()
    };
    assert_eq!(count(&session.export(&options).unwrap()), 3);
    options.pages = Some("1,3".to_string());
    assert_eq!(count(&session.export(&options).unwrap()), 2);
    options.pages = Some("2-3, 1".to_string());
    assert_eq!(count(&session.export(&options).unwrap()), 3);
    options.pages = Some("2".to_string());
    assert_eq!(count(&session.export(&options).unwrap()), 1);
}

#[test]
fn export_after_an_append_still_gives_the_file() {
    let world = TestWorld::new("Hello");
    world.compile().unwrap();
    let mut session = world.session.lock().unwrap();
    let before = session.export(&plain_options()).unwrap();
    let id = FileId::new(None, VirtualPath::new("/upload.bin"));
    session.append_virtual_file(id, b"chunk".to_vec());
    assert_eq!(session.export(&plain_options()).unwrap(), before);
}
