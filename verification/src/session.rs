//! The compilation session: a world together with at most one compiled
//! document.
//!
//! A session is empty until a compilation succeeds. It then holds the
//! document of that compilation until the markup or a virtual file is
//! replaced or removed, or a later compilation fails. A page is rendered and
//! the document exported only while the session holds a document.

use crate::cache::{reset_slot, SlotState};
use crate::clock::{told, Date, Now};
use crate::diagnostic::{report_all, Diagnostic, RawDiagnostic};
use crate::document::{
    export_document, export_outcome, no_document_text, options_refusal, page_out_of_range_text,
    refuse_without_document, refused_with, render_page,
};
use crate::error::FileError;
use crate::inputs::{bound, InputBinding};
use crate::options::PdfOptionsNif;
use crate::outside::{page_count, page_count_of, page_svg};
use crate::world::{file_provided, source_provided, SystemWorld, WorldState};
use typst::foundations::Bytes;
use typst::layout::PagedDocument;
use typst::syntax::{FileId, Source};
use vstd::prelude::*;

verus! {

/// What a session holds, as contracts see it.
pub struct SessionState {
    pub world: WorldState,
    /// The document of the last compilation, if it succeeded and nothing it
    /// was compiled from has been replaced since.
    pub document: Option<PagedDocument>,
}

/// What a successful compilation comes to.
#[derive(Debug, PartialEq, Eq)]
pub struct CompileSummary {
    pub page_count: usize,
    /// The warnings of the compiler, in its order.
    pub warnings: Vec<Diagnostic>,
}

impl SessionState {
    /// The session after the markup was replaced.
    pub open spec fn with_markup(self, text: Seq<char>) -> SessionState {
        SessionState {
            world: WorldState {
                markup: text,
                cache: self.world.cache.map_values(|slot: SlotState| reset_slot(slot)),
                ..self.world
            },
            document: None,
        }
    }

    /// The session after the content of a virtual file was set.
    pub open spec fn with_virtual_file(self, id: FileId, content: Seq<u8>) -> SessionState {
        SessionState {
            world: WorldState { overlay: self.world.overlay.insert(id, content), ..self.world },
            document: None,
        }
    }

    /// The session after a chunk was appended to a virtual file. The
    /// document stays.
    pub open spec fn with_appended(self, id: FileId, chunk: Seq<u8>) -> SessionState {
        SessionState {
            world: WorldState {
                overlay: self.world.overlay.insert(
                    id,
                    if self.world.overlay.contains_key(id) {
                        self.world.overlay[id] + chunk
                    } else {
                        chunk
                    },
                ),
                ..self.world
            },
            document: self.document,
        }
    }

    /// The session after a virtual file was removed.
    pub open spec fn without_virtual_file(self, id: FileId) -> SessionState {
        SessionState {
            world: WorldState { overlay: self.world.overlay.remove(id), ..self.world },
            document: None,
        }
    }

    /// The session when a compilation starts: every cached file counts as
    /// not yet read and a captured system time is forgotten.
    pub open spec fn started(self) -> SessionState {
        SessionState {
            world: WorldState {
                cache: self.world.cache.map_values(|slot: SlotState| reset_slot(slot)),
                now: match self.world.now {
                    Now::Fixed(timestamp) => Now::Fixed(timestamp),
                    Now::System(_) => Now::System(None),
                },
                ..self.world
            },
            document: self.document,
        }
    }

    /// The session after a compilation with the given output: it holds the
    /// document of a success, and nothing after a failure.
    pub open spec fn finished(
        self,
        output: Result<PagedDocument, Vec<RawDiagnostic>>,
    ) -> SessionState {
        SessionState {
            world: self.world,
            document: match output {
                Ok(document) => Some(document),
                Err(_) => None,
            },
        }
    }

    /// Why rendering a page is refused, if it is: for want of a document,
    /// or of the page.
    pub open spec fn render_refusal(self, page_index: usize) -> Option<Seq<char>> {
        match self.document {
            None => Some(no_document_text()),
            Some(document) => if page_index >= page_count_of(document) {
                Some(page_out_of_range_text(page_index as nat, page_count_of(document)))
            } else {
                None
            },
        }
    }

    /// Why an export is refused before the serializer runs, if it is: for
    /// want of a document, or for options that do not fit it.
    pub open spec fn export_refusal(self, options: PdfOptionsNif) -> Option<Seq<char>> {
        match self.document {
            None => Some(no_document_text()),
            Some(document) => options_refusal(options, page_count_of(document)),
        }
    }
}

/// A world together with at most one compiled document.
pub struct CompilationContext {
    world: SystemWorld,
    document: Option<PagedDocument>,
}

impl View for CompilationContext {
    type V = SessionState;

    closed spec fn view(&self) -> SessionState {
        SessionState { world: self.world@, document: self.document }
    }
}

impl CompilationContext {
    /// The world of the session is well formed.
    pub closed spec fn wf(&self) -> bool {
        self.world.wf()
    }

    /// Starts a session on a world. The session is empty.
    pub fn new(world: SystemWorld) -> (context: Self)
        requires
            world.wf(),
        ensures
            context.wf(),
            context@ == (SessionState { world: world@, document: None }),
    {
        CompilationContext { world, document: None }
    }

    /// The world of the session.
    pub fn world(&self) -> (world: &SystemWorld)
        requires
            self.wf(),
        ensures
            world.wf(),
            world@ == self@.world,
    {
        &self.world
    }

    /// Whether the session holds a compiled document.
    pub fn is_compiled(&self) -> (compiled: bool)
        ensures
            compiled == self@.document is Some,
    {
        self.document.is_some()
    }

    /// Replaces the markup. The session is empty afterwards.
    pub fn set_markup(&mut self, text: String)
        requires
            old(self).wf(),
        ensures
            final(self).wf(),
            final(self)@ == old(self)@.with_markup(text@),
    {
        self.world.set_markup(text);
        self.document = None;
    }

    /// Sets the content of a virtual file. The session is empty afterwards.
    pub fn set_virtual_file(&mut self, id: FileId, content: Vec<u8>)
        requires
            old(self).wf(),
        ensures
            final(self).wf(),
            final(self)@ == old(self)@.with_virtual_file(id, content@),
    {
        self.world.set_virtual_file(id, content);
        self.document = None;
    }

    /// Appends to the content of a virtual file. A compiled document stays:
    /// appending is meant for uploading a file in pieces, before the file is
    /// set or the markup compiled.
    pub fn append_virtual_file(&mut self, id: FileId, chunk: Vec<u8>)
        requires
            old(self).wf(),
        ensures
            final(self).wf(),
            final(self)@ == old(self)@.with_appended(id, chunk@),
    {
        self.world.append_virtual_file(id, chunk);
    }

    /// Removes a virtual file. The session is empty afterwards.
    pub fn clear_virtual_file(&mut self, id: FileId)
        requires
            old(self).wf(),
        ensures
            final(self).wf(),
            final(self)@ == old(self)@.without_virtual_file(id),
    {
        self.world.clear_virtual_file(id);
        self.document = None;
    }

    /// Binds an input. A compiled document stays.
    pub fn set_input(&mut self, key: String, value: String)
        requires
            old(self).wf(),
        ensures
            final(self).wf(),
            final(self)@ == (SessionState {
                world: WorldState {
                    inputs: old(self)@.world.inputs.insert(key@, value@),
                    ..old(self)@.world
                },
                document: old(self)@.document,
            }),
    {
        self.world.set_input(key, value);
    }

    /// Replaces all inputs. A compiled document stays.
    pub fn set_inputs(&mut self, bindings: &Vec<InputBinding>)
        requires
            old(self).wf(),
        ensures
            final(self).wf(),
            final(self)@ == (SessionState {
                world: WorldState { inputs: bound(bindings@), ..old(self)@.world },
                document: old(self)@.document,
            }),
    {
        self.world.set_inputs(bindings);
    }

    /// Records the names of the font families that the font search found.
    pub fn set_font_families(&mut self, families: Vec<String>)
        requires
            old(self).wf(),
        ensures
            final(self).wf(),
            final(self)@ == (SessionState {
                world: WorldState {
                    font_families: crate::text::string_views(families@),
                    ..old(self)@.world
                },
                document: old(self)@.document,
            }),
    {
        self.world.set_font_families(families);
    }

    /// The names of the font families of the font index. No compiled
    /// document is needed.
    pub fn font_families(&self) -> (families: Vec<String>)
        ensures
            crate::text::string_views(families@) == self@.world.font_families,
    {
        self.world.font_families()
    }

    /// Provides the compiler with the source of a file. The document stays.
    pub fn source<L>(&mut self, id: FileId, load: L) -> (result: Result<Source, FileError>) where
        L: FnOnce() -> Result<Vec<u8>, FileError>,

        requires
            old(self).wf(),
            call_requires(load, ()),
        ensures
            final(self).wf(),
            final(self)@.document == old(self)@.document,
            source_provided(old(self)@.world, id, load, final(self)@.world, result),
    {
        self.world.source(id, load)
    }

    /// Provides the compiler with the bytes of a file. The document stays.
    pub fn file<L>(&mut self, id: FileId, load: L) -> (result: Result<Bytes, FileError>) where
        L: FnOnce() -> Result<Vec<u8>, FileError>,

        requires
            old(self).wf(),
            call_requires(load, ()),
        ensures
            final(self).wf(),
            final(self)@.document == old(self)@.document,
            file_provided(old(self)@.world, id, load, final(self)@.world, result),
    {
        self.world.file(id, load)
    }

    /// Provides the compiler with today's date. The document stays.
    pub fn today(&mut self, offset: Option<i64>) -> (date: Option<Date>)
        requires
            old(self).wf(),
        ensures
            final(self).wf(),
            final(self)@.document == old(self)@.document,
            final(self)@.world == (WorldState { now: final(self)@.world.now, ..old(self)@.world }),
            told(old(self)@.world.now, offset, final(self)@.world.now, date),
    {
        self.world.today(offset)
    }

    /// Prepares the world for a compilation.
    pub fn begin_compile(&mut self)
        requires
            old(self).wf(),
        ensures
            final(self).wf(),
            final(self)@ == old(self)@.started(),
    {
        self.world.reset();
    }

    /// Takes in what the compiler returned.
    ///
    /// After a success the session holds the document, and the page count
    /// and the warnings are returned. After a failure the session is empty,
    /// and the errors are returned. Diagnostics keep the order of the
    /// compiler, and their positions are resolved in the texts that the
    /// world knows.
    pub fn finish_compile(
        &mut self,
        output: Result<PagedDocument, Vec<RawDiagnostic>>,
        warnings: &Vec<RawDiagnostic>,
    ) -> (result: Result<CompileSummary, Vec<Diagnostic>>)
        requires
            old(self).wf(),
        ensures
            final(self).wf(),
            final(self)@ == old(self)@.finished(output),
            match output {
                Ok(document) => {
                    &&& result matches Ok(summary)
                    &&& summary.page_count == page_count_of(document)
                    &&& report_all(warnings@, summary.warnings@, old(self)@.world.positions())
                },
                Err(errors) => {
                    &&& result matches Err(reported)
                    &&& report_all(errors@, reported@, old(self)@.world.positions())
                },
            },
    {
        match output {
            Ok(document) => {
                let summary = CompileSummary {
                    page_count: page_count(&document),
                    warnings: self.world.map_diagnostics(warnings),
                };
                self.document = Some(document);
                Ok(summary)
            },
            Err(errors) => {
                self.document = None;
                Err(self.world.map_diagnostics(&errors))
            },
        }
    }

    /// Renders a page of the compiled document as an SVG image: the image
    /// of exactly that page. Without a document, or for an index that the
    /// document does not have, rendering is refused.
    pub fn render(&self, page_index: usize) -> (result: Result<String, Vec<Diagnostic>>)
        requires
            self.wf(),
        ensures
            match self@.render_refusal(page_index) {
                Some(message) => refused_with(result, message),
                None => result matches Ok(image) && image@ == page_svg(
                    self@.document->0,
                    page_index,
                ),
            },
    {
        match &self.document {
            Some(document) => render_page(document, page_index),
            None => refuse_without_document(),
        }
    }

    /// Exports the compiled document as a PDF file.
    ///
    /// Without a document, or with options that do not fit it, the export is
    /// refused. Otherwise the serializer is run on the document with the
    /// identifier, standards and page ranges of the options: it gives the
    /// bytes of the file, or diagnostics, which are reported without
    /// positions.
    pub fn export(&self, options: &PdfOptionsNif) -> (result: Result<Vec<u8>, Vec<Diagnostic>>)
        requires
            self.wf(),
        ensures
            match self@.export_refusal(*options) {
                Some(message) => refused_with(result, message),
                None => export_outcome(self@.document->0, *options, result),
            },
    {
        match &self.document {
            Some(document) => export_document(document, options),
            None => refuse_without_document(),
        }
    }
}

} // verus!
