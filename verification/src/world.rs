//! The compilation world: what the compiler asks for sources, raw files and
//! the date, answered from the markup in memory, the virtual-file overlay
//! and the file cache, in that order.

use crate::cache::{
    file_fetched, reset_slot, slot_accessed, source_fetched, FileCache, SlotState,
};
use crate::parsing::{decode_utf8, parse_source, parsed, without_bom, wrapped};
use crate::clock::{told, Date, Now};
use crate::diagnostic::{
    no_positions, report_all, reports, resolved_span, Diagnostic, RawDiagnostic, RawSpan, Span,
    TracePoint,
};
use crate::error::FileError;
use crate::inputs::{bound, dictionary, InputBinding, InputBindings};
use crate::options::{usable_directories, FontPath, FontSearch};
use crate::outside::{
    bytes_new, same_file, source_as_str, source_file, source_new, source_text,
};
use crate::overlay::VirtualFileOverlay;
use crate::position::{locate, position_at, Position};
use crate::text::{clone_strings, string_views};
use std::path::PathBuf;
use typst::foundations::Bytes;
use typst::syntax::{FileId, Source};
use vstd::prelude::*;
use vstd::string::{StrSliceExecFns, StringSliceAdditionalSpecFns};

verus! {

/// What a world holds, as contracts see it.
pub struct WorldState {
    /// The root that paths of the project are resolved against.
    pub root: PathBuf,
    /// The identity of the main file, which stands for the markup.
    pub main: FileId,
    /// The markup in memory.
    pub markup: Seq<char>,
    /// Whether system fonts are searched.
    pub include_system_fonts: bool,
    /// The directories that are searched for fonts.
    pub font_directories: Seq<Seq<char>>,
    /// The names of the font families that were found.
    pub font_families: Seq<Seq<char>>,
    /// The input bindings.
    pub inputs: Map<Seq<char>, Seq<char>>,
    /// The file cache.
    pub cache: Map<FileId, SlotState>,
    /// The virtual-file overlay.
    pub overlay: Map<FileId, Seq<u8>>,
    /// The clock.
    pub now: Now,
}

impl WorldState {
    /// The text of a file as UTF-8, where the world has it without loading
    /// anything: the markup for the main file, else the overlay content
    /// without a byte-order mark if that is valid UTF-8, else the source
    /// that the cache holds.
    pub open spec fn known_text(self, id: FileId) -> Option<Seq<u8>> {
        if id == self.main {
            Some(vstd::utf8::encode_utf8(self.markup))
        } else if self.overlay.contains_key(id) {
            if vstd::utf8::valid_utf8(without_bom(self.overlay[id])) {
                Some(without_bom(self.overlay[id]))
            } else {
                None
            }
        } else if self.cache.contains_key(id) {
            match self.cache[id].source.previous() {
                Some(source) => Some(vstd::utf8::encode_utf8(source_text(source))),
                None => None,
            }
        } else {
            None
        }
    }

    /// The line and column of a byte offset in a file; none where the text
    /// of the file is not known or has no such offset.
    pub open spec fn position_of(self, id: FileId, offset: usize) -> Option<Position> {
        match self.known_text(id) {
            Some(text) => match position_at(text, offset as int) {
                Some((line, column)) => Some(
                    Position { line: line as usize, column: column as usize },
                ),
                None => None,
            },
            None => None,
        }
    }

    /// The positions that the world can resolve.
    pub open spec fn positions(self) -> spec_fn(FileId, usize) -> Option<Position> {
        |id: FileId, offset: usize| self.position_of(id, offset)
    }
}

/// How a world changes when it provides the source of a file, and what it
/// provides.
///
/// The main file is the markup in memory. Any other file with a virtual
/// file is that virtual file, parsed; neither the cache nor `load` plays a
/// part. Every other file comes through the cache. Nothing but the cache
/// changes.
pub open spec fn source_provided<L: FnOnce() -> Result<Vec<u8>, FileError>>(
    pre: WorldState,
    id: FileId,
    load: L,
    post: WorldState,
    result: Result<Source, FileError>,
) -> bool {
    &&& post == (WorldState { cache: post.cache, ..pre })
    &&& if id == pre.main {
        &&& post == pre
        &&& result matches Ok(source)
        &&& source_file(source) == id
        &&& source_text(source) == pre.markup
    } else if pre.overlay.contains_key(id) {
        &&& post == pre
        &&& parsed(id, pre.overlay[id], result)
    } else {
        source_fetched(pre.cache, id, load, post.cache, result)
    }
}

/// How a world changes when it provides the bytes of a file, and what it
/// provides: as for a source, with the bytes in place of the parsed text.
pub open spec fn file_provided<L: FnOnce() -> Result<Vec<u8>, FileError>>(
    pre: WorldState,
    id: FileId,
    load: L,
    post: WorldState,
    result: Result<Bytes, FileError>,
) -> bool {
    &&& post == (WorldState { cache: post.cache, ..pre })
    &&& if id == pre.main {
        &&& post == pre
        &&& wrapped(vstd::utf8::encode_utf8(pre.markup), result)
    } else if pre.overlay.contains_key(id) {
        &&& post == pre
        &&& wrapped(pre.overlay[id], result)
    } else {
        file_fetched(pre.cache, id, load, post.cache, result)
    }
}

/// Where a world has a file that it need not load.
enum Held<'a> {
    /// The file is the main file: its text is the markup.
    Markup(&'a str),
    /// The file has a virtual file: the content of that.
    Virtual(&'a Vec<u8>),
    /// The file is neither: the cache may hold it.
    Elsewhere,
}

/// A world that provides the compiler with sources, raw files and the date.
pub struct SystemWorld {
    /// The root relative to which absolute paths are resolved.
    root: PathBuf,
    /// The identity of the main file.
    main: FileId,
    /// The markup that stands for the main file.
    markup: String,
    /// Where fonts are searched.
    fonts: FontSearch,
    /// The names of the font families that the search found.
    font_families: Vec<String>,
    /// The input bindings.
    inputs: InputBindings,
    /// The cached sources and raw files.
    cache: FileCache,
    /// The virtual files that shadow the disk.
    overlay: VirtualFileOverlay,
    /// The instant of the ongoing compilation.
    now: Now,
}

impl View for SystemWorld {
    type V = WorldState;

    closed spec fn view(&self) -> WorldState {
        WorldState {
            root: self.root,
            main: self.main,
            markup: self.markup@,
            include_system_fonts: self.fonts.include_system_fonts,
            font_directories: string_views(self.fonts.directories@),
            font_families: string_views(self.font_families@),
            inputs: self.inputs@,
            cache: self.cache@,
            overlay: self.overlay@,
            now: self.now,
        }
    }
}

impl SystemWorld {
    /// The parts of the world are well formed.
    pub closed spec fn wf(&self) -> bool {
        &&& self.inputs.wf()
        &&& self.cache.wf()
        &&& self.overlay.wf()
    }

    /// Creates a world that searches system fonts and no directories.
    pub fn new(root: PathBuf, main: FileId, markup: String) -> (world: Self)
        ensures
            world.wf(),
            world@ == (WorldState {
                root,
                main,
                markup: markup@,
                include_system_fonts: true,
                font_directories: Seq::empty(),
                font_families: Seq::empty(),
                inputs: Map::empty(),
                cache: Map::empty(),
                overlay: Map::empty(),
                now: Now::System(None),
            }),
    {
        let none: Vec<FontPath> = Vec::new();
        Self::with_font_options(root, main, markup, &none, false)
    }

    /// Creates a world that searches system fonts and the given paths.
    pub fn with_font_paths(
        root: PathBuf,
        main: FileId,
        markup: String,
        font_paths: &Vec<FontPath>,
    ) -> (world: Self)
        ensures
            world.wf(),
            world@ == (WorldState {
                root,
                main,
                markup: markup@,
                include_system_fonts: true,
                font_directories: usable_directories(font_paths@),
                font_families: Seq::empty(),
                inputs: Map::empty(),
                cache: Map::empty(),
                overlay: Map::empty(),
                now: Now::System(None),
            }),
    {
        Self::with_font_options(root, main, markup, font_paths, false)
    }

    /// Creates a world with font options: the paths that are directories
    /// are searched, and system fonts unless they are to be ignored. The
    /// world starts without inputs, virtual files and cached files, and
    /// with a clock that follows the system time.
    pub fn with_font_options(
        root: PathBuf,
        main: FileId,
        markup: String,
        font_paths: &Vec<FontPath>,
        ignore_system_fonts: bool,
    ) -> (world: Self)
        ensures
            world.wf(),
            world@ == (WorldState {
                root,
                main,
                markup: markup@,
                include_system_fonts: !ignore_system_fonts,
                font_directories: usable_directories(font_paths@),
                font_families: Seq::empty(),
                inputs: Map::empty(),
                cache: Map::empty(),
                overlay: Map::empty(),
                now: Now::System(None),
            }),
    {
        let world = Self {
            root,
            main,
            markup,
            fonts: FontSearch::plan(font_paths, ignore_system_fonts),
            font_families: Vec::new(),
            inputs: InputBindings::new(),
            cache: FileCache::new(),
            overlay: VirtualFileOverlay::new(),
            now: Now::system(),
        };
        assert(string_views(world.font_families@) =~= Seq::<Seq<char>>::empty());
        world
    }

    /// The identity of the main file.
    pub fn main(&self) -> (main: FileId)
        ensures
            main == self@.main,
    {
        self.main
    }

    /// The root relative to which absolute paths are resolved.
    pub fn root(&self) -> (root: &PathBuf)
        ensures
            *root == self@.root,
    {
        &self.root
    }

    /// The markup in memory.
    pub fn markup(&self) -> (markup: &str)
        ensures
            markup@ == self@.markup,
    {
        self.markup.as_str()
    }

    /// Where fonts are searched.
    pub fn fonts(&self) -> (fonts: &FontSearch)
        ensures
            fonts.include_system_fonts == self@.include_system_fonts,
            string_views(fonts.directories@) == self@.font_directories,
    {
        &self.fonts
    }

    /// Records the names of the font families that the search found.
    pub fn set_font_families(&mut self, families: Vec<String>)
        requires
            old(self).wf(),
        ensures
            final(self).wf(),
            final(self)@ == (WorldState {
                font_families: string_views(families@),
                ..old(self)@
            }),
    {
        self.font_families = families;
    }

    /// The names of the font families that the search found.
    pub fn font_families(&self) -> (families: Vec<String>)
        ensures
            string_views(families@) == self@.font_families,
    {
        clone_strings(&self.font_families)
    }

    /// The input bindings, each key once.
    pub fn inputs(&self) -> (inputs: &Vec<InputBinding>)
        requires
            self.wf(),
        ensures
            dictionary(inputs@) == self@.inputs,
    {
        self.inputs.entries()
    }

    /// Returns the identities of all files that the ongoing or last
    /// compilation read through the cache, each once.
    pub fn dependencies(&self) -> (ids: Vec<FileId>)
        requires
            self.wf(),
        ensures
            ids@.no_duplicates(),
            forall|id: FileId|
                ids@.contains(id) <==> self@.cache.contains_key(id) && slot_accessed(
                    self@.cache[id],
                ),
    {
        self.cache.accessed()
    }

    /// Resets the compilation state in preparation of a new compilation:
    /// every cached file counts as not yet read, and a captured system time
    /// is forgotten. What the cache holds stays.
    pub fn reset(&mut self)
        requires
            old(self).wf(),
        ensures
            final(self).wf(),
            final(self)@ == (WorldState {
                cache: old(self)@.cache.map_values(|slot: SlotState| reset_slot(slot)),
                now: match old(self)@.now {
                    Now::Fixed(timestamp) => Now::Fixed(timestamp),
                    Now::System(_) => Now::System(None),
                },
                ..old(self)@
            }),
    {
        self.cache.reset();
        self.now.reset();
    }

    /// Replaces the markup. Every cached file counts as not yet read
    /// afterwards.
    pub fn set_markup(&mut self, text: String)
        requires
            old(self).wf(),
        ensures
            final(self).wf(),
            final(self)@ == (WorldState {
                markup: text@,
                cache: old(self)@.cache.map_values(|slot: SlotState| reset_slot(slot)),
                ..old(self)@
            }),
    {
        self.markup = text;
        self.cache.reset();
    }

    /// Binds an input, in place of what was bound to the key before.
    pub fn set_input(&mut self, key: String, value: String)
        requires
            old(self).wf(),
        ensures
            final(self).wf(),
            final(self)@ == (WorldState {
                inputs: old(self)@.inputs.insert(key@, value@),
                ..old(self)@
            }),
    {
        self.inputs.set(key, value);
    }

    /// Replaces all inputs by the given bindings, bound in the order given.
    pub fn set_inputs(&mut self, bindings: &Vec<InputBinding>)
        requires
            old(self).wf(),
        ensures
            final(self).wf(),
            final(self)@ == (WorldState { inputs: bound(bindings@), ..old(self)@ }),
    {
        self.inputs.replace(bindings);
    }

    /// Sets the content of a virtual file, replacing what was set before.
    pub fn set_virtual_file(&mut self, id: FileId, content: Vec<u8>)
        requires
            old(self).wf(),
        ensures
            final(self).wf(),
            final(self)@ == (WorldState {
                overlay: old(self)@.overlay.insert(id, content@),
                ..old(self)@
            }),
    {
        self.overlay.set(id, content);
    }

    /// Appends to the content of a virtual file; where there was none, the
    /// chunk becomes its content.
    pub fn append_virtual_file(&mut self, id: FileId, chunk: Vec<u8>)
        requires
            old(self).wf(),
        ensures
            final(self).wf(),
            final(self)@ == (WorldState {
                overlay: old(self)@.overlay.insert(
                    id,
                    if old(self)@.overlay.contains_key(id) {
                        old(self)@.overlay[id] + chunk@
                    } else {
                        chunk@
                    },
                ),
                ..old(self)@
            }),
    {
        self.overlay.append(id, chunk);
    }

    /// Removes a virtual file, if there is one.
    pub fn clear_virtual_file(&mut self, id: FileId)
        requires
            old(self).wf(),
        ensures
            final(self).wf(),
            final(self)@ == (WorldState { overlay: old(self)@.overlay.remove(id), ..old(self)@ }),
    {
        self.overlay.clear(id);
    }

    /// Where the world has a file without the cache: the one place where
    /// the order of the markup, the virtual files and the cache is decided.
    fn held(&self, id: FileId) -> (held: Held<'_>)
        requires
            self.wf(),
        ensures
            match held {
                Held::Markup(text) => id == self@.main && text@ == self@.markup,
                Held::Virtual(content) => {
                    &&& id != self@.main
                    &&& self@.overlay.contains_key(id)
                    &&& self@.overlay[id] == content@
                },
                Held::Elsewhere => id != self@.main && !self@.overlay.contains_key(id),
            },
    {
        if same_file(id, self.main) {
            return Held::Markup(self.markup.as_str());
        }
        match self.overlay.get(id) {
            Some(content) => Held::Virtual(content),
            None => Held::Elsewhere,
        }
    }

    /// Provides the source of a file: the markup for the main file, else
    /// the virtual file if there is one, else what the cache gives, for
    /// which `load` reads the bytes of the file.
    pub fn source<L>(&mut self, id: FileId, load: L) -> (result: Result<Source, FileError>) where
        L: FnOnce() -> Result<Vec<u8>, FileError>,

        requires
            old(self).wf(),
            call_requires(load, ()),
        ensures
            final(self).wf(),
            source_provided(old(self)@, id, load, final(self)@, result),
    {
        match self.held(id) {
            Held::Markup(text) => Ok(source_new(id, text.to_owned())),
            Held::Virtual(content) => parse_source(id, content.clone(), None),
            Held::Elsewhere => self.cache.source(id, load),
        }
    }

    /// Provides the bytes of a file, from the same places as its source.
    pub fn file<L>(&mut self, id: FileId, load: L) -> (result: Result<Bytes, FileError>) where
        L: FnOnce() -> Result<Vec<u8>, FileError>,

        requires
            old(self).wf(),
            call_requires(load, ()),
        ensures
            final(self).wf(),
            file_provided(old(self)@, id, load, final(self)@, result),
    {
        match self.held(id) {
            Held::Markup(text) => Ok(bytes_new(text.as_bytes_vec())),
            Held::Virtual(content) => Ok(bytes_new(content.clone())),
            Held::Elsewhere => self.cache.file(id, load),
        }
    }

    /// Today's date at the given whole-hour offset from UTC, or in the time
    /// zone of the machine where none is given. The instant is captured at
    /// most once between two resets.
    pub fn today(&mut self, offset: Option<i64>) -> (date: Option<Date>)
        requires
            old(self).wf(),
        ensures
            final(self).wf(),
            final(self)@ == (WorldState { now: final(self)@.now, ..old(self)@ }),
            told(old(self)@.now, offset, final(self)@.now, date),
    {
        self.now.today(offset)
    }

    /// Locates a byte offset in the text of a file that the world knows.
    /// Nothing is loaded for it.
    pub fn locate(&self, id: FileId, offset: usize) -> (position: Option<Position>)
        requires
            self.wf(),
        ensures
            position == self@.position_of(id, offset),
    {
        match self.held(id) {
            Held::Markup(text) => locate(text, offset),
            Held::Virtual(content) => match decode_utf8(content.as_slice()) {
                Ok(text) => locate(text, offset),
                Err(_) => None,
            },
            Held::Elsewhere => match self.cache.cached_source(id) {
                Some(source) => locate(source_as_str(&source), offset),
                None => None,
            },
        }
    }

    /// Whether the world has the text of a file without loading anything.
    pub open spec fn knows(&self, id: FileId) -> bool {
        self@.known_text(id) is Some
    }

    /// Whether the world has the text of a file without loading anything,
    /// so that the file can be looked up.
    pub fn has_source(&self, id: FileId) -> (known: bool)
        requires
            self.wf(),
        ensures
            known == self.knows(id),
    {
        match self.held(id) {
            Held::Markup(_) => true,
            Held::Virtual(content) => decode_utf8(content.as_slice()).is_ok(),
            Held::Elsewhere => self.cache.cached_source(id).is_some(),
        }
    }

    /// The source of a file, where the world has its text without loading
    /// anything.
    pub fn find_source(&self, id: FileId) -> (found: Option<Source>)
        requires
            self.wf(),
        ensures
            match found {
                Some(source) => {
                    &&& source_file(source) == id
                    &&& Some(vstd::utf8::encode_utf8(source_text(source))) == self@.known_text(id)
                },
                None => !self.knows(id),
            },
    {
        match self.held(id) {
            Held::Markup(text) => Some(source_new(id, text.to_owned())),
            Held::Virtual(content) => match parse_source(id, content.clone(), None) {
                Ok(source) => Some(source),
                Err(_) => None,
            },
            Held::Elsewhere => self.cache.cached_source(id),
        }
    }

    /// Looks up a source file by identity, among what the world has without
    /// loading anything.
    pub fn lookup(&self, id: FileId) -> (source: Source)
        requires
            self.wf(),
            self.knows(id),
        ensures
            source_file(source) == id,
            Some(vstd::utf8::encode_utf8(source_text(source))) == self@.known_text(id),
    {
        self.find_source(id).unwrap()
    }
}

/// The positions that can be resolved with a world at hand, or without
/// one: with none, every position is unknown.
pub open spec fn positions_with(world: Option<&SystemWorld>) -> spec_fn(FileId, usize) -> Option<
    Position,
> {
    match world {
        Some(world) => world@.positions(),
        None => no_positions(),
    }
}

/// Reports a compiler span: its byte range, with the line and column of its
/// start where there is a world that knows the text of the file.
pub fn report_span(world: Option<&SystemWorld>, raw: &RawSpan) -> (span: Option<Span>)
    requires
        world matches Some(w) ==> w.wf(),
    ensures
        span == resolved_span(*raw, positions_with(world)),
{
    match raw.range {
        Some((start, end)) => {
            let position = match (world, raw.file) {
                (Some(world), Some(file)) => world.locate(file, start),
                _ => None,
            };
            Some(Span { start, end, position })
        },
        None => None,
    }
}

/// Reports a compiler diagnostic: its severity, message and hints as they
/// are, and the spans of the diagnostic and of each step of its trace as
/// `report_span` reports them.
pub fn report_diagnostic(world: Option<&SystemWorld>, raw: &RawDiagnostic) -> (mapped: Diagnostic)
    requires
        world matches Some(w) ==> w.wf(),
    ensures
        reports(*raw, mapped, positions_with(world)),
{
    let mut trace: Vec<TracePoint> = Vec::new();
    let mut i: usize = 0;
    while i < raw.trace.len()
        invariant
            world matches Some(w) ==> w.wf(),
            i <= raw.trace.len(),
            trace@.len() == i,
            forall|k: int|
                0 <= k < i ==> {
                    &&& (#[trigger] trace@[k]).message == raw.trace@[k].message
                    &&& trace@[k].span == resolved_span(
                        raw.trace@[k].span,
                        positions_with(world),
                    )
                },
        decreases raw.trace.len() - i,
    {
        trace.push(
            TracePoint {
                span: report_span(world, &raw.trace[i].span),
                message: raw.trace[i].message.clone(),
            },
        );
        i += 1;
    }
    Diagnostic {
        severity: raw.severity,
        message: raw.message.clone(),
        span: report_span(world, &raw.span),
        trace,
        hints: clone_strings(&raw.hints),
    }
}

/// Reports compiler diagnostics, one for one and in the order given.
pub fn report_diagnostics(world: Option<&SystemWorld>, raw: &Vec<RawDiagnostic>) -> (mapped: Vec<
    Diagnostic,
>)
    requires
        world matches Some(w) ==> w.wf(),
    ensures
        report_all(raw@, mapped@, positions_with(world)),
{
    let mut mapped: Vec<Diagnostic> = Vec::new();
    let mut i: usize = 0;
    while i < raw.len()
        invariant
            world matches Some(w) ==> w.wf(),
            i <= raw.len(),
            mapped@.len() == i,
            forall|k: int|
                0 <= k < i ==> reports(raw@[k], #[trigger] mapped@[k], positions_with(world)),
        decreases raw.len() - i,
    {
        mapped.push(report_diagnostic(world, &raw[i]));
        i += 1;
    }
    mapped
}

impl SystemWorld {
    /// Reports a compiler span: its byte range, with the line and column of
    /// its start where the world knows the text of the file.
    pub fn map_span(&self, raw: &RawSpan) -> (span: Option<Span>)
        requires
            self.wf(),
        ensures
            span == resolved_span(*raw, self@.positions()),
    {
        report_span(Some(self), raw)
    }

    /// Reports a compiler diagnostic, resolving positions in the texts that
    /// the world knows.
    pub fn map_diagnostic(&self, raw: &RawDiagnostic) -> (mapped: Diagnostic)
        requires
            self.wf(),
        ensures
            reports(*raw, mapped, self@.positions()),
    {
        report_diagnostic(Some(self), raw)
    }

    /// Reports compiler diagnostics, in the order given.
    pub fn map_diagnostics(&self, raw: &Vec<RawDiagnostic>) -> (mapped: Vec<Diagnostic>)
        requires
            self.wf(),
        ensures
            report_all(raw@, mapped@, self@.positions()),
    {
        report_diagnostics(Some(self), raw)
    }
}

} // verus!
