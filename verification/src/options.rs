//! Option records handed over by the host, and the font search that a
//! world is created with.

use crate::text::string_views;
use vstd::prelude::*;

verus! {

/// Options for a one-shot preview.
pub struct PreviewOptionsNif {
    pub font_paths: Vec<String>,
    pub ignore_system_fonts: bool,
}

/// Options for a PDF export.
pub struct PdfOptionsNif {
    /// Page-range selector such as `1-3,5,7-9`; `None` exports every page.
    pub pages: Option<String>,
    pub pdf_standards: Vec<PdfStandardNif>,
    /// Overrides the document identifier that the serializer would derive.
    pub document_id: Option<String>,
    pub font_paths: Vec<String>,
    pub ignore_system_fonts: bool,
}

/// Options for listing font families.
pub struct FontOptionsNif {
    pub font_paths: Vec<String>,
    pub ignore_system_fonts: bool,
}

/// A PDF standard that an export can be asked to conform to.
#[derive(Debug, Clone, Copy, PartialEq, Eq, Structural)]
pub enum PdfStandardNif {
    Pdf17,
    PdfA2b,
    PdfA3b,
}

impl From<PdfStandardNif> for typst_pdf::PdfStandard {
    /// The standard as the serializer names it.
    fn from(standard: PdfStandardNif) -> (converted: Self) {
        match standard {
            PdfStandardNif::Pdf17 => typst_pdf::PdfStandard::V_1_7,
            PdfStandardNif::PdfA2b => typst_pdf::PdfStandard::A_2b,
            PdfStandardNif::PdfA3b => typst_pdf::PdfStandard::A_3b,
        }
    }
}

impl vstd::std_specs::convert::FromSpecImpl<PdfStandardNif> for typst_pdf::PdfStandard {
    open spec fn obeys_from_spec() -> bool {
        true
    }

    open spec fn from_spec(standard: PdfStandardNif) -> Self {
        match standard {
            PdfStandardNif::Pdf17 => typst_pdf::PdfStandard::V_1_7,
            PdfStandardNif::PdfA2b => typst_pdf::PdfStandard::A_2b,
            PdfStandardNif::PdfA3b => typst_pdf::PdfStandard::A_3b,
        }
    }
}

impl PreviewOptionsNif {
    /// The paths to search for fonts.
    pub fn get_font_paths(&self) -> (paths: &Vec<String>)
        ensures
            *paths == self.font_paths,
    {
        &self.font_paths
    }

    /// Whether system fonts are left out of the search.
    pub fn should_ignore_system_fonts(&self) -> (ignore: bool)
        ensures
            ignore == self.ignore_system_fonts,
    {
        self.ignore_system_fonts
    }
}

impl FontOptionsNif {
    /// The paths to search for fonts.
    pub fn get_font_paths(&self) -> (paths: &Vec<String>)
        ensures
            *paths == self.font_paths,
    {
        &self.font_paths
    }

    /// Whether system fonts are left out of the search.
    pub fn should_ignore_system_fonts(&self) -> (ignore: bool)
        ensures
            ignore == self.ignore_system_fonts,
    {
        self.ignore_system_fonts
    }
}

impl PdfOptionsNif {
    /// The paths to search for fonts.
    pub fn get_font_paths(&self) -> (paths: &Vec<String>)
        ensures
            *paths == self.font_paths,
    {
        &self.font_paths
    }

    /// Whether system fonts are left out of the search.
    pub fn should_ignore_system_fonts(&self) -> (ignore: bool)
        ensures
            ignore == self.ignore_system_fonts,
    {
        self.ignore_system_fonts
    }
}

/// A font path named by the host, with what the file system says of it.
pub struct FontPath {
    pub path: String,
    /// Whether the path exists and is a directory.
    pub is_directory: bool,
}

/// Where fonts are searched when a world is created.
pub struct FontSearch {
    pub include_system_fonts: bool,
    /// The directories to scan; when empty, only the default search runs.
    pub directories: Vec<String>,
}

/// The paths of the candidates that are directories, in the order given.
pub open spec fn usable_directories(candidates: Seq<FontPath>) -> Seq<Seq<char>>
    decreases candidates.len(),
{
    if candidates.len() == 0 {
        Seq::empty()
    } else {
        let rest = usable_directories(candidates.drop_last());
        if candidates.last().is_directory {
            rest.push(candidates.last().path@)
        } else {
            rest
        }
    }
}

impl FontSearch {
    /// Decides the font search from the candidate paths: candidates that are
    /// not directories are dropped, and system fonts are searched unless the
    /// host asked to ignore them.
    pub fn plan(candidates: &Vec<FontPath>, ignore_system_fonts: bool) -> (search: FontSearch)
        ensures
            search.include_system_fonts == !ignore_system_fonts,
            string_views(search.directories@) == usable_directories(candidates@),
    {
        let mut directories: Vec<String> = Vec::new();
        let mut i: usize = 0;
        while i < candidates.len()
            invariant
                i <= candidates.len(),
                string_views(directories@) == usable_directories(candidates@.take(i as int)),
            decreases candidates.len() - i,
        {
            proof {
                assert(candidates@.take(i + 1).drop_last() =~= candidates@.take(i as int));
            }
            if candidates[i].is_directory {
                let ghost before = directories@;
                directories.push(candidates[i].path.clone());
                proof {
                    assert(string_views(directories@) =~= string_views(before).push(
                        candidates@[i as int].path@,
                    ));
                }
            }
            i += 1;
        }
        proof {
            assert(candidates@.take(candidates.len() as int) =~= candidates@);
        }
        FontSearch { include_system_fonts: !ignore_system_fonts, directories }
    }

    /// Whether the search scans explicit directories, rather than running
    /// the default search alone.
    pub fn scans_directories(&self) -> (scans: bool)
        ensures
            scans == (self.directories@.len() > 0),
    {
        self.directories.len() > 0
    }
}

} // verus!
