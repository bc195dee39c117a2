//! Incremental compilation world and session layer for a Typst document
//! compiler: a fingerprinted file cache, a virtual-file overlay, the
//! compile/render/export session state machine, diagnostic position
//! mapping and page-range selection.

pub mod cache;
pub mod cell;
pub mod clock;
pub mod diagnostic;
pub mod disk;
pub mod document;
pub mod error;
pub mod inputs;
pub mod keyed;
pub mod laws;
pub mod options;
pub mod outside;
pub mod overlay;
pub mod page_range;
pub mod parsing;
pub mod position;
pub mod session;
pub mod text;
pub mod world;
