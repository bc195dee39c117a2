//! Diagnostics: what the compiler reports, and the records that the
//! session hands to the host.

use crate::position::Position;
use crate::text::{decimal, decimal_string, join_strings, joined, string_views};
use crate::world::{report_diagnostic, report_diagnostics};
use typst::syntax::FileId;
use vstd::prelude::*;
use vstd::string::StringExecFns;

verus! {

/// How severe a diagnostic is.
#[derive(Debug, Clone, Copy, PartialEq, Eq, Structural)]
pub enum Severity {
    Error,
    Warning,
}

/// A range of bytes in a source text, with the position of its start where
/// that could be resolved.
#[derive(Debug, Clone, Copy, PartialEq, Eq)]
pub struct Span {
    pub start: usize,
    pub end: usize,
    /// Line and column of `start`; absent where unknown.
    pub position: Option<Position>,
}

/// One step of the trace of a diagnostic.
#[derive(Debug, PartialEq, Eq)]
pub struct TracePoint {
    pub span: Option<Span>,
    pub message: String,
}

/// A diagnostic as the session reports it.
#[derive(Debug, PartialEq, Eq)]
pub struct Diagnostic {
    pub severity: Severity,
    pub message: String,
    pub span: Option<Span>,
    pub trace: Vec<TracePoint>,
    pub hints: Vec<String>,
}

/// Where the compiler points: a file, and a range of bytes in its text.
/// Either may be unknown.
#[derive(Debug, Clone, Copy, PartialEq, Eq)]
pub struct RawSpan {
    pub file: Option<FileId>,
    pub range: Option<(usize, usize)>,
}

/// One step of the trace of a compiler diagnostic.
#[derive(Debug, PartialEq, Eq)]
pub struct RawTracePoint {
    pub span: RawSpan,
    pub message: String,
}

/// A diagnostic as the compiler reports it.
#[derive(Debug, PartialEq, Eq)]
pub struct RawDiagnostic {
    pub severity: Severity,
    pub message: String,
    pub span: RawSpan,
    pub trace: Vec<RawTracePoint>,
    pub hints: Vec<String>,
}

/// The text for a severity.
pub open spec fn severity_text(severity: Severity) -> Seq<char> {
    match severity {
        Severity::Error => "Error"@,
        Severity::Warning => "Warning"@,
    }
}

/// The text for a position: ` (line:column)`, or nothing where it is
/// unknown.
pub open spec fn position_text(position: Option<Position>) -> Seq<char> {
    match position {
        Some(p) => " ("@ + decimal(p.line as nat) + ":"@ + decimal(p.column as nat) + ")"@,
        None => Seq::empty(),
    }
}

/// The text for a span: `start..end` and its position, or `none`.
pub open spec fn span_text(span: Option<Span>) -> Seq<char> {
    match span {
        Some(s) => decimal(s.start as nat) + ".."@ + decimal(s.end as nat) + position_text(
            s.position,
        ),
        None => "none"@,
    }
}

/// The text for a step of a trace: its span, then its message.
pub open spec fn trace_point_text(point: TracePoint) -> Seq<char> {
    span_text(point.span) + ": "@ + point.message@
}

/// The texts for the steps of a trace.
pub open spec fn trace_texts(trace: Seq<TracePoint>) -> Seq<Seq<char>> {
    trace.map_values(|point: TracePoint| trace_point_text(point))
}

/// The text for a list: its items between brackets, separated by `, `.
pub open spec fn list_text(items: Seq<Seq<char>>) -> Seq<char> {
    "["@ + joined(items, ", "@) + "]"@
}

/// The text for a diagnostic: five lines, for its severity, span, message,
/// trace and hints.
pub open spec fn diagnostic_text(diagnostic: Diagnostic) -> Seq<char> {
    "Severity: "@ + severity_text(diagnostic.severity) + "\nSpan: "@ + span_text(diagnostic.span)
        + "\nMessage: "@ + diagnostic.message@ + "\nTrace: "@ + list_text(
        trace_texts(diagnostic.trace@),
    ) + "\nHints: "@ + list_text(string_views(diagnostic.hints@))
}

/// The texts of diagnostics.
pub open spec fn diagnostic_texts(diagnostics: Seq<Diagnostic>) -> Seq<Seq<char>> {
    diagnostics.map_values(|diagnostic: Diagnostic| diagnostic_text(diagnostic))
}

/// The text for a span.
fn span_string(span: &Option<Span>) -> (text: String)
    ensures
        text@ == span_text(*span),
{
    match span {
        None => "none".to_owned(),
        Some(s) => {
            let mut text = decimal_string(s.start);
            text.append("..");
            text.append(decimal_string(s.end).as_str());
            match s.position {
                Some(p) => {
                    text.append(" (");
                    text.append(decimal_string(p.line).as_str());
                    text.append(":");
                    text.append(decimal_string(p.column).as_str());
                    text.append(")");
                    assert(text@ =~= span_text(*span));
                },
                None => {
                    assert(text@ =~= span_text(*span));
                },
            }
            text
        },
    }
}

/// The text for a list of items.
fn list_string(items: &Vec<String>) -> (text: String)
    ensures
        text@ == list_text(string_views(items@)),
{
    let mut text = "[".to_owned();
    text.append(join_strings(items, ", ").as_str());
    text.append("]");
    text
}

/// The texts for the steps of a trace.
fn trace_strings(trace: &Vec<TracePoint>) -> (texts: Vec<String>)
    ensures
        string_views(texts@) == trace_texts(trace@),
{
    let mut texts: Vec<String> = Vec::new();
    let mut i: usize = 0;
    while i < trace.len()
        invariant
            i <= trace.len(),
            texts@.len() == i,
            string_views(texts@) == trace_texts(trace@.take(i as int)),
        decreases trace.len() - i,
    {
        let mut text = span_string(&trace[i].span);
        text.append(": ");
        text.append(trace[i].message.as_str());
        let ghost before = texts@;
        texts.push(text);
        proof {
            assert(text@ =~= trace_point_text(trace@[i as int]));
            assert forall|k: int| 0 <= k < i implies string_views(texts@)[k] == trace_texts(
                trace@.take(i + 1),
            )[k] by {
                assert(string_views(before)[k] == trace_texts(trace@.take(i as int))[k]);
            }
        }
        assert(string_views(texts@) =~= trace_texts(trace@.take(i + 1)));
        i += 1;
    }
    assert(trace@.take(trace.len() as int) =~= trace@);
    texts
}

/// Writes a diagnostic out as text.
pub fn format_diagnostic(diagnostic: &Diagnostic) -> (text: String)
    ensures
        text@ == diagnostic_text(*diagnostic),
{
    let mut text = "Severity: ".to_owned();
    match diagnostic.severity {
        Severity::Error => text.append("Error"),
        Severity::Warning => text.append("Warning"),
    }
    text.append("\nSpan: ");
    text.append(span_string(&diagnostic.span).as_str());
    text.append("\nMessage: ");
    text.append(diagnostic.message.as_str());
    text.append("\nTrace: ");
    text.append(list_string(&trace_strings(&diagnostic.trace)).as_str());
    text.append("\nHints: ");
    text.append(list_string(&diagnostic.hints).as_str());
    text
}

/// Writes diagnostics out as text, in the order given and with an empty
/// line between each two.
pub fn diagnostics_to_string(diagnostics: &Vec<Diagnostic>) -> (text: String)
    ensures
        text@ == joined(diagnostic_texts(diagnostics@), "\n\n"@),
{
    let mut texts: Vec<String> = Vec::new();
    let mut i: usize = 0;
    while i < diagnostics.len()
        invariant
            i <= diagnostics.len(),
            texts@.len() == i,
            string_views(texts@) == diagnostic_texts(diagnostics@.take(i as int)),
        decreases diagnostics.len() - i,
    {
        let ghost before = texts@;
        texts.push(format_diagnostic(&diagnostics[i]));
        proof {
            assert forall|k: int| 0 <= k < i implies string_views(texts@)[k] == diagnostic_texts(
                diagnostics@.take(i + 1),
            )[k] by {
                assert(string_views(before)[k] == diagnostic_texts(
                    diagnostics@.take(i as int),
                )[k]);
            }
        }
        assert(string_views(texts@) =~= diagnostic_texts(diagnostics@.take(i + 1)));
        i += 1;
    }
    assert(diagnostics@.take(diagnostics.len() as int) =~= diagnostics@);
    join_strings(&texts, "\n\n")
}

/// The reported span for a compiler span: none without a byte range;
/// otherwise the range, with the position of its start where `positions`
/// knows the file and the offset.
pub open spec fn resolved_span(
    raw: RawSpan,
    positions: spec_fn(FileId, usize) -> Option<Position>,
) -> Option<Span> {
    match raw.range {
        Some((start, end)) => Some(
            Span {
                start,
                end,
                position: match raw.file {
                    Some(file) => positions(file, start),
                    None => None,
                },
            },
        ),
        None => None,
    }
}

/// Whether `mapped` reports `raw`: same severity, message and hints, and
/// the spans of the diagnostic and of each step of its trace resolved by
/// `positions`.
pub open spec fn reports(
    raw: RawDiagnostic,
    mapped: Diagnostic,
    positions: spec_fn(FileId, usize) -> Option<Position>,
) -> bool {
    &&& mapped.severity == raw.severity
    &&& mapped.message == raw.message
    &&& mapped.hints@ == raw.hints@
    &&& mapped.span == resolved_span(raw.span, positions)
    &&& mapped.trace@.len() == raw.trace@.len()
    &&& forall|i: int|
        0 <= i < raw.trace@.len() ==> {
            &&& (#[trigger] mapped.trace@[i]).message == raw.trace@[i].message
            &&& mapped.trace@[i].span == resolved_span(raw.trace@[i].span, positions)
        }
}

/// Whether `mapped` reports the diagnostics of `raw`, one for one and in
/// the same order.
pub open spec fn report_all(
    raw: Seq<RawDiagnostic>,
    mapped: Seq<Diagnostic>,
    positions: spec_fn(FileId, usize) -> Option<Position>,
) -> bool {
    &&& mapped.len() == raw.len()
    &&& forall|i: int| 0 <= i < raw.len() ==> reports(raw[i], #[trigger] mapped[i], positions)
}

/// Positions where no source text is at hand: every position is unknown.
pub open spec fn no_positions() -> spec_fn(FileId, usize) -> Option<Position> {
    |file: FileId, offset: usize| None::<Position>
}

/// Whether no span of the diagnostic has a position.
pub open spec fn unresolved(diagnostic: Diagnostic) -> bool {
    &&& diagnostic.span matches Some(span) ==> span.position is None
    &&& forall|i: int|
        0 <= i < diagnostic.trace@.len() ==> ((#[trigger] diagnostic.trace@[i]).span matches Some(
            span,
        ) ==> span.position is None)
}

impl Diagnostic {
    /// An error that points nowhere: no span, no trace, no hints.
    pub fn error(message: String) -> (diagnostic: Diagnostic)
        ensures
            diagnostic.severity == Severity::Error,
            diagnostic.message == message,
            diagnostic.span is None,
            diagnostic.trace@.len() == 0,
            diagnostic.hints@.len() == 0,
    {
        Diagnostic {
            severity: Severity::Error,
            message,
            span: None,
            trace: Vec::new(),
            hints: Vec::new(),
        }
    }

    /// Reports a compiler diagnostic without resolving positions: byte
    /// ranges are kept, lines and columns stay unknown.
    pub fn without_position(raw: &RawDiagnostic) -> (mapped: Diagnostic)
        ensures
            reports(*raw, mapped, no_positions()),
            unresolved(mapped),
    {
        report_diagnostic(None, raw)
    }

    /// Reports compiler diagnostics without resolving positions, in the
    /// order given.
    pub fn all_without_position(raw: &Vec<RawDiagnostic>) -> (mapped: Vec<Diagnostic>)
        ensures
            report_all(raw@, mapped@, no_positions()),
            forall|i: int| 0 <= i < mapped@.len() ==> unresolved(#[trigger] mapped@[i]),
    {
        report_diagnostics(None, raw)
    }
}

} // verus!
