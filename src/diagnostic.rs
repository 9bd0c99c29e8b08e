//! Positions, ranges and diagnostics as an editor displays them.
use vstd::prelude::*;

verus! {

/// A zero-based line and character in a document.
#[derive(Clone, Copy, Debug, PartialEq, Eq, Structural)]
pub struct Position {
    pub line: u32,
    pub character: u32,
}

/// A span of a document from `start` to `end`.
#[derive(Clone, Copy, Debug, PartialEq, Eq, Structural)]
pub struct Range {
    pub start: Position,
    pub end: Position,
}

/// How serious a diagnostic is. Every diagnostic of this library is an error.
#[derive(Clone, Copy, Debug, PartialEq, Eq, Structural)]
pub enum DiagnosticSeverity {
    Error,
}

/// A message anchored to a range of a document. `source`, when present,
/// holds the JSON pointer of the value that the message is about.
#[derive(Clone, Debug, PartialEq, Eq)]
pub struct Diagnostic {
    pub range: Range,
    pub severity: DiagnosticSeverity,
    pub message: String,
    pub source: Option<String>,
}

/// What a diagnostic holds, with its strings as character sequences.
pub struct DiagnosticView {
    pub range: Range,
    pub severity: DiagnosticSeverity,
    pub message: Seq<char>,
    pub source: Option<Seq<char>>,
}

impl View for Diagnostic {
    type V = DiagnosticView;

    open spec fn view(&self) -> DiagnosticView {
        DiagnosticView {
            range: self.range,
            severity: self.severity,
            message: self.message@,
            source: match self.source {
                Some(s) => Some(s@),
                None => None,
            },
        }
    }
}

/// The views of a sequence of diagnostics, in order.
pub open spec fn views_of(ds: Seq<Diagnostic>) -> Seq<DiagnosticView> {
    ds.map_values(|d: Diagnostic| d@)
}

/// The position at line 0, character 0.
pub open spec fn origin() -> Position {
    Position { line: 0, character: 0 }
}

/// The empty range at the start of a line.
pub open spec fn line_start_range(line: u32) -> Range {
    Range { start: Position { line, character: 0 }, end: Position { line, character: 0 } }
}

impl Default for Position {
    fn default() -> (r: Position)
        ensures
            r == origin(),
    {
        Position { line: 0, character: 0 }
    }
}

impl Default for Range {
    fn default() -> (r: Range)
        ensures
            r == line_start_range(0),
    {
        Range { start: Position::default(), end: Position::default() }
    }
}

} // verus!
