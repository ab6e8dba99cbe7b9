//! Source positions and diagnostics.
use vstd::prelude::*;

verus! {

/// A line and column in a source file, both counted from zero.
#[derive(Clone, Copy, PartialEq, Eq, Structural, Hash, Debug)]
pub struct Position {
    pub line: u32,
    pub character: u32,
}

/// A range of text in one source file.
#[derive(Clone, Copy, PartialEq, Eq, Structural, Hash, Debug)]
pub struct SrcPos {
    /// Identifies the source file.
    pub source: usize,
    pub start: Position,
    pub end: Position,
}

/// How serious a diagnostic is.
#[derive(Clone, Copy, PartialEq, Eq, Structural, Hash, Debug)]
pub enum Severity {
    Hint,
    Info,
    Warning,
    Error,
}

/// A message about a place in the source.
#[derive(Debug)]
pub struct Diagnostic {
    pub pos: SrcPos,
    pub message: String,
    pub severity: Severity,
}

impl Diagnostic {
    /// An error at `pos` with the given message.
    pub fn error(pos: &SrcPos, message: String) -> (r: Diagnostic)
        ensures
            r.pos == *pos,
            r.message == message,
            r.severity == Severity::Error,
    {
        Diagnostic { pos: *pos, message, severity: Severity::Error }
    }
}

} // verus!
