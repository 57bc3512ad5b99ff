//! Places in the analysed source text.

use vstd::prelude::*;

verus! {

/// A point in the source text.
#[derive(Clone, Copy, Debug, PartialEq, Eq, Structural)]
pub struct Position {
    pub line: usize,
    pub column: usize,
}

/// A stretch of source text, from `start` up to `end`.
#[derive(Clone, Copy, Debug, PartialEq, Eq, Structural)]
pub struct SourceSpan {
    pub start: Position,
    pub end: Position,
}

impl SourceSpan {
    /// The empty span at the point where `self` begins.
    pub open spec fn head(self) -> SourceSpan {
        SourceSpan { start: self.start, end: self.start }
    }

    /// The empty span at the point where `self` ends.
    pub open spec fn tail(self) -> SourceSpan {
        SourceSpan { start: self.end, end: self.end }
    }

    /// A span on one line, from column `from` up to column `to`.
    pub fn on_line(line: usize, from: usize, to: usize) -> (span: SourceSpan)
        ensures
            span == (SourceSpan {
                start: Position { line: line, column: from },
                end: Position { line: line, column: to },
            }),
    {
        SourceSpan {
            start: Position { line: line, column: from },
            end: Position { line: line, column: to },
        }
    }

    /// The empty span at the start of this one.
    pub fn start_point(&self) -> (point: SourceSpan)
        ensures
            point == self.head(),
    {
        SourceSpan { start: self.start, end: self.start }
    }

    /// The empty span at the end of this one.
    pub fn end_point(&self) -> (point: SourceSpan)
        ensures
            point == self.tail(),
    {
        SourceSpan { start: self.end, end: self.end }
    }
}

} // verus!
