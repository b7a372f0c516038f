//! Positional info of nodes: points and positions in a document.

use vstd::prelude::*;
use crate::util::debug::{decimal, push_decimal};

verus! {

/// One place in a source file.
#[derive(Clone, Copy, Debug, PartialEq, Eq, Structural)]
pub struct Point {
    /// 1-indexed integer representing a line in a source file.
    pub line: usize,
    /// 1-indexed integer representing a column in a source file.
    pub column: usize,
    /// 0-indexed integer representing a byte offset in a source file.
    pub offset: usize,
}

/// Location of a node in a source file.
#[derive(Clone, Copy, Debug, PartialEq, Eq, Structural)]
pub struct Position {
    /// Represents the place of the first character of the parsed source region.
    pub start: Point,
    /// Represents the place of the first character after the parsed source
    /// region, whether it exists or not.
    pub end: Point,
}

impl Point {
    /// Create a new point.
    pub fn new(line: usize, column: usize, offset: usize) -> (p: Point)
        ensures
            p == (Point { line, column, offset }),
    {
        Point { line, column, offset }
    }

    /// The text of a point: `line:column (offset)`.
    pub open spec fn spec_text(self) -> Seq<char> {
        decimal(self.line as nat) + ":"@ + decimal(self.column as nat) + " ("@ + decimal(
            self.offset as nat,
        ) + ")"@
    }

    /// Appends `line:column (offset)`.
    pub fn push_debug(&self, s: &mut String)
        ensures
            final(s)@ == old(s)@ + self.spec_text(),
    {
        push_decimal(s, self.line);
        s.append(":");
        push_decimal(s, self.column);
        s.append(" (");
        push_decimal(s, self.offset);
        s.append(")");
    }
}

impl Position {
    /// Create a new position.
    pub fn new(
        start_line: usize,
        start_column: usize,
        start_offset: usize,
        end_line: usize,
        end_column: usize,
        end_offset: usize,
    ) -> (p: Position)
        ensures
            p.start == (Point { line: start_line, column: start_column, offset: start_offset }),
            p.end == (Point { line: end_line, column: end_column, offset: end_offset }),
    {
        Position {
            start: Point::new(start_line, start_column, start_offset),
            end: Point::new(end_line, end_column, end_offset),
        }
    }

    /// The text of a position: `line:column-line:column (offset-offset)`.
    pub open spec fn spec_text(self) -> Seq<char> {
        decimal(self.start.line as nat) + ":"@ + decimal(self.start.column as nat) + "-"@
            + decimal(self.end.line as nat) + ":"@ + decimal(self.end.column as nat) + " ("@
            + decimal(self.start.offset as nat) + "-"@ + decimal(self.end.offset as nat) + ")"@
    }

    /// Appends `line:column-line:column (offset-offset)`.
    pub fn push_debug(&self, s: &mut String)
        ensures
            final(s)@ == old(s)@ + self.spec_text(),
    {
        push_decimal(s, self.start.line);
        s.append(":");
        push_decimal(s, self.start.column);
        s.append("-");
        push_decimal(s, self.end.line);
        s.append(":");
        push_decimal(s, self.end.column);
        s.append(" (");
        push_decimal(s, self.start.offset);
        s.append("-");
        push_decimal(s, self.end.offset);
        s.append(")");
    }
}

} // verus!
