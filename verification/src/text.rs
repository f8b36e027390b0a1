//! Text coordinates and edit operations of the editor's text engine.

use vstd::prelude::*;
use crate::strutil::{spec_contains, spec_contains_char, str_contains, str_contains_char};

verus! {

/// Position in a text buffer, in zero-based line/column coordinates.
#[derive(Debug, Clone, Copy, PartialEq, Eq, Structural)]
pub struct Position {
    pub line: usize,
    pub column: usize,
}

impl Position {
    /// A position at the given coordinates.
    pub fn new(line: usize, column: usize) -> (r: Self)
        ensures
            r.line == line,
            r.column == column,
    {
        Position { line, column }
    }

    /// The origin of a buffer.
    pub fn zero() -> (r: Self)
        ensures
            r.line == 0,
            r.column == 0,
    {
        Position { line: 0, column: 0 }
    }
}

/// Range in a text buffer: start inclusive, end exclusive.
#[derive(Debug, Clone, Copy, PartialEq, Eq, Structural)]
pub struct Range {
    pub start: Position,
    pub end: Position,
}

/// Strict document order on positions.
pub open spec fn pos_before(a: Position, b: Position) -> bool {
    a.line < b.line || (a.line == b.line && a.column < b.column)
}

impl Range {
    /// A range between the two positions.
    pub fn new(start: Position, end: Position) -> (r: Self)
        ensures
            r.start == start,
            r.end == end,
    {
        Range { start, end }
    }

    /// Whether the range spans no text.
    pub fn is_empty(&self) -> (r: bool)
        ensures
            r == (self.start == self.end),
    {
        self.start == self.end
    }

    /// Whether the position lies inside the range: at or after the start,
    /// strictly before the end.
    pub fn contains(&self, pos: Position) -> (r: bool)
        ensures
            r == ((pos_before(self.start, pos) || self.start == pos) && pos_before(pos, self.end)),
    {
        (self.start.line < pos.line || (self.start.line == pos.line && self.start.column
            <= pos.column)) && (self.end.line > pos.line || (self.end.line == pos.line
            && self.end.column > pos.column))
    }
}

/// A replacement of one range by new text.
#[derive(Debug, Clone, PartialEq)]
pub struct TextEdit {
    pub range: Range,
    pub new_text: String,
}

impl TextEdit {
    /// An edit replacing `range` with `new_text`.
    pub fn new(range: Range, new_text: String) -> (r: Self)
        ensures
            r.range == range,
            r.new_text == new_text,
    {
        TextEdit { range, new_text }
    }

    /// An insertion: an empty range at the position.
    pub fn insert(position: Position, text: String) -> (r: Self)
        ensures
            r.range.start == position,
            r.range.end == position,
            r.new_text == text,
    {
        TextEdit { range: Range::new(position, position), new_text: text }
    }

    /// A deletion: the range replaced by nothing.
    pub fn delete(range: Range) -> (r: Self)
        ensures
            r.range == range,
            r.new_text@ == Seq::<char>::empty(),
    {
        TextEdit { range, new_text: String::new() }
    }

    /// A replacement of the range by the text.
    pub fn replace(range: Range, new_text: String) -> (r: Self)
        ensures
            r.range == range,
            r.new_text == new_text,
    {
        TextEdit { range, new_text }
    }
}

/// Line ending styles a buffer can use.
#[derive(Debug, Clone, Copy, PartialEq, Eq, Structural)]
pub enum LineEnding {
    LF,
    CRLF,
    CR,
}

impl Default for LineEnding {
    /// The platform default this engine assumes: Unix line endings.
    fn default() -> (r: Self)
        ensures
            r == LineEnding::LF,
    {
        LineEnding::LF
    }
}

/// The style `detect` assigns to a text: a CR-LF pair anywhere makes it
/// CRLF; otherwise any line feed makes it LF; otherwise any carriage
/// return makes it CR; text without line breaks defaults to LF.
pub open spec fn spec_detect(s: Seq<char>) -> LineEnding {
    if spec_contains(s, seq!['\r', '\n']) {
        LineEnding::CRLF
    } else if spec_contains_char(s, '\n') {
        LineEnding::LF
    } else if spec_contains_char(s, '\r') {
        LineEnding::CR
    } else {
        LineEnding::LF
    }
}

impl LineEnding {
    /// The characters this style puts at the end of a line.
    pub fn as_str(&self) -> (r: &'static str)
        ensures
            self == LineEnding::LF ==> r@ == "\n"@,
            self == LineEnding::CRLF ==> r@ == "\r\n"@,
            self == LineEnding::CR ==> r@ == "\r"@,
    {
        match self {
            LineEnding::LF => "\n",
            LineEnding::CRLF => "\r\n",
            LineEnding::CR => "\r",
        }
    }

    /// Detects the line ending style of a text, as `spec_detect` says.
    pub fn detect(text: &str) -> (r: Self)
        ensures
            r == spec_detect(text@),
    {
        proof {
            reveal_strlit("\r\n");
            assert("\r\n"@ =~= seq!['\r', '\n']);
        }
        if str_contains(text, "\r\n") {
            LineEnding::CRLF
        } else if str_contains_char(text, '\n') {
            LineEnding::LF
        } else if str_contains_char(text, '\r') {
            LineEnding::CR
        } else {
            LineEnding::LF
        }
    }
}

} // verus!
