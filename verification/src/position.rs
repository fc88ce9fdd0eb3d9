//! A compact line/column cursor attached to every emitted token.

use vstd::prelude::*;

verus! {

/// A location (line number + character position) in the input script.
///
/// Both coordinates have 16-bit resolution: advancing beyond 65,535
/// characters on a line, or 65,535 lines, saturates silently. A line
/// number of zero is the distinguished "no position" state; a character
/// position of zero means "beginning of line".
#[derive(Debug, Eq, PartialEq, Structural, Clone, Copy)]
pub struct Position {
    /// Line number - 0 = none.
    pub line: u16,
    /// Character position - 0 = beginning of line.
    pub pos: u16,
}

/// The position one character further on the same line, saturating at
/// the 16-bit maximum.
pub open spec fn spec_advance(p: Position) -> Position {
    if p.pos < u16::MAX {
        Position { line: p.line, pos: (p.pos + 1) as u16 }
    } else {
        p
    }
}

/// The position at the beginning of the next line: the line number
/// saturates at the 16-bit maximum, and the column resets to the
/// beginning of the line either way.
pub open spec fn spec_new_line(p: Position) -> Position {
    if p.line < u16::MAX {
        Position { line: (p.line + 1) as u16, pos: 0 }
    } else {
        Position { line: p.line, pos: 0 }
    }
}

/// The position one character back on the same line.
pub open spec fn spec_rewind(p: Position) -> Position {
    Position { line: p.line, pos: (p.pos - 1) as u16 }
}

impl Position {
    /// Is there no position? (Line zero is the "none" marker.)
    pub open spec fn spec_is_none(&self) -> bool {
        self.line == 0 && self.pos == 0
    }

    /// Create a new `Position`. A line number of zero is reserved for
    /// `Position::none` and is rejected here.
    pub fn new(line: u16, position: u16) -> (r: Self)
        requires
            line != 0,
        ensures
            r == (Position { line, pos: position }),
    {
        Self { line, pos: position }
    }

    /// Get the line number (1-based), or `None` if no position.
    pub fn line(&self) -> (r: Option<usize>)
        ensures
            r == if self.spec_is_none() {
                Option::<usize>::None
            } else {
                Option::<usize>::Some(self.line as usize)
            },
    {
        if self.is_none() {
            None
        } else {
            Some(self.line as usize)
        }
    }

    /// Get the character position (1-based), or `None` if at the
    /// beginning of a line.
    pub fn position(&self) -> (r: Option<usize>)
        ensures
            r == if self.spec_is_none() || self.pos == 0 {
                Option::<usize>::None
            } else {
                Option::<usize>::Some(self.pos as usize)
            },
    {
        if self.is_none() || self.pos == 0 {
            None
        } else {
            Some(self.pos as usize)
        }
    }

    /// Advance by one character position, saturating at the maximum.
    pub(crate) fn advance(&mut self)
        requires
            !old(self).spec_is_none(),
        ensures
            *final(self) == spec_advance(*old(self)),
    {
        if self.pos < u16::MAX {
            self.pos += 1;
        }
    }

    /// Go backwards by one character position. Rewinding at the
    /// beginning of a line is a programming error, so a positive column
    /// is required.
    pub(crate) fn rewind(&mut self)
        requires
            !old(self).spec_is_none(),
            old(self).pos > 0,
        ensures
            *final(self) == spec_rewind(*old(self)),
    {
        self.pos -= 1;
    }

    /// Advance to the beginning of the next line, saturating at the
    /// maximum line number; the column resets either way.
    pub(crate) fn new_line(&mut self)
        requires
            !old(self).spec_is_none(),
        ensures
            *final(self) == spec_new_line(*old(self)),
    {
        if self.line < u16::MAX {
            self.line += 1;
        }
        self.pos = 0;
    }

    /// Create a `Position` representing no position.
    pub(crate) fn none() -> (r: Self)
        ensures
            r.spec_is_none(),
    {
        Self { line: 0, pos: 0 }
    }

    /// Is there no position?
    pub fn is_none(&self) -> (r: bool)
        ensures
            r == self.spec_is_none(),
    {
        self.line == 0 && self.pos == 0
    }
}

impl Default for Position {
    /// The starting position: line 1, beginning of line.
    fn default() -> (r: Self)
        ensures
            r == (Position { line: 1, pos: 0 }),
    {
        Self { line: 1, pos: 0 }
    }
}

} // verus!
