//! Value types that locate and measure terminal cells: a location is any
//! (line, column) pair, while a size must have strictly positive extents.

use vstd::prelude::*;

use crate::error::Error;
use crate::error::to_i32;

verus! {

/// Signifies the location of a cell in a terminal.
#[derive(Clone, Copy, Debug, PartialEq, Eq, Structural)]
pub struct Location {
    /// The index of the line.
    line: u32,
    /// The index of the column.
    column: u32,
}

impl Location {
    /// The index of the line that contains this location.
    pub closed spec fn spec_line(self) -> u32 {
        self.line
    }

    /// The index of the column that contains this location.
    pub closed spec fn spec_column(self) -> u32 {
        self.column
    }

    /// Creates a new location.
    pub fn new(line: u32, column: u32) -> (r: Self)
        ensures
            r.spec_line() == line,
            r.spec_column() == column,
    {
        Self { line, column }
    }

    /// Returns the line index narrowed to the integer width that curses
    /// takes, clamped when it does not fit.
    pub(crate) fn line(self) -> (r: i32)
        ensures
            self.spec_line() <= i32::MAX ==> r == self.spec_line() as i32,
            self.spec_line() > i32::MAX ==> r == i32::MAX,
    {
        to_i32(self.line)
    }

    /// Returns the column index narrowed to the integer width that curses
    /// takes, clamped when it does not fit.
    pub(crate) fn column(self) -> (r: i32)
        ensures
            self.spec_column() <= i32::MAX ==> r == self.spec_column() as i32,
            self.spec_column() > i32::MAX ==> r == i32::MAX,
    {
        to_i32(self.column)
    }
}

/// Signifies the size of a terminal region: a number of lines and a number of
/// columns, both strictly positive.
#[derive(Clone, Copy, Debug, PartialEq, Eq, Structural)]
pub struct Size {
    /// The number of lines.
    lines: u32,
    /// The number of columns.
    columns: u32,
}

impl Size {
    /// Both extents of a size are strictly positive.
    #[verifier::type_invariant]
    spec fn positive(self) -> bool {
        self.lines >= 1 && self.columns >= 1
    }

    /// The number of lines.
    pub closed spec fn spec_lines(self) -> u32 {
        self.lines
    }

    /// The number of columns.
    pub closed spec fn spec_columns(self) -> u32 {
        self.columns
    }

    /// Creates a new size, rejecting a zero extent with the invalid-zero
    /// error rather than silently clamping it.
    pub fn new(lines: u32, columns: u32) -> (r: Result<Self, Error>)
        ensures
            lines >= 1 && columns >= 1 ==> (r matches Ok(s) && s.spec_lines() == lines
                && s.spec_columns() == columns),
            lines == 0 || columns == 0 ==> r == Err::<Size, Error>(Error::InvalidZero),
    {
        if lines == 0 || columns == 0 {
            Err(Error::InvalidZero)
        } else {
            Ok(Self { lines, columns })
        }
    }

    /// Returns the number of lines narrowed to the integer width that curses
    /// takes, clamped when it does not fit.
    pub(crate) fn lines(self) -> (r: i32)
        ensures
            r >= 1,
            self.spec_lines() <= i32::MAX ==> r == self.spec_lines() as i32,
            self.spec_lines() > i32::MAX ==> r == i32::MAX,
    {
        proof {
            use_type_invariant(self);
        }
        to_i32(self.lines)
    }

    /// Returns the number of columns narrowed to the integer width that
    /// curses takes, clamped when it does not fit.
    pub(crate) fn columns(self) -> (r: i32)
        ensures
            r >= 1,
            self.spec_columns() <= i32::MAX ==> r == self.spec_columns() as i32,
            self.spec_columns() > i32::MAX ==> r == i32::MAX,
    {
        proof {
            use_type_invariant(self);
        }
        to_i32(self.columns)
    }
}

} // verus!
