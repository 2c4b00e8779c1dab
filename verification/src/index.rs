//! Positions in the terminal grid.
use vstd::prelude::*;

verus! {

/// A screen line, counted from the top of the visible area.
#[derive(Clone, Copy, PartialEq, Eq, Structural, Debug)]
pub struct Line(pub usize);

/// A column, counted from the left edge of the grid.
#[derive(Clone, Copy, PartialEq, Eq, Structural, Debug)]
pub struct Column(pub usize);

/// A horizontal direction.
#[derive(Clone, Copy, PartialEq, Eq, Structural, Debug)]
pub enum Direction {
    Left,
    Right,
}

/// The half of a cell that a position lies in.
pub type Side = Direction;

impl Direction {
    pub open spec fn spec_opposite(self) -> Direction {
        match self {
            Direction::Left => Direction::Right,
            Direction::Right => Direction::Left,
        }
    }

    /// The other direction.
    pub fn opposite(self) -> (r: Direction)
        ensures
            r == self.spec_opposite(),
    {
        match self {
            Direction::Left => Direction::Right,
            Direction::Right => Direction::Left,
        }
    }
}

/// A cell of the visible area.
#[derive(Clone, Copy, PartialEq, Eq, Structural, Debug)]
pub struct Point {
    pub line: Line,
    pub col: Column,
}

/// A cell of the whole buffer, scrollback included; `line` counts from the bottom up.
#[derive(Clone, Copy, PartialEq, Eq, Structural, Debug)]
pub struct BufferPoint {
    pub line: usize,
    pub col: Column,
}

/// The cells of the buffer from `start` to `end`, both of them included.
#[derive(Clone, Copy, PartialEq, Eq, Structural, Debug)]
pub struct BufferRange {
    pub start: BufferPoint,
    pub end: BufferPoint,
}

impl Point {
    pub open spec fn spec_new(line: int, col: int) -> Point {
        Point { line: Line(line as usize), col: Column(col as usize) }
    }

    pub fn new(line: Line, col: Column) -> (r: Point)
        ensures
            r == (Point { line, col }),
    {
        Point { line, col }
    }

    /// The position of the cell in reading order, on a grid of `num_cols` columns.
    pub open spec fn offset(self, num_cols: int) -> int {
        self.line.0 * num_cols + self.col.0
    }

    /// Reading order: line by line from the top, and within a line from the left.
    pub open spec fn precedes_or_is(self, other: Point) -> bool {
        self.line.0 < other.line.0 || (self.line.0 == other.line.0 && self.col.0 <= other.col.0)
    }

    /// Whether this cell comes before `other` in reading order, or is that cell.
    pub fn at_or_before(&self, other: &Point) -> (r: bool)
        ensures
            r == self.precedes_or_is(*other),
    {
        self.line.0 < other.line.0 || (self.line.0 == other.line.0 && self.col.0 <= other.col.0)
    }

    pub open spec fn spec_earlier(self, other: Point) -> Point {
        if self.precedes_or_is(other) {
            self
        } else {
            other
        }
    }

    /// The one of two cells that comes first in reading order.
    pub fn earlier(self, other: Point) -> (r: Point)
        ensures
            r == self.spec_earlier(other),
    {
        if self.at_or_before(&other) {
            self
        } else {
            other
        }
    }

    /// The cell that lies `count` cells before this one in reading order.
    pub open spec fn is_before_by(self, start: Point, num_cols: int, count: int) -> bool {
        &&& self.col.0 < num_cols
        &&& self.offset(num_cols) == if start.offset(num_cols) >= count {
            start.offset(num_cols) - count
        } else {
            0
        }
    }

    /// Moves back by `count` cells, across line ends, and no further than the first cell.
    pub fn sub(self, num_cols: Column, count: usize) -> (r: Point)
        requires
            self.col.0 < num_cols.0,
        ensures
            r.is_before_by(self, num_cols.0 as int, count as int),
    {
        let width: usize = num_cols.0;
        if count <= self.col.0 {
            return Point { line: self.line, col: Column(self.col.0 - count) };
        }
        // Cells to go back, counted from the last cell of the line above.
        let rest: usize = count - self.col.0 - 1;
        let lines: usize = rest / width;
        let within: usize = rest % width;
        proof {
            vstd::arithmetic::div_mod::lemma_fundamental_div_mod(rest as int, width as int);
            assert(rest == width * lines + within);
        }
        if self.line.0 > lines {
            let r = Point {
                line: Line(self.line.0 - 1 - lines),
                col: Column(width - 1 - within),
            };
            assert(r.offset(width as int) == self.offset(width as int) - count) by (nonlinear_arith)
                requires
                    r.offset(width as int) == (self.line.0 - 1 - lines) * width + (width - 1
                        - within),
                    self.offset(width as int) == self.line.0 * width + self.col.0,
                    rest == width * lines + within,
                    rest == count - self.col.0 - 1,
            ;
            r
        } else {
            assert(self.offset(width as int) < count) by (nonlinear_arith)
                requires
                    self.offset(width as int) == self.line.0 * width + self.col.0,
                    rest == width * lines + within,
                    rest == count - self.col.0 - 1,
                    self.line.0 <= lines,
                    within >= 0,
            ;
            Point { line: Line(0), col: Column(0) }
        }
    }
}

impl Default for Point {
    fn default() -> (r: Point)
        ensures
            r == (Point { line: Line(0), col: Column(0) }),
    {
        Point { line: Line(0), col: Column(0) }
    }
}

} // verus!
