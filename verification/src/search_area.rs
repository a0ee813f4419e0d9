//! The rectangle of grid cells in which the hidden target may still lie.

use vstd::prelude::*;
use crate::direction::Direction;

verus! {

/// A rectangle of grid cells over the mathematical integers; all four bounds
/// are inclusive. This is what a [`SearchArea`] stands for in contracts.
pub struct Region {
    pub left: int,
    pub right: int,
    pub top: int,
    pub bottom: int,
}

impl Region {
    /// The grid of `width` columns and `height` rows.
    pub open spec fn grid(width: int, height: int) -> Region {
        Region { left: 0, right: width - 1, top: 0, bottom: height - 1 }
    }

    /// No cell lies in the rectangle.
    pub open spec fn is_empty(self) -> bool {
        self.left > self.right || self.top > self.bottom
    }

    /// The rectangle holds at least one cell.
    pub open spec fn valid(self) -> bool {
        self.left <= self.right && self.top <= self.bottom
    }

    /// Whether the cell in column `col` and row `row` lies in the rectangle.
    pub open spec fn contains(self, col: int, row: int) -> bool {
        &&& self.left <= col <= self.right
        &&& self.top <= row <= self.bottom
    }

    /// Whether no bound of `self` lies outside `outer`.
    pub open spec fn within(self, outer: Region) -> bool {
        &&& outer.left <= self.left
        &&& self.right <= outer.right
        &&& outer.top <= self.top
        &&& self.bottom <= outer.bottom
    }

    /// Number of columns.
    pub open spec fn width(self) -> int {
        self.right - self.left + 1
    }

    /// Number of rows.
    pub open spec fn height(self) -> int {
        self.bottom - self.top + 1
    }

    /// Number of cells of a rectangle that is not empty.
    pub open spec fn cells(self) -> int {
        self.width() * self.height()
    }

    /// The rectangle is one cell.
    pub open spec fn is_single_cell(self) -> bool {
        self.left == self.right && self.top == self.bottom
    }

    /// The middle cell, as (column, row); halves round down.
    pub open spec fn centre(self) -> (int, int) {
        ((self.left + self.right) / 2, (self.top + self.bottom) / 2)
    }

    /// The rectangle that is left once `direction` was the answer to a guess
    /// at column `x`, row `y`. A straight hint pins the other axis to the
    /// guess; a diagonal hint cuts both axes; `Unknown` cuts nothing.
    pub open spec fn narrow(self, direction: Direction, x: int, y: int) -> Region {
        match direction {
            Direction::Up => Region { left: x, right: x, top: self.top, bottom: y - 1 },
            Direction::Down => Region { left: x, right: x, top: y + 1, bottom: self.bottom },
            Direction::Left => Region { left: self.left, right: x - 1, top: y, bottom: y },
            Direction::Right => Region { left: x + 1, right: self.right, top: y, bottom: y },
            Direction::UpLeft => Region {
                left: self.left,
                right: x - 1,
                top: self.top,
                bottom: y - 1,
            },
            Direction::UpRight => Region {
                left: x + 1,
                right: self.right,
                top: self.top,
                bottom: y - 1,
            },
            Direction::DownLeft => Region {
                left: self.left,
                right: x - 1,
                top: y + 1,
                bottom: self.bottom,
            },
            Direction::DownRight => Region {
                left: x + 1,
                right: self.right,
                top: y + 1,
                bottom: self.bottom,
            },
            Direction::Unknown => self,
        }
    }
}

/// Half the sum of `a` and `b`, rounded down. The sum itself need not fit.
pub fn middle(a: i32, b: i32) -> (mid: i32)
    ensures
        mid == (a + b) / 2,
{
    let (low, high) = if a <= b {
        (a, b)
    } else {
        (b, a)
    };
    (low as i64 + (high as i64 - low as i64) / 2) as i32
}

/// An axis-aligned rectangle of grid cells; all four bounds are inclusive.
#[derive(Debug, Clone, Copy, Default, PartialEq, Eq, Structural)]
pub struct SearchArea {
    pub left_col: i32,
    pub right_col: i32,
    pub top_row: i32,
    pub bottom_row: i32,
}

impl View for SearchArea {
    type V = Region;

    open spec fn view(&self) -> Region {
        Region {
            left: self.left_col as int,
            right: self.right_col as int,
            top: self.top_row as int,
            bottom: self.bottom_row as int,
        }
    }
}

impl SearchArea {
    /// The whole grid of `width` columns and `height` rows.
    pub fn new(width: i32, height: i32) -> (area: Self)
        requires
            width >= 1,
            height >= 1,
        ensures
            area@ == Region::grid(width as int, height as int),
            area@.valid(),
    {
        Self { left_col: 0, right_col: width - 1, top_row: 0, bottom_row: height - 1 }
    }

    /// The middle cell, as (column, row); halves round down, below zero too.
    pub fn centre_cell(&self) -> (cell: (i32, i32))
        ensures
            cell.0 == self@.centre().0,
            cell.1 == self@.centre().1,
    {
        (middle(self.left_col, self.right_col), middle(self.top_row, self.bottom_row))
    }

    /// Replaces the row interval and leaves the columns as they are.
    pub fn set_rows(&mut self, top: i32, bottom: i32)
        ensures
            final(self)@ == (Region { top: top as int, bottom: bottom as int, ..old(self)@ }),
    {
        self.top_row = top;
        self.bottom_row = bottom;
    }

    /// Replaces the column interval and leaves the rows as they are.
    pub fn set_columns(&mut self, left: i32, right: i32)
        ensures
            final(self)@ == (Region { left: left as int, right: right as int, ..old(self)@ }),
    {
        self.left_col = left;
        self.right_col = right;
    }
}

} // verus!
