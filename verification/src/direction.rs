//! Compass hints: where the hidden target lies, seen from the last guess.

use vstd::prelude::*;
use crate::text::same_word;

verus! {

/// The answer to a guess. Rows grow downwards and columns grow to the right,
/// so `Up` means "same column, smaller row".
#[derive(Debug, Clone, Copy, PartialEq, Eq, Structural)]
pub enum Direction {
    Up,
    Down,
    Left,
    Right,
    UpLeft,
    UpRight,
    DownLeft,
    DownRight,
    /// Feedback that carries no direction; it constrains nothing.
    Unknown,
}

impl Direction {
    /// The direction that a hint word stands for. Every word other than the
    /// eight compass words is `Unknown`.
    pub open spec fn of_hint(hint: Seq<char>) -> Direction {
        if hint == "U"@ {
            Direction::Up
        } else if hint == "UR"@ {
            Direction::UpRight
        } else if hint == "UL"@ {
            Direction::UpLeft
        } else if hint == "D"@ {
            Direction::Down
        } else if hint == "DL"@ {
            Direction::DownLeft
        } else if hint == "DR"@ {
            Direction::DownRight
        } else if hint == "L"@ {
            Direction::Left
        } else if hint == "R"@ {
            Direction::Right
        } else {
            Direction::Unknown
        }
    }

    /// Whether the hint names one of the eight compass directions.
    pub open spec fn is_compass(self) -> bool {
        self != Direction::Unknown
    }

    /// Whether a target in column `col`, row `row` agrees with this hint when
    /// the guess was column `x`, row `y`.
    pub open spec fn admits(self, x: int, y: int, col: int, row: int) -> bool {
        match self {
            Direction::Up => col == x && row < y,
            Direction::Down => col == x && row > y,
            Direction::Left => col < x && row == y,
            Direction::Right => col > x && row == y,
            Direction::UpLeft => col < x && row < y,
            Direction::UpRight => col > x && row < y,
            Direction::DownLeft => col < x && row > y,
            Direction::DownRight => col > x && row > y,
            Direction::Unknown => true,
        }
    }

    /// Reads a hint word.
    pub fn from_hint(hint: &str) -> (direction: Direction)
        ensures
            direction == Self::of_hint(hint@),
    {
        let word = hint.to_owned();
        if same_word(&word, "U") {
            Direction::Up
        } else if same_word(&word, "UR") {
            Direction::UpRight
        } else if same_word(&word, "UL") {
            Direction::UpLeft
        } else if same_word(&word, "D") {
            Direction::Down
        } else if same_word(&word, "DL") {
            Direction::DownLeft
        } else if same_word(&word, "DR") {
            Direction::DownRight
        } else if same_word(&word, "L") {
            Direction::Left
        } else if same_word(&word, "R") {
            Direction::Right
        } else {
            Direction::Unknown
        }
    }
}

} // verus!
