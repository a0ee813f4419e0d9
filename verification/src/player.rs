//! The locator: a guess, a search area and the number of guesses left.

use vstd::prelude::*;
use crate::convergence::lemma_compass_hint_shrinks;
use crate::direction::Direction;
use crate::search_area::{Region, SearchArea};

verus! {

/// The hint leaves no cell in which the target could lie.
#[derive(Debug, Clone, Copy, PartialEq, Eq, Structural)]
pub struct InvalidHintError {
    /// The direction that emptied the search area.
    pub direction: Direction,
}

/// What a [`Player`] stands for in contracts.
pub struct Locator {
    /// Column of the last guess.
    pub x: int,
    /// Row of the last guess.
    pub y: int,
    /// Guesses left; kept for the caller, never read by the locator.
    pub attempts: int,
    /// Where the target may still lie.
    pub region: Region,
}

impl Locator {
    /// A locator at its first guess `(x, y)`, with the whole grid to search.
    pub open spec fn start(width: int, height: int, x: int, y: int, attempts: int) -> Locator {
        Locator { x, y, attempts, region: Region::grid(width, height) }
    }

    /// The count of attempts after one more is spent. The count is kept in
    /// an `i32`: at the least value that one holds it stays.
    pub open spec fn spent(attempts: int) -> int {
        if attempts > i32::MIN {
            attempts - 1
        } else {
            attempts
        }
    }

    /// The search area is valid and holds the last guess.
    pub open spec fn wf(self) -> bool {
        self.region.valid() && self.region.contains(self.x, self.y)
    }

    /// The search area that `direction` leaves, seen from the last guess.
    pub open spec fn narrowed(self, direction: Direction) -> Region {
        self.region.narrow(direction, self.x, self.y)
    }

    /// Whether `direction` contradicts what is known: it names a compass
    /// direction and leaves no cell.
    pub open spec fn refutes(self, direction: Direction) -> bool {
        direction.is_compass() && self.narrowed(direction).is_empty()
    }

    /// One turn: the search area is narrowed by `direction`, the guess moves
    /// to the centre of what is left, and one attempt is spent. `None` when
    /// the hint contradicts what is known.
    pub open spec fn step(self, direction: Direction) -> Option<Locator> {
        if self.refutes(direction) {
            None
        } else {
            let region = self.narrowed(direction);
            Some(
                Locator {
                    x: region.centre().0,
                    y: region.centre().1,
                    attempts: Self::spent(self.attempts),
                    region,
                },
            )
        }
    }
}

/// The guesser: its last guess, the guesses it has left and its search area.
#[derive(Debug, Clone, Copy, Default, PartialEq, Eq, Structural)]
pub struct Player {
    pub pos_x: i32,
    pub pos_y: i32,
    pub jumps_left: i32,
    pub search_area: SearchArea,
}

impl View for Player {
    type V = Locator;

    open spec fn view(&self) -> Locator {
        Locator {
            x: self.pos_x as int,
            y: self.pos_y as int,
            attempts: self.jumps_left as int,
            region: self.search_area@,
        }
    }
}

impl Player {
    /// What a call that narrows the search area by `direction` does: on a
    /// hint that leaves a cell, `after` has the narrowed area and nothing else
    /// has changed; on one that leaves none, nothing at all has changed and
    /// the error names the direction.
    pub open spec fn narrows_to(
        self,
        direction: Direction,
        after: Player,
        outcome: Result<(), InvalidHintError>,
    ) -> bool {
        if self@.refutes(direction) {
            outcome == Err::<(), InvalidHintError>(InvalidHintError { direction }) && after == self
        } else {
            &&& outcome == Ok::<(), InvalidHintError>(())
            &&& after@ == (Locator { region: self@.narrowed(direction), ..self@ })
        }
    }

    /// A player at `(pos_x, pos_y)` with a grid of `width` columns and
    /// `height` rows, all of which is still to be searched. The player may
    /// start anywhere; one that starts in the grid is well formed.
    pub fn new(pos_x: i32, pos_y: i32, jumps_left: i32, width: i32, height: i32) -> (player: Self)
        requires
            width >= 1,
            height >= 1,
        ensures
            player@ == Locator::start(
                width as int,
                height as int,
                pos_x as int,
                pos_y as int,
                jumps_left as int,
            ),
            player@.region.valid(),
            (0 <= pos_x < width && 0 <= pos_y < height) ==> player@.wf(),
    {
        Self { pos_x, pos_y, jumps_left, search_area: SearchArea::new(width, height) }
    }

    /// Whether the player has a guess left. The count is kept for the caller:
    /// a player without one still takes hints.
    pub fn has_jumps_left(&self) -> (any: bool)
        ensures
            any == (self@.attempts > 0),
    {
        self.jumps_left > 0
    }

    /// The target is straight above the guess.
    pub fn up(&mut self) -> (outcome: Result<(), InvalidHintError>)
        ensures
            old(self).narrows_to(Direction::Up, *final(self), outcome),
    {
        if self.pos_y <= self.search_area.top_row {
            return Err(InvalidHintError { direction: Direction::Up });
        }
        let bottom = self.pos_y - 1;
        let top = self.search_area.top_row;
        let left = self.pos_x;
        let right = self.pos_x;

        self.search_area.set_rows(top, bottom);
        self.search_area.set_columns(left, right);
        Ok(())
    }

    /// The target is straight below the guess.
    pub fn down(&mut self) -> (outcome: Result<(), InvalidHintError>)
        ensures
            old(self).narrows_to(Direction::Down, *final(self), outcome),
    {
        if self.pos_y >= self.search_area.bottom_row {
            return Err(InvalidHintError { direction: Direction::Down });
        }
        let bottom = self.search_area.bottom_row;
        let top = self.pos_y + 1;
        let left = self.pos_x;
        let right = self.pos_x;

        self.search_area.set_rows(top, bottom);
        self.search_area.set_columns(left, right);
        Ok(())
    }

    /// The target is in the row of the guess, to its right.
    pub fn right(&mut self) -> (outcome: Result<(), InvalidHintError>)
        ensures
            old(self).narrows_to(Direction::Right, *final(self), outcome),
    {
        if self.pos_x >= self.search_area.right_col {
            return Err(InvalidHintError { direction: Direction::Right });
        }
        let bottom = self.pos_y;
        let top = self.pos_y;
        let right = self.search_area.right_col;
        let left = self.pos_x + 1;

        self.search_area.set_rows(top, bottom);
        self.search_area.set_columns(left, right);
        Ok(())
    }

    /// The target is in the row of the guess, to its left.
    pub fn left(&mut self) -> (outcome: Result<(), InvalidHintError>)
        ensures
            old(self).narrows_to(Direction::Left, *final(self), outcome),
    {
        if self.pos_x <= self.search_area.left_col {
            return Err(InvalidHintError { direction: Direction::Left });
        }
        let bottom = self.pos_y;
        let top = self.pos_y;
        let right = self.pos_x - 1;
        let left = self.search_area.left_col;

        self.search_area.set_rows(top, bottom);
        self.search_area.set_columns(left, right);
        Ok(())
    }

    /// The target is above the guess and to its right.
    pub fn up_right(&mut self) -> (outcome: Result<(), InvalidHintError>)
        ensures
            old(self).narrows_to(Direction::UpRight, *final(self), outcome),
    {
        if self.pos_y <= self.search_area.top_row || self.pos_x >= self.search_area.right_col {
            return Err(InvalidHintError { direction: Direction::UpRight });
        }
        let bottom = self.pos_y - 1;
        let top = self.search_area.top_row;
        let left = self.pos_x + 1;
        let right = self.search_area.right_col;

        self.search_area.set_rows(top, bottom);
        self.search_area.set_columns(left, right);
        Ok(())
    }

    /// The target is above the guess and to its left.
    pub fn up_left(&mut self) -> (outcome: Result<(), InvalidHintError>)
        ensures
            old(self).narrows_to(Direction::UpLeft, *final(self), outcome),
    {
        if self.pos_y <= self.search_area.top_row || self.pos_x <= self.search_area.left_col {
            return Err(InvalidHintError { direction: Direction::UpLeft });
        }
        let bottom = self.pos_y - 1;
        let top = self.search_area.top_row;
        let right = self.pos_x - 1;
        let left = self.search_area.left_col;

        self.search_area.set_rows(top, bottom);
        self.search_area.set_columns(left, right);
        Ok(())
    }

    /// The target is below the guess and to its right.
    pub fn down_right(&mut self) -> (outcome: Result<(), InvalidHintError>)
        ensures
            old(self).narrows_to(Direction::DownRight, *final(self), outcome),
    {
        if self.pos_y >= self.search_area.bottom_row || self.pos_x >= self.search_area.right_col {
            return Err(InvalidHintError { direction: Direction::DownRight });
        }
        let top = self.pos_y + 1;
        let bottom = self.search_area.bottom_row;
        let left = self.pos_x + 1;
        let right = self.search_area.right_col;

        self.search_area.set_rows(top, bottom);
        self.search_area.set_columns(left, right);
        Ok(())
    }

    /// The target is below the guess and to its left.
    pub fn down_left(&mut self) -> (outcome: Result<(), InvalidHintError>)
        ensures
            old(self).narrows_to(Direction::DownLeft, *final(self), outcome),
    {
        if self.pos_y >= self.search_area.bottom_row || self.pos_x <= self.search_area.left_col {
            return Err(InvalidHintError { direction: Direction::DownLeft });
        }
        let top = self.pos_y + 1;
        let bottom = self.search_area.bottom_row;
        let left = self.search_area.left_col;
        let right = self.pos_x - 1;

        self.search_area.set_rows(top, bottom);
        self.search_area.set_columns(left, right);
        Ok(())
    }

    /// Narrows the search area by `direction`; the guess stays where it is.
    /// `Unknown` changes nothing.
    pub fn narrow(&mut self, direction: Direction) -> (outcome: Result<(), InvalidHintError>)
        ensures
            old(self).narrows_to(direction, *final(self), outcome),
    {
        match direction {
            Direction::Up => self.up(),
            Direction::UpRight => self.up_right(),
            Direction::UpLeft => self.up_left(),
            Direction::Down => self.down(),
            Direction::DownLeft => self.down_left(),
            Direction::DownRight => self.down_right(),
            Direction::Left => self.left(),
            Direction::Right => self.right(),
            Direction::Unknown => Ok(()),
        }
    }

    /// Narrows the search area by the hint word `bomb_dir`; the guess stays
    /// where it is. A word that names no compass direction changes nothing.
    pub fn change_search_area(&mut self, bomb_dir: &str) -> (outcome: Result<(), InvalidHintError>)
        ensures
            old(self).narrows_to(Direction::of_hint(bomb_dir@), *final(self), outcome),
    {
        self.narrow(Direction::from_hint(bomb_dir))
    }

    /// Whether `outcome` and `after` are what one turn with the hint
    /// `direction` makes of this player: on a hint that leaves a cell, the
    /// player is as `Locator::step` says and the outcome is the new guess, as
    /// (column, row); on one that leaves none, the turn has spent an attempt
    /// and changed nothing else, and the error names the direction.
    pub open spec fn turns_to(
        self,
        direction: Direction,
        after: Player,
        outcome: Result<(i32, i32), InvalidHintError>,
    ) -> bool {
        match self@.step(direction) {
            Some(next) => {
                &&& after@ == next
                &&& outcome matches Ok(guess)
                &&& guess.0 == next.x
                &&& guess.1 == next.y
            },
            None => {
                &&& after@ == (Locator { attempts: Locator::spent(self@.attempts), ..self@ })
                &&& outcome == Err::<(i32, i32), InvalidHintError>(InvalidHintError { direction })
            },
        }
    }

    /// One turn: narrows the search area by `direction`, moves the guess to
    /// the centre of what is left and returns it as (column, row). A hint
    /// that leaves no cell is refused: the guess and the search area stay as
    /// they are. Either way the turn spends one attempt. The count of
    /// attempts decides nothing. A well-formed player stays so; a compass
    /// hint that it accepts leaves it strictly fewer cells, and it accepts
    /// none once a single cell is left.
    pub fn apply_hint(&mut self, direction: Direction) -> (outcome: Result<
        (i32, i32),
        InvalidHintError,
    >)
        ensures
            old(self).turns_to(direction, *final(self), outcome),
            old(self)@.wf() ==> final(self)@.wf(),
            outcome matches Ok(guess) ==> {
                &&& (guess.0 as int, guess.1 as int) == final(self)@.region.centre()
                &&& final(self).pos_x == guess.0
                &&& final(self).pos_y == guess.1
            },
            old(self)@.wf() && direction.is_compass() && outcome is Ok ==> {
                final(self)@.region.cells() < old(self)@.region.cells()
            },
            old(self)@.wf() && direction.is_compass() && old(self)@.region.is_single_cell() ==> {
                outcome is Err
            },
    {
        proof {
            if old(self)@.wf() && direction.is_compass() {
                lemma_compass_hint_shrinks(old(self)@, direction);
            }
        }
        self.jumps_left = match self.jumps_left.checked_sub(1) {
            Some(left) => left,
            None => self.jumps_left,
        };
        match self.narrow(direction) {
            Err(e) => Err(e),
            Ok(()) => {
                let (new_col, new_row) = self.search_area.centre_cell();
                self.pos_x = new_col;
                self.pos_y = new_row;
                Ok((new_col, new_row))
            },
        }
    }

    /// One turn with the hint word `bomb_dir`, as `apply_hint` does it for
    /// the direction that the word stands for.
    pub fn next_jump_position(&mut self, bomb_dir: &str) -> (outcome: Result<
        (i32, i32),
        InvalidHintError,
    >)
        ensures
            old(self).turns_to(Direction::of_hint(bomb_dir@), *final(self), outcome),
            old(self)@.wf() ==> final(self)@.wf(),
            outcome matches Ok(guess) ==> {
                &&& (guess.0 as int, guess.1 as int) == final(self)@.region.centre()
                &&& final(self).pos_x == guess.0
                &&& final(self).pos_y == guess.1
            },
            old(self)@.wf() && Direction::of_hint(bomb_dir@).is_compass() && outcome is Ok ==> {
                final(self)@.region.cells() < old(self)@.region.cells()
            },
            old(self)@.wf() && Direction::of_hint(bomb_dir@).is_compass() && old(self)@.region.is_single_cell() ==> {
                outcome is Err
            },
    {
        self.apply_hint(Direction::from_hint(bomb_dir))
    }
}

} // verus!
