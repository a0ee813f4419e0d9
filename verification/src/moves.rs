//! The four moves of a hurdle race and what each does on a track.

use vstd::prelude::*;
use crate::text::same_word;

verus! {

/// A move of the runner. One move is played per turn and applies to every
/// race at once.
#[derive(Debug, Clone, Copy, PartialEq, Eq, Structural)]
pub enum Move {
    /// One cell forward.
    Left,
    /// A jump of two cells; the only move that clears a hurdle.
    Up,
    /// Two cells forward, on the ground.
    Down,
    /// Three cells forward.
    Right,
}

impl Move {
    /// How many cells the move advances a runner who does not stumble.
    pub open spec fn advance(self) -> int {
        match self {
            Move::Left => 1,
            Move::Up => 2,
            Move::Down => 2,
            Move::Right => 3,
        }
    }

    /// The word by which the move is played.
    pub open spec fn keyword(self) -> Seq<char> {
        match self {
            Move::Left => "LEFT"@,
            Move::Up => "UP"@,
            Move::Down => "DOWN"@,
            Move::Right => "RIGHT"@,
        }
    }

    /// The move that `word` plays, if it plays one.
    pub open spec fn of_keyword(word: Seq<char>) -> Option<Move> {
        if word == "LEFT"@ {
            Some(Move::Left)
        } else if word == "UP"@ {
            Some(Move::Up)
        } else if word == "DOWN"@ {
            Some(Move::Down)
        } else if word == "RIGHT"@ {
            Some(Move::Right)
        } else {
            None
        }
    }

    /// The move a runner prefers when the nearest hurdle is `distance` cells
    /// ahead: jump when it is next, else run up to the cell before it, three
    /// cells at most.
    pub open spec fn preferred_at(distance: int) -> Move {
        if distance == 1 {
            Move::Up
        } else if distance == 2 {
            Move::Left
        } else if distance == 3 {
            Move::Down
        } else {
            Move::Right
        }
    }

    /// Whether the move makes a runner stumble whose nearest hurdle is
    /// `distance` cells ahead: it runs onto or past the hurdle and is no jump.
    pub open spec fn stumbles_at(self, distance: int) -> bool {
        self != Move::Up && self.advance() >= distance
    }

    /// The order in which moves are chosen. A move with `own_stumbles` ranks
    /// above `rival` with `rival_stumbles` when it makes fewer runners
    /// stumble; when they tie, when it advances farther; and when they tie
    /// again, when it is the one of the two that is to be preferred,
    /// `shield`.
    pub open spec fn ranks_above(
        self,
        own_stumbles: int,
        rival: Move,
        rival_stumbles: int,
        shield: Move,
    ) -> bool {
        ||| own_stumbles < rival_stumbles
        ||| own_stumbles == rival_stumbles && self.advance() > rival.advance()
        ||| own_stumbles == rival_stumbles && self.advance() == rival.advance() && self != rival
            && self == shield
    }

    /// The number of cells the move advances.
    pub fn steps(self) -> (cells: u8)
        ensures
            cells == self.advance(),
    {
        match self {
            Move::Left => 1,
            Move::Up => 2,
            Move::Down => 2,
            Move::Right => 3,
        }
    }

    /// The word that plays the move.
    pub fn name(self) -> (word: String)
        ensures
            word@ == self.keyword(),
    {
        match self {
            Move::Left => "LEFT".to_owned(),
            Move::Up => "UP".to_owned(),
            Move::Down => "DOWN".to_owned(),
            Move::Right => "RIGHT".to_owned(),
        }
    }

    /// Reads a move from the word that plays it.
    pub fn parse(word: &String) -> (parsed: Option<Move>)
        ensures
            parsed == Self::of_keyword(word@),
    {
        if same_word(word, "LEFT") {
            Some(Move::Left)
        } else if same_word(word, "UP") {
            Some(Move::Up)
        } else if same_word(word, "DOWN") {
            Some(Move::Down)
        } else if same_word(word, "RIGHT") {
            Some(Move::Right)
        } else {
            None
        }
    }

    /// The move to prefer when the nearest hurdle is `dist` cells ahead.
    pub fn choose_for(dist: usize) -> (chosen: Move)
        ensures
            chosen == Self::preferred_at(dist as int),
    {
        match dist {
            1 => Move::Up,
            2 => Move::Left,
            3 => Move::Down,
            _ => Move::Right,
        }
    }

    /// Whether the move makes a runner stumble whose nearest hurdle is `dist`
    /// cells ahead.
    pub fn trips_at(self, dist: usize) -> (stumbles: bool)
        ensures
            stumbles == self.stumbles_at(dist as int),
    {
        match self {
            Move::Up => false,
            _ => self.steps() as usize >= dist,
        }
    }

    /// Whether this move is to be chosen before `rival`.
    pub fn outranks(self, own_stumbles: usize, rival: Move, rival_stumbles: usize, shield: Move) -> (above:
        bool)
        ensures
            above == self.ranks_above(own_stumbles as int, rival, rival_stumbles as int, shield),
    {
        if own_stumbles != rival_stumbles {
            own_stumbles < rival_stumbles
        } else if self.steps() != rival.steps() {
            self.steps() > rival.steps()
        } else {
            self != rival && self == shield
        }
    }
}

/// The four keywords are four different words, so a keyword names one move:
/// reading the word of a move gives that move back.
pub proof fn lemma_keyword_names_one_move(m: Move)
    ensures
        Move::of_keyword(m.keyword()) == Some(m),
{
    reveal_strlit("LEFT");
    reveal_strlit("UP");
    reveal_strlit("DOWN");
    reveal_strlit("RIGHT");
    assert("LEFT"@.len() == 4 && "UP"@.len() == 2 && "DOWN"@.len() == 4 && "RIGHT"@.len() == 5);
    assert("LEFT"@[0] == 'L' && "DOWN"@[0] == 'D');
}

/// The preferred move never makes its own runner stumble, and no ground move
/// that advances farther is safe for that runner.
pub proof fn lemma_preferred_is_farthest_safe(distance: int, other: Move)
    requires
        distance >= 1,
    ensures
        !Move::preferred_at(distance).stumbles_at(distance),
        other != Move::Up && other.advance() > Move::preferred_at(distance).advance()
            ==> other.stumbles_at(distance),
{
}

} // verus!
