//! A single race whose runner looks along the whole track.

use vstd::prelude::*;
use crate::moves::Move;
use crate::track::{cells_of, find_next_hurdle, first_hurdle_from, next_hurdle};

verus! {

/// The runner of a single race.
#[derive(Debug, Clone, Copy, PartialEq, Eq, Structural)]
pub struct PlayerDetails {
    pub my_pos: i32,
    pub my_stun: i32,
    pub my_id: i32,
}

impl PlayerDetails {
    /// Runner 0 at the start of the track, not stunned.
    pub fn default() -> (player: Self)
        ensures
            player == (PlayerDetails { my_pos: 0, my_stun: 0, my_id: 0 }),
    {
        PlayerDetails { my_pos: 0, my_stun: 0, my_id: 0 }
    }

    /// Runner `my_id` at cell `my_pos`, stunned for `my_stun` more turns.
    pub fn new(my_pos: i32, my_stun: i32, my_id: i32) -> (player: Self)
        ensures
            player == (PlayerDetails { my_pos, my_stun, my_id }),
    {
        PlayerDetails { my_pos, my_stun, my_id }
    }
}

/// A race on its own.
#[derive(Debug, Clone)]
pub struct Game {
    /// The track, one byte per cell, `#` for a hurdle; `None` while the race
    /// has none.
    pub track: Option<String>,
    /// The distance to the hurdle the runner is heading for, while it has
    /// one in mind.
    pub closest_hurdle: Option<usize>,
    pub my_player: PlayerDetails,
}

impl Game {
    /// The cells of the track; none while the race has no track.
    pub open spec fn cells(self) -> Seq<u8> {
        match self.track {
            Some(track) => cells_of(track@),
            None => Seq::empty(),
        }
    }

    /// Whether the distance from the runner to any cell of the track can be
    /// counted. It can wherever the runner stands on the track.
    pub open spec fn countable(self) -> bool {
        self.cells().len() - self.my_player.my_pos <= usize::MAX
    }

    /// The distance to the hurdle that the runner heads for: the one it has
    /// in mind, else the nearest one ahead on the track. `None` when the
    /// rest of the track is free.
    pub open spec fn heading_for(self) -> Option<int> {
        match self.closest_hurdle {
            Some(distance) => Some(distance as int),
            None => next_hurdle(self.cells(), self.my_player.my_pos as int),
        }
    }

    /// The move that suits the race: the one for the hurdle the runner heads
    /// for, three cells when the rest of the track is free, and the shortest
    /// move while there is no track.
    pub open spec fn preferred(self) -> Move {
        if self.track is None {
            Move::Left
        } else {
            match self.heading_for() {
                Some(distance) => Move::preferred_at(distance),
                None => Move::Right,
            }
        }
    }

    /// What deciding leaves behind: with a track, the runner keeps the
    /// hurdle it heads for in mind, unless it is about to jump over it.
    /// Everything else is as before.
    pub open spec fn decides_to(self, after: Game) -> bool {
        &&& after.track == self.track
        &&& after.my_player == self.my_player
        &&& after.closest_hurdle == if self.track is None {
            self.closest_hurdle
        } else {
            match self.heading_for() {
                Some(distance) if distance != 1 => Some(distance as usize),
                _ => None,
            }
        }
    }

    /// A race without a track, its runner at the start.
    pub fn default() -> (game: Self)
        ensures
            game.track is None,
            game.closest_hurdle is None,
            game.my_player == (PlayerDetails { my_pos: 0, my_stun: 0, my_id: 0 }),
    {
        Game { track: None, closest_hurdle: None, my_player: PlayerDetails::default() }
    }

    /// A race without a track for `my_player`.
    pub fn new(my_player: PlayerDetails) -> (game: Self)
        ensures
            game.track is None,
            game.closest_hurdle is None,
            game.my_player == my_player,
    {
        Game { track: None, closest_hurdle: None, my_player }
    }

    /// Gives the race its track.
    pub fn add_track(&mut self, track: String)
        ensures
            *final(self) == (Game { track: Some(track), ..*old(self) }),
    {
        self.track = Some(track);
    }

    /// Puts the runner in.
    pub fn add_player_details(&mut self, details: PlayerDetails)
        ensures
            *final(self) == (Game { my_player: details, ..*old(self) }),
    {
        self.my_player = details;
    }

    /// Looks along the rest of the track for the nearest hurdle ahead of the
    /// runner and returns its distance, counted from the cell of the runner
    /// to the cell of the hurdle: a hurdle on the next cell is one cell
    /// away. What the runner has in mind is neither read nor changed.
    pub fn find_closest_hurdle(&self) -> (distance: Option<usize>)
        requires
            self.countable(),
        ensures
            distance is Some == next_hurdle(self.cells(), self.my_player.my_pos as int) is Some,
            distance matches Some(d) ==> next_hurdle(self.cells(), self.my_player.my_pos as int)
                == Some(d as int),
    {
        match &self.track {
            Some(track) => find_next_hurdle(track.as_str().as_bytes(), self.my_player.my_pos),
            None => {
                assert(first_hurdle_from(self.cells(), 0) is None);
                None
            },
        }
    }

    /// Decides the move of this turn and returns its word.
    pub fn decide(&mut self) -> (word: String)
        requires
            old(self).countable(),
        ensures
            word@ == old(self).preferred().keyword(),
            old(self).decides_to(*final(self)),
    {
        if self.track.is_some() {
            // find closest hurdle if unknown
            if self.closest_hurdle.is_none() {
                self.closest_hurdle = self.find_closest_hurdle();
            }
            match self.closest_hurdle {
                Some(1) => {
                    self.closest_hurdle = None;
                    return Move::Up.name();
                },
                Some(2) => return Move::Left.name(),
                Some(3) => return Move::Down.name(),
                _ => return Move::Right.name(),
            }
        }
        Move::Left.name()  // return nothing
    }
}

} // verus!
