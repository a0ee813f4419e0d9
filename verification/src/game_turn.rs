//! One race of the current turn, and the move its runner would like to play.

use vstd::prelude::*;
use crate::moves::Move;
use crate::track::{cells_of, closest_hurdle, hurdle_distance};

verus! {

/// A runner in one race: where it stands and for how many turns it is still
/// stunned.
#[derive(Debug, Clone, Copy, PartialEq, Eq, Structural)]
pub struct PlayerTurn {
    pub pos: i32,
    pub stun: i32,
    pub id: i32,
}

impl PlayerTurn {
    /// Runner 0 at the start of the track, not stunned.
    pub fn default() -> (player: Self)
        ensures
            player == (PlayerTurn { pos: 0, stun: 0, id: 0 }),
    {
        PlayerTurn { pos: 0, stun: 0, id: 0 }
    }

    /// Runner `my_id` at cell `my_pos`, stunned for `my_stun` more turns.
    pub fn new(my_pos: i32, my_stun: i32, my_id: i32) -> (player: Self)
        ensures
            player == (PlayerTurn { pos: my_pos, stun: my_stun, id: my_id }),
    {
        PlayerTurn { pos: my_pos, stun: my_stun, id: my_id }
    }
}

/// One race as it stands this turn.
#[derive(Debug, Clone)]
pub struct GameTurn {
    pub game_id: u8,
    pub run_id: u8,
    /// The track, one byte per cell, `#` for a hurdle; `None` while the race
    /// has none.
    pub track: Option<String>,
    /// The distance to the nearest hurdle, once it has been looked up.
    pub closest_hurdle: Option<usize>,
    pub my_player: PlayerTurn,
    pub other_players: Vec<PlayerTurn>,
    /// The word of the preferred move, once it has been decided.
    pub suitable_move: Option<String>,
}

impl Default for GameTurn {
    /// Race 0 without a track, with runner 0 at the start and no rivals.
    fn default() -> (turn: Self)
        ensures
            turn.game_id == 0,
            turn.run_id == 0,
            turn.track is None,
            turn.closest_hurdle is None,
            turn.my_player == (PlayerTurn { pos: 0, stun: 0, id: 0 }),
            turn.other_players@.len() == 0,
            turn.suitable_move is None,
    {
        GameTurn {
            game_id: 0,
            run_id: 0,
            track: None,
            closest_hurdle: None,
            my_player: PlayerTurn::default(),
            other_players: Vec::new(),
            suitable_move: None,
        }
    }
}

impl GameTurn {
    /// The cells of the track; none while the race has no track.
    pub open spec fn cells(self) -> Seq<u8> {
        match self.track {
            Some(track) => cells_of(track@),
            None => Seq::empty(),
        }
    }

    /// The distance to the nearest hurdle that the race goes by: the one it
    /// has looked up before, else the one on the track.
    pub open spec fn distance(self) -> int {
        match self.closest_hurdle {
            Some(distance) => distance as int,
            None => hurdle_distance(self.cells(), self.my_player.pos as int),
        }
    }

    /// The move that suits this race alone. A race without a track asks for
    /// two cells on the ground.
    pub open spec fn preferred(self) -> Move {
        if self.track is Some {
            Move::preferred_at(self.distance())
        } else {
            Move::Down
        }
    }

    /// Whether `played` makes the runner of this race stumble. Nobody
    /// stumbles in a race without a track.
    pub open spec fn stumbles(self, played: Move) -> bool {
        self.track is Some && played.stumbles_at(self.distance())
    }

    /// What deciding leaves behind in a race: with a track, the distance it
    /// went by and the word of the preferred move; without one, no word.
    /// Everything else is as before.
    pub open spec fn decides_to(self, after: GameTurn) -> bool {
        &&& after.game_id == self.game_id
        &&& after.run_id == self.run_id
        &&& after.track == self.track
        &&& after.my_player == self.my_player
        &&& after.other_players == self.other_players
        &&& if self.track is Some {
            &&& after.closest_hurdle == Some(self.distance() as usize)
            &&& after.suitable_move matches Some(word)
            &&& word@ == self.preferred().keyword()
        } else {
            &&& after.closest_hurdle == self.closest_hurdle
            &&& after.suitable_move is None
        }
    }

    /// A race without a track, with nothing looked up or decided yet.
    pub fn new(game_id: u8, run_id: u8, my_player: PlayerTurn, other_players: Vec<PlayerTurn>) -> (turn:
        Self)
        ensures
            turn.game_id == game_id,
            turn.run_id == run_id,
            turn.track is None,
            turn.closest_hurdle is None,
            turn.my_player == my_player,
            turn.other_players == other_players,
            turn.suitable_move is None,
    {
        GameTurn {
            game_id,
            run_id,
            track: None,
            closest_hurdle: None,
            my_player,
            other_players,
            suitable_move: None,
        }
    }

    /// The word of the move of one cell.
    pub fn left() -> (word: String)
        ensures
            word@ == Move::Left.keyword(),
    {
        Move::Left.name()
    }

    /// The word of the move of three cells.
    pub fn right() -> (word: String)
        ensures
            word@ == Move::Right.keyword(),
    {
        Move::Right.name()
    }

    /// The word of the jump.
    pub fn up() -> (word: String)
        ensures
            word@ == Move::Up.keyword(),
    {
        Move::Up.name()
    }

    /// The word of the move of two cells on the ground.
    pub fn down() -> (word: String)
        ensures
            word@ == Move::Down.keyword(),
    {
        Move::Down.name()
    }

    /// The word to play when there is nothing to decide: the shortest move.
    pub fn nothing() -> (word: String)
        ensures
            word@ == Move::Left.keyword(),
    {
        Move::Left.name()
    }

    /// Gives the race its track.
    pub fn add_track(&mut self, track: String)
        ensures
            *final(self) == (GameTurn { track: Some(track), ..*old(self) }),
    {
        self.track = Some(track);
    }

    /// Numbers the run.
    pub fn set_run_id(&mut self, id: u8)
        ensures
            *final(self) == (GameTurn { run_id: id, ..*old(self) }),
    {
        self.run_id = id;
    }

    /// Puts the runner in.
    pub fn add_player_details(&mut self, details: PlayerTurn)
        ensures
            *final(self) == (GameTurn { my_player: details, ..*old(self) }),
    {
        self.my_player = details;
    }

    /// Decides the move that suits this race alone and returns its word. The
    /// race remembers the distance it went by and the word.
    pub fn decide(&mut self) -> (word: String)
        ensures
            word@ == old(self).preferred().keyword(),
            old(self).decides_to(*final(self)),
    {
        if self.track.is_some() {
            // find closest hurdle if unknown
            if self.closest_hurdle.is_none() {
                self.closest_hurdle = Some(self.find_closest_hurdle());
            }
            let dist = self.closest_hurdle.unwrap();
            let to_move = GameTurn::move_based_on_dist(dist);
            self.suitable_move = Some(to_move.clone());
            return to_move;
        }
        self.suitable_move = None;
        Self::down()
    }

    /// Looks on the track for the nearest hurdle ahead of the runner. What
    /// the race has looked up before is neither read nor changed.
    pub fn find_closest_hurdle(&self) -> (distance: usize)
        ensures
            distance == hurdle_distance(self.cells(), self.my_player.pos as int),
    {
        match &self.track {
            Some(track) => closest_hurdle(track.as_str().as_bytes(), self.my_player.pos),
            None => closest_hurdle(&[], self.my_player.pos),
        }
    }

    /// The word of the move to prefer when the nearest hurdle is `dist` cells
    /// ahead.
    pub fn move_based_on_dist(dist: usize) -> (word: String)
        ensures
            word@ == Move::preferred_at(dist as int).keyword(),
    {
        Move::choose_for(dist).name()
    }

    /// The number of cells that the move of this word advances; 99 for a
    /// word that plays no move.
    pub fn move_to_value(this_move: &String) -> (value: u8)
        ensures
            value == match Move::of_keyword(this_move@) {
                Some(played) => played.advance(),
                None => 99,
            },
    {
        match Move::parse(this_move) {
            Some(played) => played.steps(),
            None => 99,
        }
    }

    /// The word of the ground move that advances `val` cells; `NOTHING` when
    /// there is none.
    pub fn value_to_move(val: u8) -> (word: String)
        ensures
            word@ == match val {
                1 => Move::Left.keyword(),
                2 => Move::Down.keyword(),
                3 => Move::Right.keyword(),
                _ => "NOTHING"@,
            },
    {
        match val {
            1 => Move::Left.name(),
            2 => Move::Down.name(),
            3 => Move::Right.name(),
            _ => "NOTHING".to_owned(),
        }
    }

    /// Always run three cells, unless the nearest hurdle is the next cell:
    /// then jump.
    pub fn aggressive_strategy(closest_hurdle: usize) -> (word: String)
        ensures
            word@ == if closest_hurdle == 1 {
                Move::Up.keyword()
            } else {
                Move::Right.keyword()
            },
    {
        let mut chosen_mv = GameTurn::up();
        if closest_hurdle != 1 {
            chosen_mv = GameTurn::right();
        }
        chosen_mv
    }
}

} // verus!
