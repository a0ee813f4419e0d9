//! One move for all races: the move that makes the fewest runners stumble.

use vstd::prelude::*;
use crate::game_turn::{GameTurn, PlayerTurn};
use crate::moves::{lemma_keyword_names_one_move, Move};

verus! {

/// The cell a rival is good for: where it stands, less the turns it is
/// stunned.
pub open spec fn reach(rival: PlayerTurn) -> int {
    rival.pos - rival.stun
}

/// The farthest reach among `rivals`, of which there is at least one.
pub open spec fn best_reach(rivals: Seq<PlayerTurn>) -> int
    decreases rivals.len(),
{
    if rivals.len() <= 1 {
        reach(rivals[0])
    } else if reach(rivals.last()) > best_reach(rivals.drop_last()) {
        reach(rivals.last())
    } else {
        best_reach(rivals.drop_last())
    }
}

/// Whether lead `a` is smaller than lead `b`. A runner without rivals has no
/// lead to lose: `None` is smaller than nothing.
pub open spec fn trails(a: Option<int>, b: Option<int>) -> bool {
    match (a, b) {
        (Some(x), Some(y)) => x < y,
        (Some(_), None) => true,
        _ => false,
    }
}

/// The race whose runner has the smallest lead; the first of them when
/// several have it, and race 0 when there are none.
pub open spec fn weakest(lanes: Seq<GameTurn>) -> int
    decreases lanes.len(),
{
    if lanes.len() <= 1 {
        0
    } else {
        let before = weakest(lanes.drop_last());
        if trails(lanes.last().lead(), lanes[before].lead()) {
            lanes.len() - 1
        } else {
            before
        }
    }
}

/// Whether `played` is the move that some race prefers.
pub open spec fn is_candidate(lanes: Seq<GameTurn>, played: Move) -> bool {
    exists|i: int| 0 <= i < lanes.len() && #[trigger] lanes[i].preferred() == played
}

/// The number of races in which `played` makes the runner stumble.
pub open spec fn stumble_count(lanes: Seq<GameTurn>, played: Move) -> nat
    decreases lanes.len(),
{
    if lanes.len() == 0 {
        0
    } else {
        stumble_count(lanes.drop_last(), played) + if lanes.last().stumbles(played) {
            1nat
        } else {
            0nat
        }
    }
}

/// Of the jump and the ground move of two cells, the one that protects the
/// race with the smallest lead: the ground move if that race prefers it,
/// else the jump.
pub open spec fn shield(lanes: Seq<GameTurn>) -> Move {
    if lanes[weakest(lanes)].preferred() == Move::Down {
        Move::Down
    } else {
        Move::Up
    }
}

/// Whether `played` is to be chosen before `rival` in these races.
pub open spec fn beats(lanes: Seq<GameTurn>, played: Move, rival: Move) -> bool {
    played.ranks_above(
        stumble_count(lanes, played) as int,
        rival,
        stumble_count(lanes, rival) as int,
        shield(lanes),
    )
}

/// Whether `played` is the move for these races: some race prefers it, and
/// it is to be chosen before every other move that some race prefers.
pub open spec fn wins(lanes: Seq<GameTurn>, played: Move) -> bool {
    &&& is_candidate(lanes, played)
    &&& forall|rival: Move|
        is_candidate(lanes, rival) && rival != played ==> #[trigger] beats(lanes, played, rival)
}

impl GameTurn {
    /// The lead of the runner over its best rival; `None` without rivals.
    pub open spec fn lead(self) -> Option<int> {
        if self.other_players@.len() == 0 {
            None
        } else {
            Some(self.my_player.pos - best_reach(self.other_players@))
        }
    }

    /// The distance to the nearest hurdle that the race goes by.
    pub fn hurdle_in_sight(&self) -> (distance: usize)
        ensures
            distance == self.distance(),
    {
        match self.closest_hurdle {
            Some(distance) => distance,
            None => self.find_closest_hurdle(),
        }
    }

    /// The move that suits this race alone.
    pub fn preferred_move(&self) -> (played: Move)
        ensures
            played == self.preferred(),
    {
        if self.track.is_some() {
            Move::choose_for(self.hurdle_in_sight())
        } else {
            Move::Down
        }
    }

    /// Whether `played` makes the runner of this race stumble.
    pub fn stumbles_on(&self, played: Move) -> (stumbles: bool)
        ensures
            stumbles == self.stumbles(played),
    {
        self.track.is_some() && played.trips_at(self.hurdle_in_sight())
    }

    /// The lead of the runner over its best rival.
    pub fn lead_over_rivals(&self) -> (lead: Option<i64>)
        ensures
            lead is Some == self.lead() is Some,
            lead matches Some(cells) ==> self.lead() == Some(cells as int),
    {
        let n = self.other_players.len();
        if n == 0 {
            return None;
        }
        let first = &self.other_players[0];
        let mut best: i64 = first.pos as i64 - first.stun as i64;
        let mut i: usize = 1;
        while i < n
            invariant
                1 <= i <= n,
                n == self.other_players@.len(),
                best == best_reach(self.other_players@.take(i as int)),
                -0x1_0000_0000 <= best <= 0x1_0000_0000,
            decreases n - i,
        {
            let rival = &self.other_players[i];
            let r: i64 = rival.pos as i64 - rival.stun as i64;
            assert(self.other_players@.take(i + 1).drop_last() == self.other_players@.take(
                i as int,
            ));
            if r > best {
                best = r;
            }
            i += 1;
        }
        assert(self.other_players@.take(n as int) == self.other_players@);
        Some(self.my_player.pos as i64 - best)
    }

    /// The race whose runner has the smallest lead.
    pub fn weakest_lane(game_turns: &[GameTurn]) -> (index: usize)
        ensures
            index == weakest(game_turns@),
            game_turns@.len() > 0 ==> index < game_turns@.len(),
    {
        let n = game_turns.len();
        if n == 0 {
            return 0;
        }
        let mut index: usize = 0;
        let mut smallest = game_turns[0].lead_over_rivals();
        let mut i: usize = 1;
        while i < n
            invariant
                1 <= i <= n,
                n == game_turns@.len(),
                index < i,
                index == weakest(game_turns@.take(i as int)),
                smallest is Some == game_turns@[index as int].lead() is Some,
                smallest matches Some(cells) ==> game_turns@[index as int].lead() == Some(
                    cells as int,
                ),
            decreases n - i,
        {
            let lead = game_turns[i].lead_over_rivals();
            assert(game_turns@.take(i + 1).drop_last() == game_turns@.take(i as int));
            let smaller = match (lead, smallest) {
                (Some(x), Some(y)) => x < y,
                (Some(_), None) => true,
                _ => false,
            };
            if smaller {
                index = i;
                smallest = lead;
            }
            i += 1;
        }
        assert(game_turns@.take(n as int) == game_turns@);
        index
    }

    /// The number of races in which `played` makes the runner stumble.
    pub fn count_stumbles(game_turns: &[GameTurn], played: Move) -> (count: usize)
        ensures
            count == stumble_count(game_turns@, played),
    {
        let n = game_turns.len();
        let mut num_stumbles: usize = 0;
        let mut i: usize = 0;
        while i < n
            invariant
                i <= n,
                n == game_turns@.len(),
                num_stumbles <= i,
                num_stumbles == stumble_count(game_turns@.take(i as int), played),
            decreases n - i,
        {
            assert(game_turns@.take(i + 1).drop_last() == game_turns@.take(i as int));
            if game_turns[i].stumbles_on(played) {
                num_stumbles += 1;
            }
            i += 1;
        }
        assert(game_turns@.take(n as int) == game_turns@);
        num_stumbles
    }

    /// Chooses the move to play in all races at once.
    ///
    /// Each race prefers a move of its own. Of these, the one that makes the
    /// fewest runners stumble is chosen; of several such, the one that
    /// advances farthest; and of two that still tie, the one that protects
    /// the race with the smallest lead. Without any race it is the shortest
    /// move.
    pub fn choose_action(game_turns: &[GameTurn]) -> (played: Move)
        ensures
            game_turns@.len() == 0 ==> played == Move::Left,
            game_turns@.len() > 0 ==> wins(game_turns@, played),
    {
        let n = game_turns.len();
        let ghost lanes = game_turns@;
        if n == 0 {
            return Move::Left;
        }
        let mut moves: Vec<Move> = Vec::new();
        let mut stumbles: Vec<usize> = Vec::new();

        // find each game's most suited move, and how much stumble it causes
        let mut i: usize = 0;
        while i < n
            invariant
                i <= n,
                game_turns@ == lanes,
                n == lanes.len(),
                moves@.len() == i,
                stumbles@.len() == i,
                forall|j: int| 0 <= j < i ==> moves@[j] == (#[trigger] lanes[j]).preferred(),
                forall|j: int|
                    0 <= j < i ==> (#[trigger] stumbles@[j]) == stumble_count(lanes, moves@[j]),
            decreases n - i,
        {
            let suitable_move = game_turns[i].preferred_move();
            let num_stumbles = Self::count_stumbles(game_turns, suitable_move);
            moves.push(suitable_move);
            stumbles.push(num_stumbles);
            i += 1;
        }

        // Choose the move which stumbles the least; on a tie the one which
        // moves more distance; then the one which is best for the game where
        // we are least in the lead
        let weakest_id = Self::weakest_lane(game_turns);
        let protect = if moves[weakest_id] == Move::Down {
            Move::Down
        } else {
            Move::Up
        };
        let mut best_mv_id: usize = 0;
        let mut k: usize = 1;
        while k < n
            invariant
                1 <= k <= n,
                best_mv_id < k,
                n == lanes.len(),
                moves@.len() == n,
                stumbles@.len() == n,
                protect == shield(lanes),
                forall|j: int| 0 <= j < n ==> moves@[j] == (#[trigger] lanes[j]).preferred(),
                forall|j: int|
                    0 <= j < n ==> (#[trigger] stumbles@[j]) == stumble_count(lanes, moves@[j]),
                forall|j: int|
                    0 <= j < k ==> (#[trigger] moves@[j]) == moves@[best_mv_id as int] || beats(
                        lanes,
                        moves@[best_mv_id as int],
                        moves@[j],
                    ),
            decreases n - k,
        {
            if moves[k].outranks(stumbles[k], moves[best_mv_id], stumbles[best_mv_id], protect) {
                best_mv_id = k;
            }
            k += 1;
        }
        let best = moves[best_mv_id];
        proof {
            assert(lanes[best_mv_id as int].preferred() == best);
            assert forall|rival: Move|
                is_candidate(lanes, rival) && rival != best implies #[trigger] beats(
                lanes,
                best,
                rival,
            ) by {
                let j = choose|j: int|
                    0 <= j < lanes.len() && #[trigger] lanes[j].preferred() == rival;
                assert(moves@[j] == rival);
            }
        }
        best
    }

    /// Chooses the move to play in all races at once, as `choose_action`
    /// does, and returns its word. Every race is left as `decide` leaves it.
    pub fn safe_approach(game_turns: &mut [GameTurn]) -> (word: String)
        ensures
            old(game_turns)@.len() == 0 ==> word@ == Move::Left.keyword(),
            old(game_turns)@.len() > 0 ==> (Move::of_keyword(word@) matches Some(played) && wins(
                old(game_turns)@,
                played,
            )),
            final(game_turns)@.len() == old(game_turns)@.len(),
            forall|i: int|
                0 <= i < old(game_turns)@.len() ==> (#[trigger] old(game_turns)@[i]).decides_to(
                    final(game_turns)@[i],
                ),
    {
        let n = game_turns.len();
        let ghost lanes = game_turns@;
        let best = Self::choose_action(game_turns);
        proof {
            lemma_keyword_names_one_move(best);
        }
        let chosen = best.name();

        // every game remembers what it decided
        let mut i: usize = 0;
        while i < n
            invariant
                i <= n,
                n == lanes.len(),
                game_turns@.len() == n,
                forall|j: int| 0 <= j < i ==> (#[trigger] lanes[j]).decides_to(game_turns@[j]),
                forall|j: int| i <= j < n ==> game_turns@[j] == #[trigger] lanes[j],
            decreases n - i,
        {
            game_turns[i].decide();
            i += 1;
        }
        chosen
    }
}

} // verus!
