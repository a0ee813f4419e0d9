//! One move for all races, chosen by the progress it promises.

use vstd::prelude::*;
use crate::arbitration::stumble_count;
use crate::game_turn::GameTurn;
use crate::moves::Move;
use crate::safety::lemma_stumble_count_bounded;

verus! {

/// The quotient of `a` by a positive `b`, rounded toward zero.
pub open spec fn quotient_toward_zero(a: int, b: int) -> int {
    if a >= 0 {
        a / b
    } else {
        -((-a) / b)
    }
}

/// The sum, over the races that have a track, of what `played` adds to the
/// runner's standing.
pub open spec fn total_lead_change(lanes: Seq<GameTurn>, played: Move) -> int
    decreases lanes.len(),
{
    if lanes.len() == 0 {
        0
    } else {
        total_lead_change(lanes.drop_last(), played) + if lanes.last().track is Some {
            lanes.last().lead_change(played)
        } else {
            0
        }
    }
}

/// The progress that `played` promises: the cells it advances, less two and
/// a half cells for each runner that stumbles (halves dropped), plus what it
/// adds to the standing of a runner on average over all races (rounded
/// toward zero).
pub open spec fn progress(lanes: Seq<GameTurn>, played: Move) -> int {
    played.advance() - (stumble_count(lanes, played) * 10) / 4 + quotient_toward_zero(
        total_lead_change(lanes, played),
        lanes.len() as int,
    )
}

/// Whether race `i` is where the move of most progress comes from: it has a
/// track, no race with a track prefers a move that promises more, and every
/// such race before it prefers one that promises less.
pub open spec fn leads_progress(lanes: Seq<GameTurn>, i: int) -> bool {
    &&& 0 <= i < lanes.len()
    &&& lanes[i].track is Some
    &&& forall|j: int|
        0 <= j < lanes.len() && (#[trigger] lanes[j]).track is Some ==> progress(
            lanes,
            lanes[j].preferred(),
        ) <= progress(lanes, lanes[i].preferred())
    &&& forall|j: int|
        0 <= j < i && (#[trigger] lanes[j]).track is Some ==> progress(lanes, lanes[j].preferred())
            < progress(lanes, lanes[i].preferred())
}

/// Whether every race that has a track names at least two rivals.
pub open spec fn rivals_named(lanes: Seq<GameTurn>) -> bool {
    forall|i: int|
        0 <= i < lanes.len() && (#[trigger] lanes[i]).track is Some
            ==> lanes[i].other_players@.len() >= 2
}

impl GameTurn {
    /// The foremost cell among the runner and its first two rivals.
    pub open spec fn field_front(self) -> int {
        let (a, b, c) = (
            self.my_player.pos as int,
            self.other_players@[0].pos as int,
            self.other_players@[1].pos as int,
        );
        if a >= b && a >= c {
            a
        } else if b >= c {
            b
        } else {
            c
        }
    }

    /// The second cell from the front among the runner and its first two
    /// rivals.
    pub open spec fn field_middle(self) -> int {
        let (a, b, c) = (
            self.my_player.pos as int,
            self.other_players@[0].pos as int,
            self.other_players@[1].pos as int,
        );
        if (b <= a <= c) || (c <= a <= b) {
            a
        } else if (a <= b <= c) || (c <= b <= a) {
            b
        } else {
            c
        }
    }

    /// The standing of a runner at `cell` against the field as it is now:
    /// the lead over the second when `cell` is the front, else the distance
    /// to the front.
    pub open spec fn standing_at(self, cell: int) -> int {
        if cell == self.field_front() {
            cell - self.field_middle()
        } else {
            cell - self.field_front()
        }
    }

    /// The cell on which `played` leaves the runner: the hurdle if it
    /// stumbles, else as far as the move advances.
    pub open spec fn landing(self, played: Move) -> int {
        if self.stumbles(played) {
            self.my_player.pos + self.distance()
        } else {
            self.my_player.pos + played.advance()
        }
    }

    /// What `played` adds to the standing of the runner.
    pub open spec fn lead_change(self, played: Move) -> int {
        self.standing_at(self.landing(played)) - self.standing_at(self.my_player.pos as int)
    }

    /// What `played` adds to the standing of the runner against its first
    /// two rivals.
    pub fn lead_change_for(&self, played: Move) -> (change: i64)
        requires
            self.other_players@.len() >= 2,
        ensures
            change == self.lead_change(played),
            -0x2_0000_0010 <= change <= 0x2_0000_0010,
    {
        let my_pos = self.my_player.pos as i64;
        let rival_a = self.other_players[0].pos as i64;
        let rival_b = self.other_players[1].pos as i64;
        let front = if my_pos >= rival_a && my_pos >= rival_b {
            my_pos
        } else if rival_a >= rival_b {
            rival_a
        } else {
            rival_b
        };
        let middle = if (rival_a <= my_pos && my_pos <= rival_b) || (rival_b <= my_pos && my_pos <= rival_a) {
            my_pos
        } else if (my_pos <= rival_a && rival_a <= rival_b) || (rival_b <= rival_a && rival_a <= my_pos) {
            rival_a
        } else {
            rival_b
        };
        let game_lead = if my_pos == front {
            my_pos - middle
        } else {
            my_pos - front
        };
        let landing = if self.stumbles_on(played) {
            my_pos + self.hurdle_in_sight() as i64
        } else {
            my_pos + played.steps() as i64
        };
        let new_game_lead = if landing == front {
            landing - middle
        } else {
            landing - front
        };
        new_game_lead - game_lead
    }

    /// The progress that `played` promises in these races.
    pub fn progress_of(game_turns: &[GameTurn], played: Move) -> (promised: i128)
        requires
            rivals_named(game_turns@),
            game_turns@.len() > 0,
        ensures
            promised == progress(game_turns@, played),
    {
        let n = game_turns.len();
        let num_stumbles = Self::count_stumbles(game_turns, played);
        let mut extra_leads: i128 = 0;
        let mut i: usize = 0;
        while i < n
            invariant
                i <= n,
                n == game_turns@.len(),
                rivals_named(game_turns@),
                extra_leads == total_lead_change(game_turns@.take(i as int), played),
                -0x2_0000_0010 * i <= extra_leads <= 0x2_0000_0010 * i,
            decreases n - i,
        {
            assert(game_turns@.take(i + 1).drop_last() == game_turns@.take(i as int));
            if game_turns[i].track.is_some() {
                extra_leads = extra_leads + game_turns[i].lead_change_for(played) as i128;
            }
            i += 1;
        }
        assert(game_turns@.take(n as int) == game_turns@);
        proof {
            lemma_stumble_count_bounded(game_turns@, played);
        }
        // Calculate avg progress for the move
        let avg_leads = extra_leads / (n as i128);
        played.steps() as i128 - (num_stumbles as i128 * 10 / 4) + avg_leads
    }

    /// Chooses the move to play in all races at once by the progress it
    /// promises, and returns its word.
    ///
    /// Each race that has a track prefers a move of its own. Of these, the
    /// one that promises the most `progress` is chosen; of several such, the
    /// one of the earliest race. Without a race that has a track the word is
    /// that of the jump. A race with a track is left as `decide` leaves it,
    /// one without is left alone.
    pub fn progress_approach(game_turns: &mut [GameTurn]) -> (word: String)
        requires
            rivals_named(old(game_turns)@),
        ensures
            (forall|i: int|
                0 <= i < old(game_turns)@.len() ==> (#[trigger] old(game_turns)@[i]).track is None)
                ==> word@ == Move::Up.keyword(),
            (exists|i: int|
                0 <= i < old(game_turns)@.len() && (#[trigger] old(game_turns)@[i]).track is Some)
                ==> exists|i: int|
                leads_progress(old(game_turns)@, i) && word@ == (#[trigger] old(
                    game_turns,
                )@[i]).preferred().keyword(),
            final(game_turns)@.len() == old(game_turns)@.len(),
            forall|i: int|
                0 <= i < old(game_turns)@.len() ==> if (#[trigger] old(game_turns)@[i]).track
                    is Some {
                    old(game_turns)@[i].decides_to(final(game_turns)@[i])
                } else {
                    final(game_turns)@[i] == old(game_turns)@[i]
                },
    {
        let n = game_turns.len();
        let ghost lanes = game_turns@;
        let mut found = false;
        let mut best_id: usize = 0;
        let mut best_progress: i128 = 0;

        // find the first move with the highest value of progress
        let mut k: usize = 0;
        while k < n
            invariant
                k <= n,
                n == lanes.len(),
                game_turns@ == lanes,
                rivals_named(lanes),
                !found ==> forall|j: int| 0 <= j < k ==> (#[trigger] lanes[j]).track is None,
                found ==> {
                    &&& best_id < k
                    &&& lanes[best_id as int].track is Some
                    &&& best_progress == progress(lanes, lanes[best_id as int].preferred())
                    &&& forall|j: int|
                        0 <= j < k && (#[trigger] lanes[j]).track is Some ==> progress(
                            lanes,
                            lanes[j].preferred(),
                        ) <= best_progress
                    &&& forall|j: int|
                        0 <= j < best_id && (#[trigger] lanes[j]).track is Some ==> progress(
                            lanes,
                            lanes[j].preferred(),
                        ) < best_progress
                },
            decreases n - k,
        {
            if game_turns[k].track.is_some() {
                let curr_move = game_turns[k].preferred_move();
                let avg_progress = Self::progress_of(game_turns, curr_move);
                if !found || avg_progress > best_progress {
                    found = true;
                    best_id = k;
                    best_progress = avg_progress;
                }
            }
            k += 1;
        }

        let chosen = if found {
            assert(leads_progress(lanes, best_id as int));
            game_turns[best_id].preferred_move().name()
        } else {
            Self::up()
        };

        // every game with a track remembers what it decided
        let mut i: usize = 0;
        while i < n
            invariant
                i <= n,
                n == lanes.len(),
                game_turns@.len() == n,
                forall|j: int|
                    0 <= j < i ==> if (#[trigger] lanes[j]).track is Some {
                        lanes[j].decides_to(game_turns@[j])
                    } else {
                        game_turns@[j] == lanes[j]
                    },
                forall|j: int| i <= j < n ==> game_turns@[j] == #[trigger] lanes[j],
            decreases n - i,
        {
            if game_turns[i].track.is_some() {
                game_turns[i].decide();
            }
            i += 1;
        }
        chosen
    }
}

} // verus!
