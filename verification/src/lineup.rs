//! From the registers of one input line to the races of a turn.

use vstd::prelude::*;
use crate::text::same_word;
use crate::game_turn::{GameTurn, PlayerTurn};
use crate::track::hurdle_distance;

verus! {

/// The number of runners in a race.
pub const RUNNERS: usize = 3;

/// The runner with number `id`, as the registers `positions` and `stuns`
/// describe it.
pub open spec fn runner(id: int, positions: Seq<i32>, stuns: Seq<i32>) -> PlayerTurn {
    PlayerTurn { pos: positions[id], stun: stuns[id], id: id as i32 }
}

/// All runners of a race, in the order of their numbers.
pub open spec fn runners(positions: Seq<i32>, stuns: Seq<i32>) -> Seq<PlayerTurn> {
    Seq::new(RUNNERS as nat, |id: int| runner(id, positions, stuns))
}

/// Whether a line stands for a race that is over and waits for its reset.
pub open spec fn is_over(gpu: Seq<char>) -> bool {
    gpu == "GAME_OVER"@
}

/// Whether the runner takes part in the race of a line this turn: the race
/// is running and the runner is not stunned.
pub open spec fn takes_part(gpu: Seq<char>, stun: int) -> bool {
    !is_over(gpu) && stun == 0
}

/// Whether a line with the track `gpu` stands for a race that is over.
pub fn race_is_over(gpu: &String) -> (over: bool)
    ensures
        over == is_over(gpu@),
{
    same_word(gpu, "GAME_OVER")
}

impl GameTurn {
    /// Whether `turn` is the race that a line with the track `gpu` describes
    /// for the runner with number `player_idx`: nothing looked up or decided
    /// yet, the runner's own registers in `my_player`, and the other runners
    /// as rivals, in the order of their numbers.
    pub open spec fn is_race_of(
        turn: GameTurn,
        game_id: u8,
        run_id: u8,
        gpu: String,
        player_idx: int,
        positions: Seq<i32>,
        stuns: Seq<i32>,
    ) -> bool {
        &&& turn.game_id == game_id
        &&& turn.run_id == run_id
        &&& turn.track == Some(gpu)
        &&& turn.closest_hurdle is None
        &&& turn.suitable_move is None
        &&& turn.my_player == runner(player_idx, positions, stuns)
        &&& turn.other_players@ == runners(positions, stuns).remove(player_idx)
    }

    /// Reads the race of one input line. `None` when the runner does not
    /// take part in it this turn.
    pub fn from_line(
        game_id: u8,
        run_id: u8,
        gpu: String,
        player_idx: usize,
        positions: [i32; 3],
        stuns: [i32; 3],
    ) -> (race: Option<GameTurn>)
        requires
            player_idx < RUNNERS,
        ensures
            race is Some <==> takes_part(gpu@, stuns@[player_idx as int] as int),
            race matches Some(turn) ==> Self::is_race_of(
                turn,
                game_id,
                run_id,
                gpu,
                player_idx as int,
                positions@,
                stuns@,
            ),
    {
        let mut players: Vec<PlayerTurn> = Vec::new();
        let mut id: usize = 0;
        while id < RUNNERS
            invariant
                id <= RUNNERS,
                players@.len() == id,
                forall|k: int| 0 <= k < id ==> #[trigger] players@[k] == runner(k, positions@, stuns@),
            decreases RUNNERS - id,
        {
            players.push(PlayerTurn { id: id as i32, pos: positions[id], stun: stuns[id] });
            id += 1;
        }
        assert(players@ =~= runners(positions@, stuns@));
        let my_player = players.remove(player_idx);

        if !race_is_over(&gpu) && my_player.stun == 0 {
            let mut game_turn = GameTurn::new(game_id, run_id, my_player, players);
            game_turn.add_track(gpu);
            Some(game_turn)
        } else {
            None
        }
    }

    /// Takes one input line into the races of the turn. A race in which the
    /// runner takes part joins `game_turns`. A race that is over ends the
    /// run: the run count goes up and the races taken so far are dropped. A
    /// line of a running race whose runner is stunned changes nothing.
    pub fn take_line(
        game_turns: &mut Vec<GameTurn>,
        num_runs: &mut u8,
        game_id: u8,
        gpu: String,
        player_idx: usize,
        positions: [i32; 3],
        stuns: [i32; 3],
    )
        requires
            player_idx < RUNNERS,
            is_over(gpu@) ==> *old(num_runs) < u8::MAX,
        ensures
            takes_part(gpu@, stuns@[player_idx as int] as int) ==> {
                &&& *final(num_runs) == *old(num_runs)
                &&& final(game_turns)@.len() == old(game_turns)@.len() + 1
                &&& final(game_turns)@.drop_last() == old(game_turns)@
                &&& Self::is_race_of(
                    final(game_turns)@.last(),
                    game_id,
                    *old(num_runs),
                    gpu,
                    player_idx as int,
                    positions@,
                    stuns@,
                )
            },
            is_over(gpu@) ==> {
                &&& *final(num_runs) == *old(num_runs) + 1
                &&& final(game_turns)@.len() == 0
            },
            !takes_part(gpu@, stuns@[player_idx as int] as int) && !is_over(gpu@) ==> {
                &&& *final(num_runs) == *old(num_runs)
                &&& final(game_turns)@ == old(game_turns)@
            },
    {
        let over = race_is_over(&gpu);
        match Self::from_line(game_id, *num_runs, gpu, player_idx, positions, stuns) {
            Some(game_turn) => {
                game_turns.push(game_turn);
                assert(game_turns@.drop_last() == old(game_turns)@);
            },
            None => {
                if over {
                    // the run has finished; a new one may start
                    *num_runs += 1;
                    game_turns.clear();
                }
            },
        }
    }

    /// The distance to the nearest hurdle seen so far, this race counted in:
    /// the smaller of `so_far` and the distance on this track.
    pub fn closer_hurdle(&self, so_far: usize) -> (closest: usize)
        ensures
            closest == if hurdle_distance(self.cells(), self.my_player.pos as int) < so_far {
                hurdle_distance(self.cells(), self.my_player.pos as int)
            } else {
                so_far as int
            },
    {
        let here = self.find_closest_hurdle();
        if here < so_far {
            here
        } else {
            so_far
        }
    }
}

} // verus!
