//! Medals and scores, per runner and per race.

use vstd::prelude::*;
use crate::game_turn::GameTurn;

verus! {

/// What a gold medal counts for in a final score; a silver medal counts one.
pub const GOLD_WEIGHT: u32 = 3;

/// The medals of one runner and the score they add up to.
#[derive(Debug, Clone, Copy, PartialEq, Eq, Structural)]
pub struct PlayerScore {
    pub final_score: u32,
    pub nb_gold_medals: u32,
    pub nb_silver_medals: u32,
    pub nb_bronze_medals: u32,
}

impl PlayerScore {
    /// The score that the medals are worth: one for each silver medal and
    /// `GOLD_WEIGHT` for each gold one. Bronze counts nothing.
    pub open spec fn medal_score(self) -> int {
        self.nb_silver_medals + self.nb_gold_medals * GOLD_WEIGHT
    }

    /// Brings the final score in line with the medals.
    pub fn calculate_final_score(&mut self)
        requires
            old(self).medal_score() <= u32::MAX,
        ensures
            *final(self) == (PlayerScore {
                final_score: old(self).medal_score() as u32,
                ..*old(self)
            }),
    {
        self.final_score = self.nb_silver_medals + self.nb_gold_medals * GOLD_WEIGHT;
    }

    /// Adds a gold medal and brings the final score in line.
    pub fn increase_gold_medal(&mut self)
        requires
            old(self).medal_score() + GOLD_WEIGHT <= u32::MAX,
        ensures
            *final(self) == (PlayerScore {
                nb_gold_medals: (old(self).nb_gold_medals + 1) as u32,
                final_score: (old(self).medal_score() + GOLD_WEIGHT) as u32,
                ..*old(self)
            }),
    {
        self.nb_gold_medals += 1;
        self.calculate_final_score();
    }

    /// Adds a silver medal and brings the final score in line.
    pub fn increase_silver_medal(&mut self)
        requires
            old(self).medal_score() + 1 <= u32::MAX,
        ensures
            *final(self) == (PlayerScore {
                nb_silver_medals: (old(self).nb_silver_medals + 1) as u32,
                final_score: (old(self).medal_score() + 1) as u32,
                ..*old(self)
            }),
    {
        self.nb_silver_medals += 1;
        self.calculate_final_score();
    }

    /// Adds a bronze medal; the final score stays as it is.
    pub fn increase_bronze_medal(&mut self)
        requires
            old(self).nb_bronze_medals < u32::MAX,
        ensures
            *final(self) == (PlayerScore {
                nb_bronze_medals: (old(self).nb_bronze_medals + 1) as u32,
                ..*old(self)
            }),
    {
        self.nb_bronze_medals += 1;
    }

    /// The final score as it was last set.
    pub fn final_score(&self) -> (score: u32)
        ensures
            score == self.final_score,
    {
        self.final_score
    }

    /// A score sheet with these entries, taken as they are.
    pub fn new(final_score: u32, nb_gold_medals: u32, nb_silver_medals: u32, nb_bronze_medals: u32) -> (sheet:
        Self)
        ensures
            sheet == (PlayerScore {
                final_score,
                nb_gold_medals,
                nb_silver_medals,
                nb_bronze_medals,
            }),
    {
        PlayerScore { final_score, nb_gold_medals, nb_silver_medals, nb_bronze_medals }
    }
}

/// The score and the medals of a runner in one race, with the last turn of
/// that race.
#[derive(Debug, Default, Clone)]
pub struct MiniGameScore {
    pub game_id: u8,
    pub score: u32,
    pub gold: u8,
    pub silver: u8,
    pub bronze: u8,
    pub latest_run_turn: GameTurn,
}

/// The turns of one run of a race.
#[derive(Debug, Default, Clone)]
pub struct GameRun {
    pub game_id: u8,
    pub turns: Vec<GameTurn>,
}

impl GameRun {
    /// A run of race `game_id` without a turn yet.
    pub fn new(game_id: u8) -> (run: Self)
        ensures
            run.game_id == game_id,
            run.turns@.len() == 0,
    {
        GameRun { game_id, turns: Vec::new() }
    }
}

/// The product of the scores of `games`; one when there are none.
pub open spec fn score_product(games: Seq<MiniGameScore>) -> nat
    decreases games.len(),
{
    if games.len() == 0 {
        1
    } else {
        score_product(games.drop_last()) * games.last().score as nat
    }
}

/// Whether the product of the scores can be built up race by race without
/// leaving `u32`.
pub open spec fn product_fits(games: Seq<MiniGameScore>) -> bool {
    forall|k: int| 0 <= k <= games.len() ==> #[trigger] score_product(games.take(k)) <= u32::MAX
}

/// Everything that is known of one runner: its medals in all, its final
/// score, and how it does in each race.
#[derive(Debug, Default, Clone)]
pub struct TotalPlayerInfo {
    pub player_id: i32,
    pub gold: u32,
    pub silver: u32,
    pub bronze: u32,
    pub final_score: u32,
    pub games_info: Vec<MiniGameScore>,
}

impl TotalPlayerInfo {
    /// A runner with these medals and this score, and no race yet.
    pub fn new(id: i32, final_score: u32, gold: u32, silver: u32, bronze: u32) -> (info: Self)
        ensures
            info.player_id == id,
            info.final_score == final_score,
            info.gold == gold,
            info.silver == silver,
            info.bronze == bronze,
            info.games_info@.len() == 0,
    {
        TotalPlayerInfo { player_id: id, final_score, gold, silver, bronze, games_info: Vec::new() }
    }

    /// Sets the final score to the product of the scores of all races.
    pub fn calculate_final_score(&mut self)
        requires
            product_fits(old(self).games_info@),
        ensures
            final(self).final_score == score_product(old(self).games_info@),
            final(self).player_id == old(self).player_id,
            final(self).gold == old(self).gold,
            final(self).silver == old(self).silver,
            final(self).bronze == old(self).bronze,
            final(self).games_info == old(self).games_info,
    {
        let n = self.games_info.len();
        let mut acc: u32 = 1;
        let mut i: usize = 0;
        while i < n
            invariant
                i <= n,
                n == self.games_info@.len(),
                product_fits(self.games_info@),
                acc == score_product(self.games_info@.take(i as int)),
            decreases n - i,
        {
            assert(self.games_info@.take(i + 1).drop_last() == self.games_info@.take(i as int));
            assert(score_product(self.games_info@.take(i + 1)) <= u32::MAX);
            acc = acc * self.games_info[i].score;
            i += 1;
        }
        assert(self.games_info@.take(n as int) == self.games_info@);
        self.final_score = acc;
    }

    /// Counts a gold medal won in race `game_id`, for the runner and for
    /// that race, and sets the final score anew.
    pub fn add_gold_medal(&mut self, game_id: u8)
        requires
            game_id < old(self).games_info@.len(),
            old(self).gold < u32::MAX,
            old(self).games_info@[game_id as int].gold < u8::MAX,
            product_fits(old(self).games_info@),
        ensures
            final(self).gold == old(self).gold + 1,
            final(self).games_info@ == old(self).games_info@.update(
                game_id as int,
                MiniGameScore {
                    gold: (old(self).games_info@[game_id as int].gold + 1) as u8,
                    ..old(self).games_info@[game_id as int]
                },
            ),
            final(self).final_score == score_product(old(self).games_info@),
            final(self).player_id == old(self).player_id,
            final(self).silver == old(self).silver,
            final(self).bronze == old(self).bronze,
    {
        self.gold += 1;
        self.games_info[game_id as usize].gold += 1;
        proof {
            lemma_product_goes_by_scores(old(self).games_info@, self.games_info@);
        }
        self.calculate_final_score();
    }

    /// Counts a silver medal won in race `game_id`, for the runner and for
    /// that race, and sets the final score anew.
    pub fn add_silver_medal(&mut self, game_id: u8)
        requires
            game_id < old(self).games_info@.len(),
            old(self).silver < u32::MAX,
            old(self).games_info@[game_id as int].silver < u8::MAX,
            product_fits(old(self).games_info@),
        ensures
            final(self).silver == old(self).silver + 1,
            final(self).games_info@ == old(self).games_info@.update(
                game_id as int,
                MiniGameScore {
                    silver: (old(self).games_info@[game_id as int].silver + 1) as u8,
                    ..old(self).games_info@[game_id as int]
                },
            ),
            final(self).final_score == score_product(old(self).games_info@),
            final(self).player_id == old(self).player_id,
            final(self).gold == old(self).gold,
            final(self).bronze == old(self).bronze,
    {
        self.silver += 1;
        self.games_info[game_id as usize].silver += 1;
        proof {
            lemma_product_goes_by_scores(old(self).games_info@, self.games_info@);
        }
        self.calculate_final_score();
    }

    /// Counts a bronze medal won in race `game_id`, for the runner and for
    /// that race. The final score stays as it is.
    pub fn add_bronze_medal(&mut self, game_id: u8)
        requires
            game_id < old(self).games_info@.len(),
            old(self).bronze < u32::MAX,
            old(self).games_info@[game_id as int].bronze < u8::MAX,
        ensures
            final(self).bronze == old(self).bronze + 1,
            final(self).games_info@ == old(self).games_info@.update(
                game_id as int,
                MiniGameScore {
                    bronze: (old(self).games_info@[game_id as int].bronze + 1) as u8,
                    ..old(self).games_info@[game_id as int]
                },
            ),
            final(self).final_score == old(self).final_score,
            final(self).player_id == old(self).player_id,
            final(self).gold == old(self).gold,
            final(self).silver == old(self).silver,
    {
        self.bronze += 1;
        self.games_info[game_id as usize].bronze += 1;
    }

    /// Adds `score` to the score of race `game_id`. The final score stays as
    /// it is.
    pub fn add_game_score(&mut self, game_id: usize, score: u32)
        requires
            game_id < old(self).games_info@.len(),
            old(self).games_info@[game_id as int].score + score <= u32::MAX,
        ensures
            final(self).games_info@ == old(self).games_info@.update(
                game_id as int,
                MiniGameScore {
                    score: (old(self).games_info@[game_id as int].score + score) as u32,
                    ..old(self).games_info@[game_id as int]
                },
            ),
            final(self).final_score == old(self).final_score,
            final(self).player_id == old(self).player_id,
            final(self).gold == old(self).gold,
            final(self).silver == old(self).silver,
            final(self).bronze == old(self).bronze,
    {
        self.games_info[game_id].score += score;
    }
}

/// The product of the scores depends on the scores alone: two rows of races
/// with the same scores have the same product, and it fits for both or for
/// neither.
pub proof fn lemma_product_goes_by_scores(a: Seq<MiniGameScore>, b: Seq<MiniGameScore>)
    requires
        a.len() == b.len(),
        forall|i: int| 0 <= i < a.len() ==> (#[trigger] a[i]).score == b[i].score,
    ensures
        score_product(a) == score_product(b),
        product_fits(a) == product_fits(b),
    decreases a.len(),
{
    if a.len() > 0 {
        lemma_product_goes_by_scores(a.drop_last(), b.drop_last());
    }
    assert forall|k: int| 0 <= k <= a.len() implies score_product(a.take(k)) == score_product(
        b.take(k),
    ) by {
        if k < a.len() {
            lemma_product_goes_by_scores(a.take(k), b.take(k));
        } else {
            assert(a.take(k) == a && b.take(k) == b);
        }
    }
}

} // verus!
