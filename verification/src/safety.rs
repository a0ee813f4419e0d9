//! What the chosen move is worth: it is the only move that `wins`, it makes
//! nobody stumble when the distances are real, and ties between moves of
//! equal advance cannot arise.

use vstd::prelude::*;
use crate::arbitration::{beats, is_candidate, stumble_count, wins};
use crate::game_turn::GameTurn;
use crate::moves::Move;

verus! {

/// A jump makes nobody stumble.
pub proof fn lemma_jump_never_stumbles(lanes: Seq<GameTurn>)
    ensures
        stumble_count(lanes, Move::Up) == 0,
    decreases lanes.len(),
{
    if lanes.len() > 0 {
        lemma_jump_never_stumbles(lanes.drop_last());
    }
}

/// A move over which no runner stumbles has a stumble count of zero.
pub proof fn lemma_nobody_stumbles(lanes: Seq<GameTurn>, played: Move)
    requires
        forall|i: int| 0 <= i < lanes.len() ==> !(#[trigger] lanes[i]).stumbles(played),
    ensures
        stumble_count(lanes, played) == 0,
    decreases lanes.len(),
{
    if lanes.len() > 0 {
        let rest = lanes.drop_last();
        assert forall|i: int| 0 <= i < rest.len() implies !(#[trigger] rest[i]).stumbles(played) by {
            assert(rest[i] == lanes[i]);
        }
        lemma_nobody_stumbles(rest, played);
    }
}

/// A move over which the runner of race `i` stumbles has a stumble count of
/// at least one.
pub proof fn lemma_somebody_stumbles(lanes: Seq<GameTurn>, played: Move, i: int)
    requires
        0 <= i < lanes.len(),
        lanes[i].stumbles(played),
    ensures
        stumble_count(lanes, played) >= 1,
    decreases lanes.len(),
{
    if i < lanes.len() - 1 {
        assert(lanes.drop_last()[i] == lanes[i]);
        lemma_somebody_stumbles(lanes.drop_last(), played, i);
    }
}

/// The stumble count never exceeds the number of races.
pub proof fn lemma_stumble_count_bounded(lanes: Seq<GameTurn>, played: Move)
    ensures
        stumble_count(lanes, played) <= lanes.len(),
    decreases lanes.len(),
{
    if lanes.len() > 0 {
        lemma_stumble_count_bounded(lanes.drop_last(), played);
    }
}

/// At most one move wins: the choice is determined by the races.
pub proof fn lemma_winner_is_unique(lanes: Seq<GameTurn>, a: Move, b: Move)
    requires
        wins(lanes, a),
        wins(lanes, b),
    ensures
        a == b,
{
    if a != b {
        assert(beats(lanes, a, b));
        assert(beats(lanes, b, a));
    }
}

/// The winner makes no more runners stumble than any move that some race
/// prefers, and of those that make as few stumble none advances farther.
pub proof fn lemma_winner_stumbles_least(lanes: Seq<GameTurn>, winner: Move, rival: Move)
    requires
        wins(lanes, winner),
        is_candidate(lanes, rival),
    ensures
        stumble_count(lanes, winner) <= stumble_count(lanes, rival),
        stumble_count(lanes, winner) == stumble_count(lanes, rival) ==> winner.advance()
            >= rival.advance(),
{
    if rival != winner {
        assert(beats(lanes, winner, rival));
    }
}

/// Two different moves that races prefer never tie on both the stumble count
/// and the advance: the jump and the ground move of two cells are the only
/// moves of equal advance, and where a race prefers the jump, its runner
/// stumbles over the ground move.
pub proof fn lemma_no_full_tie(lanes: Seq<GameTurn>, a: Move, b: Move)
    requires
        is_candidate(lanes, a),
        is_candidate(lanes, b),
        a != b,
    ensures
        stumble_count(lanes, a) != stumble_count(lanes, b) || a.advance() != b.advance(),
{
    if a.advance() == b.advance() {
        let i = choose|i: int| 0 <= i < lanes.len() && #[trigger] lanes[i].preferred() == Move::Up;
        assert(lanes[i].stumbles(Move::Down));
        lemma_somebody_stumbles(lanes, Move::Down, i);
        lemma_jump_never_stumbles(lanes);
    }
}

/// The chosen move is safe. Where every race that has a track goes by a
/// distance of at least one cell, as every distance read from a track is,
/// the winner makes no runner stumble.
pub proof fn lemma_winner_makes_nobody_stumble(lanes: Seq<GameTurn>, winner: Move)
    requires
        wins(lanes, winner),
        forall|i: int|
            0 <= i < lanes.len() && (#[trigger] lanes[i]).track is Some ==> lanes[i].distance()
                >= 1,
    ensures
        stumble_count(lanes, winner) == 0,
        forall|i: int| 0 <= i < lanes.len() ==> !(#[trigger] lanes[i]).stumbles(winner),
{
    let next = |d: int|
        exists|i: int|
            0 <= i < lanes.len() && (#[trigger] lanes[i]).track is Some && lanes[i].distance() == d;
    let nearest = if next(1) {
        1
    } else if next(2) {
        2
    } else if next(3) {
        3
    } else {
        0
    };
    let safe = if nearest == 0 {
        lanes[0].preferred()
    } else {
        Move::preferred_at(nearest)
    };
    assert(is_candidate(lanes, safe)) by {
        if nearest == 0 {
            assert(lanes[0].preferred() == safe);
        } else {
            let i = choose|i: int|
                0 <= i < lanes.len() && (#[trigger] lanes[i]).track is Some && lanes[i].distance()
                    == nearest;
            assert(lanes[i].preferred() == safe);
        }
    }
    assert forall|i: int| 0 <= i < lanes.len() implies !(#[trigger] lanes[i]).stumbles(safe) by {
        if lanes[i].track is Some {
            let d = lanes[i].distance();
            assert(d >= 1);
            assert(d == 1 ==> next(1));
            assert(d == 2 ==> next(2));
            assert(d == 3 ==> next(3));
        }
    }
    lemma_nobody_stumbles(lanes, safe);
    lemma_winner_stumbles_least(lanes, winner, safe);
    assert forall|i: int| 0 <= i < lanes.len() implies !(#[trigger] lanes[i]).stumbles(winner) by {
        if lanes[i].stumbles(winner) {
            lemma_somebody_stumbles(lanes, winner, i);
        }
    }
}

/// The race nearest to a hurdle decides. Where every race has a track and
/// goes by a distance of at least one cell, and no race is nearer to its
/// hurdle than race `nearest`, the move that race `nearest` prefers wins.
pub proof fn lemma_nearest_hurdle_decides(lanes: Seq<GameTurn>, nearest: int)
    requires
        0 <= nearest < lanes.len(),
        forall|i: int|
            0 <= i < lanes.len() ==> (#[trigger] lanes[i]).track is Some && 1
                <= lanes[nearest].distance() <= lanes[i].distance(),
    ensures
        wins(lanes, lanes[nearest].preferred()),
{
    let preferred = lanes[nearest].preferred();
    assert forall|i: int| 0 <= i < lanes.len() implies !(#[trigger] lanes[i]).stumbles(
        preferred,
    ) by {}
    lemma_nobody_stumbles(lanes, preferred);
    assert forall|rival: Move| is_candidate(lanes, rival) && rival != preferred implies #[trigger] beats(
        lanes,
        preferred,
        rival,
    ) by {
        assert(lanes[nearest].stumbles(rival));
        lemma_somebody_stumbles(lanes, rival, nearest);
    }
}

/// Deciding changes nothing that a later choice goes by: a race prefers the
/// same move after it as before, the same moves make its runner stumble,
/// and its runner has the same lead.
pub proof fn lemma_decide_keeps_judgement(before: GameTurn, after: GameTurn, played: Move)
    requires
        before.decides_to(after),
    ensures
        after.preferred() == before.preferred(),
        after.stumbles(played) == before.stumbles(played),
        after.lead() == before.lead(),
{
}

} // verus!
