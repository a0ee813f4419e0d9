//! A race track as a row of cells, and the hurdle a runner meets next.

use vstd::prelude::*;
use vstd::utf8::{encode_utf8, is_ascii_chars, is_ascii_chars_encode_utf8};

verus! {

/// How far ahead a runner looks. No move advances as far, so a hurdle at
/// this distance or beyond cannot be hit this turn.
pub const LOOKAHEAD: usize = 4;

/// The cell that holds a hurdle: the byte of `#`.
pub const HURDLE: u8 = 0x23;

/// The cells of a track given as text: its bytes, one cell each.
pub open spec fn cells_of(track: Seq<char>) -> Seq<u8> {
    encode_utf8(track)
}

/// Whether cell `i` is on the track and holds a hurdle.
pub open spec fn hurdle_at(cells: Seq<u8>, i: int) -> bool {
    0 <= i < cells.len() && cells[i] == HURDLE
}

/// On a track written in ASCII a cell is a character, and the cells that
/// hold a hurdle are those written `#`.
pub proof fn lemma_ascii_track_cells(track: Seq<char>)
    requires
        is_ascii_chars(track),
    ensures
        cells_of(track).len() == track.len(),
        forall|i: int|
            #[trigger] hurdle_at(cells_of(track), i) <==> 0 <= i < track.len() && track[i] == '#',
{
    is_ascii_chars_encode_utf8(track);
    assert forall|i: int| #[trigger]
        hurdle_at(cells_of(track), i) <==> 0 <= i < track.len() && track[i] == '#' by {
        if 0 <= i < track.len() {
            assert(track[i] as u8 == encode_utf8(track)[i]);
            assert('\0' <= track[i] <= '\u{7f}');
        }
    }
}

/// Whether a hurdle stands `k` cells ahead of `pos`.
pub open spec fn hurdle_ahead(cells: Seq<u8>, pos: int, k: int) -> bool {
    hurdle_at(cells, pos + k)
}

/// The distance from `pos` to the nearest hurdle ahead of it, as far as the
/// runner looks; `LOOKAHEAD` when none is in sight.
pub open spec fn hurdle_distance(cells: Seq<u8>, pos: int) -> int {
    if hurdle_ahead(cells, pos, 1) {
        1
    } else if hurdle_ahead(cells, pos, 2) {
        2
    } else if hurdle_ahead(cells, pos, 3) {
        3
    } else {
        LOOKAHEAD as int
    }
}

/// The distance is that of the first hurdle in sight: it lies between one
/// and `LOOKAHEAD`, no cell nearer than it holds a hurdle, and below
/// `LOOKAHEAD` the cell at that distance holds one.
pub proof fn lemma_hurdle_distance_is_nearest(cells: Seq<u8>, pos: int)
    ensures
        1 <= hurdle_distance(cells, pos) <= LOOKAHEAD,
        forall|k: int| 1 <= k < hurdle_distance(cells, pos) ==> !#[trigger] hurdle_ahead(cells, pos, k),
        hurdle_distance(cells, pos) < LOOKAHEAD ==> hurdle_ahead(
            cells,
            pos,
            hurdle_distance(cells, pos),
        ),
{
}

/// The first cell at or after `from` that holds a hurdle, if there is one.
pub open spec fn first_hurdle_from(cells: Seq<u8>, from: int) -> Option<int>
    decreases cells.len() - from,
{
    if from >= cells.len() {
        None
    } else if from < 0 {
        first_hurdle_from(cells, 0)
    } else if hurdle_at(cells, from) {
        Some(from)
    } else {
        first_hurdle_from(cells, from + 1)
    }
}

/// The distance from `pos` to the nearest hurdle ahead of it, however far,
/// counted from cell to cell: a hurdle on the next cell is at distance one.
/// `None` when the rest of the track is free.
pub open spec fn next_hurdle(cells: Seq<u8>, pos: int) -> Option<int> {
    match first_hurdle_from(cells, pos + 1) {
        Some(cell) => Some(cell - pos),
        None => None,
    }
}

/// The first hurdle from a cell on is a hurdle at or after that cell with
/// no hurdle in between, and there is none only if no cell from there on
/// holds one.
pub proof fn lemma_first_hurdle_is_first(cells: Seq<u8>, from: int)
    ensures
        first_hurdle_from(cells, from) matches Some(cell) ==> from <= cell && hurdle_at(cells, cell)
            && forall|i: int| from <= i < cell ==> !#[trigger] hurdle_at(cells, i),
        first_hurdle_from(cells, from) is None ==> forall|i: int|
            from <= i ==> !#[trigger] hurdle_at(cells, i),
    decreases cells.len() - from,
{
    if from < 0 {
        lemma_first_hurdle_is_first(cells, 0);
    } else if from < cells.len() && !hurdle_at(cells, from) {
        lemma_first_hurdle_is_first(cells, from + 1);
    }
}

/// Within sight the two distances agree: the nearest hurdle ahead is the one
/// that `hurdle_distance` gives, and beyond sight `hurdle_distance` is
/// `LOOKAHEAD`.
pub proof fn lemma_next_hurdle_in_sight(cells: Seq<u8>, pos: int)
    ensures
        match next_hurdle(cells, pos) {
            Some(distance) => distance >= 1 && hurdle_distance(cells, pos) == if distance
                < LOOKAHEAD {
                distance
            } else {
                LOOKAHEAD as int
            },
            None => hurdle_distance(cells, pos) == LOOKAHEAD,
        },
{
    lemma_first_hurdle_is_first(cells, pos + 1);
    match first_hurdle_from(cells, pos + 1) {
        Some(cell) => {
            assert(hurdle_ahead(cells, pos, cell - pos));
        },
        None => {
            assert(!hurdle_at(cells, pos + 1) && !hurdle_at(cells, pos + 2) && !hurdle_at(
                cells,
                pos + 3,
            ));
        },
    }
}

/// Whether cell `i` is on the track and holds a hurdle.
pub fn is_hurdle(cells: &[u8], i: i64) -> (found: bool)
    ensures
        found == hurdle_at(cells@, i as int),
{
    if i < 0 {
        return false;
    }
    if i as u64 >= cells.len() as u64 {
        return false;
    }
    cells[i as usize] == HURDLE
}

/// Looks ahead of `pos` for the nearest hurdle.
pub fn closest_hurdle(cells: &[u8], pos: i32) -> (distance: usize)
    ensures
        distance == hurdle_distance(cells@, pos as int),
{
    let mut closest_hurdle: usize = LOOKAHEAD;
    let mut k: usize = 1;
    while k < LOOKAHEAD
        invariant_except_break
            1 <= k <= LOOKAHEAD,
            closest_hurdle == LOOKAHEAD,
            forall|j: int| 1 <= j < k ==> !#[trigger] hurdle_ahead(cells@, pos as int, j),
        ensures
            closest_hurdle == hurdle_distance(cells@, pos as int),
        decreases LOOKAHEAD - k,
    {
        if is_hurdle(cells, pos as i64 + k as i64) {
            closest_hurdle = k;
            break ;
        }
        k += 1;
    }
    closest_hurdle
}

/// Looks along the rest of the track for the nearest hurdle ahead of `pos`.
pub fn find_next_hurdle(cells: &[u8], pos: i32) -> (distance: Option<usize>)
    requires
        cells@.len() - pos <= usize::MAX,
    ensures
        distance is Some == next_hurdle(cells@, pos as int) is Some,
        distance matches Some(d) ==> next_hurdle(cells@, pos as int) == Some(d as int),
{
    let n = cells.len();
    let mut i: usize = if pos < 0 {
        0
    } else {
        pos as usize + 1
    };
    while i < n
        invariant
            0 <= i,
            pos + 1 <= i,
            n == cells@.len(),
            cells@.len() - pos <= usize::MAX,
            first_hurdle_from(cells@, pos + 1) == first_hurdle_from(cells@, i as int),
        decreases n - i,
    {
        if cells[i] == HURDLE {
            let distance = if pos < 0 {
                i + (-(pos as i64)) as usize
            } else {
                i - pos as usize
            };
            return Some(distance);
        }
        i += 1;
    }
    None
}

} // verus!
