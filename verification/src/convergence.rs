//! Why the locator closes in on one cell: what a turn does to the search
//! area, and how many hints a grid can take.

use vstd::prelude::*;
use vstd::arithmetic::power2::{lemma2_to64, lemma_pow2_strictly_increases, lemma_pow2_unfold, pow2};
use crate::direction::Direction;
use crate::player::Locator;
use crate::search_area::Region;

verus! {

/// The number of halvings that bring `cells` down to one: the binary
/// logarithm of `cells`, rounded up.
pub open spec fn hints_needed(cells: int) -> nat
    decreases cells,
{
    if cells <= 1 {
        0
    } else {
        1 + hints_needed((cells + 1) / 2)
    }
}

/// The number of hints in `hints` that name a compass direction.
pub open spec fn compass_count(hints: Seq<Direction>) -> nat
    decreases hints.len(),
{
    if hints.len() == 0 {
        0
    } else {
        (if hints[0].is_compass() {
            1nat
        } else {
            0nat
        }) + compass_count(hints.drop_first())
    }
}

impl Locator {
    /// The guess is the centre of the search area.
    pub open spec fn centred(self) -> bool {
        (self.x, self.y) == self.region.centre()
    }

    /// The locator after one turn for each hint of `hints`, in order; `None`
    /// as soon as a hint contradicts what is known.
    pub open spec fn run(self, hints: Seq<Direction>) -> Option<Locator>
        decreases hints.len(),
    {
        if hints.len() == 0 {
            Some(self)
        } else {
            match self.step(hints[0]) {
                Some(next) => next.run(hints.drop_first()),
                None => None,
            }
        }
    }

    /// What is known of a locator that began on `grid` and has taken
    /// `compass` compass hints since.
    pub open spec fn closing_in(self, grid: Region, compass: nat) -> bool {
        &&& self.wf()
        &&& self.region.within(grid)
        &&& compass == 0 ==> self.region.cells() <= grid.cells()
        &&& compass >= 1 ==> self.centred() && self.region.cells() * pow2((compass - 1) as nat)
            <= grid.cells() - 1
    }
}

/// A rectangle that lies within another has no more cells than it.
pub proof fn lemma_within_has_fewer_cells(inner: Region, outer: Region)
    requires
        inner.valid(),
        inner.within(outer),
    ensures
        1 <= inner.cells() <= outer.cells(),
{
    let (w, h) = (inner.width(), inner.height());
    let (ow, oh) = (outer.width(), outer.height());
    assert(1 <= w * h <= ow * oh) by (nonlinear_arith)
        requires
            1 <= w <= ow,
            1 <= h <= oh,
    ;
}

/// A hint never widens the search area: what it leaves is exactly the cells
/// of the old area that agree with the hint. If it leaves any, the new area
/// is valid and lies within the old one.
pub proof fn lemma_narrow_is_intersection(region: Region, direction: Direction, x: int, y: int)
    requires
        region.valid(),
        region.contains(x, y),
    ensures
        forall|col: int, row: int|
            region.narrow(direction, x, y).contains(col, row) <==> region.contains(col, row)
                && direction.admits(x, y, col, row),
        region.narrow(direction, x, y).within(region),
        !region.narrow(direction, x, y).is_empty() ==> region.narrow(direction, x, y).valid(),
{
}

/// A turn keeps the locator well formed: the new search area is valid, lies
/// within the old one, and the new guess is its centre. The turn spends one
/// attempt.
pub proof fn lemma_step_keeps_wf(before: Locator, direction: Direction)
    requires
        before.wf(),
        before.step(direction) is Some,
    ensures
        before.step(direction).unwrap().wf(),
        before.step(direction).unwrap().centred(),
        before.step(direction).unwrap().region.within(before.region),
        before.step(direction).unwrap().region == before.narrowed(direction),
        before.step(direction).unwrap().attempts == Locator::spent(before.attempts),
{
}

/// A hint without a direction leaves the search area as it is.
pub proof fn lemma_unknown_hint_keeps_area(before: Locator)
    ensures
        before.step(Direction::Unknown) is Some,
        before.step(Direction::Unknown).unwrap().region == before.region,
{
}

/// Every compass hint that is accepted takes at least one cell away from the
/// search area, and an area of one cell accepts no compass hint at all.
pub proof fn lemma_compass_hint_shrinks(before: Locator, direction: Direction)
    requires
        before.wf(),
        direction.is_compass(),
    ensures
        before.region.is_single_cell() ==> before.step(direction) is None,
        before.step(direction) matches Some(after) ==> 1 <= after.region.cells()
            < before.region.cells(),
{
    if before.step(direction) is Some {
        let after = before.step(direction).unwrap();
        let (w, h) = (before.region.width(), before.region.height());
        let (aw, ah) = (after.region.width(), after.region.height());
        assert(1 <= aw * ah < w * h) by (nonlinear_arith)
            requires
                1 <= aw <= w,
                1 <= ah <= h,
                aw < w || ah < h,
        ;
    }
}

/// A compass hint given at the centre of the search area leaves at most half
/// of its cells.
pub proof fn lemma_centred_hint_halves(before: Locator, direction: Direction)
    requires
        before.wf(),
        before.centred(),
        direction.is_compass(),
        before.step(direction) is Some,
    ensures
        2 * before.step(direction).unwrap().region.cells() <= before.region.cells(),
{
    let after = before.step(direction).unwrap();
    let (w, h) = (before.region.width(), before.region.height());
    let (aw, ah) = (after.region.width(), after.region.height());
    assert(2 * (aw * ah) <= w * h) by (nonlinear_arith)
        requires
            1 <= aw <= w,
            1 <= ah <= h,
            2 * aw <= w || 2 * ah <= h,
    ;
}

/// `cells` is at most two to the power of `hints_needed(cells)`.
pub proof fn lemma_hints_needed_covers(cells: int)
    ensures
        cells <= pow2(hints_needed(cells)),
    decreases cells,
{
    lemma2_to64();
    if cells > 1 {
        lemma_hints_needed_covers((cells + 1) / 2);
        lemma_pow2_unfold(hints_needed(cells));
    }
}

proof fn lemma_pow2_increases(e1: nat, e2: nat)
    requires
        e1 <= e2,
    ensures
        pow2(e1) <= pow2(e2),
{
    if e1 < e2 {
        lemma_pow2_strictly_increases(e1, e2);
    }
}

proof fn lemma_step_closes_in(before: Locator, grid: Region, compass: nat, direction: Direction)
    requires
        before.closing_in(grid, compass),
        before.step(direction) is Some,
    ensures
        before.step(direction).unwrap().closing_in(
            grid,
            if direction.is_compass() {
                compass + 1
            } else {
                compass
            },
        ),
{
    let after = before.step(direction).unwrap();
    lemma_step_keeps_wf(before, direction);
    if direction.is_compass() {
        lemma_compass_hint_shrinks(before, direction);
        lemma_within_has_fewer_cells(before.region, grid);
        if compass == 0 {
            lemma2_to64();
            assert(after.region.cells() * pow2(0) == after.region.cells()) by (nonlinear_arith)
                requires
                    pow2(0) == 1,
            ;
        } else {
            lemma_centred_hint_halves(before, direction);
            lemma_pow2_unfold(compass);
            let (a, b, p) = (after.region.cells(), before.region.cells(), pow2(
                (compass - 1) as nat,
            ) as int);
            assert(a * (2 * p) <= b * p) by (nonlinear_arith)
                requires
                    2 * a <= b,
                    0 <= p,
            ;
        }
    }
}

proof fn lemma_run_closes_in(start: Locator, grid: Region, compass: nat, hints: Seq<Direction>)
    requires
        start.closing_in(grid, compass),
        start.run(hints) is Some,
    ensures
        start.run(hints).unwrap().closing_in(grid, compass + compass_count(hints)),
    decreases hints.len(),
{
    if hints.len() > 0 {
        let next = start.step(hints[0]).unwrap();
        lemma_step_closes_in(start, grid, compass, hints[0]);
        lemma_run_closes_in(
            next,
            grid,
            if hints[0].is_compass() {
                compass + 1
            } else {
                compass
            },
            hints.drop_first(),
        );
    }
}

/// The locator converges. Start anywhere in a grid of `width` by `height`
/// cells and let every hint of `hints` be accepted. Then the search area is
/// still valid, holds the guess and lies within the grid; no more than
/// `hints_needed(width * height)` of the hints name a compass direction; and
/// once that many do, the search area is a single cell.
pub proof fn lemma_locator_converges(
    width: int,
    height: int,
    x: int,
    y: int,
    attempts: int,
    hints: Seq<Direction>,
)
    requires
        width >= 1,
        height >= 1,
        0 <= x < width,
        0 <= y < height,
        Locator::start(width, height, x, y, attempts).run(hints) is Some,
    ensures
        ({
            let end = Locator::start(width, height, x, y, attempts).run(hints).unwrap();
            &&& end.wf()
            &&& end.region.within(Region::grid(width, height))
            &&& compass_count(hints) <= hints_needed(width * height)
            &&& compass_count(hints) == hints_needed(width * height)
                ==> end.region.is_single_cell()
        }),
{
    let grid = Region::grid(width, height);
    let start = Locator::start(width, height, x, y, attempts);
    let end = start.run(hints).unwrap();
    let k = compass_count(hints);
    let needed = hints_needed(width * height);
    assert(grid.cells() == width * height);
    lemma_run_closes_in(start, grid, 0, hints);
    lemma_within_has_fewer_cells(end.region, grid);
    lemma_hints_needed_covers(grid.cells());
    if k == 0 {
        if needed == 0 {
            lemma2_to64();
            assert(end.region.cells() == 1);
        }
    } else {
        let a = end.region.cells();
        let p = pow2((k - 1) as nat) as int;
        assert(p <= a * p) by (nonlinear_arith)
            requires
                1 <= a,
                0 <= p,
        ;
        if k > needed {
            lemma_pow2_increases(needed, (k - 1) as nat);
        }
        if k == needed && a >= 2 {
            lemma_pow2_unfold(k);
            assert(2 * p <= a * p) by (nonlinear_arith)
                requires
                    2 <= a,
                    0 <= p,
            ;
        }
    }
    if end.region.cells() == 1 {
        let (w, h) = (end.region.width(), end.region.height());
        assert(w == 1 && h == 1) by (nonlinear_arith)
            requires
                w * h == 1,
                1 <= w,
                1 <= h,
        ;
    }
}

} // verus!
