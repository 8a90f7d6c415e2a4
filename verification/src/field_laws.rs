//! What holds of numbers, of a block's cells and of the pieces they make up, stated
//! of the bits, the positions and the walks themselves.

use vstd::prelude::*;

use crate::connect::{
    closed_under, connected, faces, lemma_closed_keeps_walks, lemma_connected_ends,
    lemma_connected_reflexive, lemma_connected_step, lemma_connected_symmetric, reached_from,
};
use crate::grid::{lemma_at, lemma_position, CellKind, Grid};
use crate::scalar::Scalar;
use crate::tally::{tally, where_member};
use crate::voids::{
    body_of, described, empty_cells, enclosed, first_cells, first_of_piece, labelling, listing,
    material_cells, resolved, EnclosedVoid, VoidPolicy, VoidReport,
};

verus! {

/// What a bit pattern is: above the pattern of infinity, on either side of the sign,
/// it is no number; a sign bit in front of a number makes it the number below zero of
/// the same size; and of two numbers of one sign the patterns are in order above zero
/// and in reverse below it. The two zeros are one number.
pub proof fn law_bit_patterns_are_ordered_as_the_numbers_are(a: Scalar, b: Scalar)
    ensures
        a.nan() <==> 0x7ff0_0000_0000_0000 < a.bits < 0x8000_0000_0000_0000 || a.bits
            > 0xfff0_0000_0000_0000,
        a.finite() <==> a.bits < 0x7ff0_0000_0000_0000 || 0x8000_0000_0000_0000 <= a.bits
            < 0xfff0_0000_0000_0000,
        a.nan() || b.nan() ==> !a.below(b) && !a.at_most(b) && !a.equals(b),
        !a.nan() && !b.nan() ==> {
            &&& a.bits < 0x8000_0000_0000_0000 && b.bits < 0x8000_0000_0000_0000 ==> (a.below(b)
                <==> a.bits < b.bits)
            &&& a.bits >= 0x8000_0000_0000_0000 && b.bits >= 0x8000_0000_0000_0000 ==> (a.below(b)
                <==> a.bits > b.bits)
            &&& a.bits > 0x8000_0000_0000_0000 && b.bits < 0x8000_0000_0000_0000 ==> a.below(b)
            &&& a.bits < 0x8000_0000_0000_0000 && b.bits >= 0x8000_0000_0000_0000 ==> !a.below(b)
            &&& a.bits == 0x8000_0000_0000_0000 && b.bits < 0x8000_0000_0000_0000 ==> (a.below(b)
                <==> b.bits != 0)
            &&& a.equals(b) <==> !a.below(b) && !b.below(a)
            &&& a.at_most(b) <==> !b.below(a)
        },
{
}

/// The numbers are in order: of two one is below the other or they are equal, and
/// below goes on from one to the next.
pub proof fn law_the_numbers_are_in_order(a: Scalar, b: Scalar, c: Scalar)
    ensures
        !a.nan() && !b.nan() ==> a.below(b) || b.below(a) || a.equals(b),
        !(a.below(b) && b.below(a)),
        a.below(b) && b.below(c) ==> a.below(c),
        a.equals(b) ==> b.equals(a),
        a.equals(b) && b.equals(c) ==> a.equals(c),
        a.equals(b) && b.below(c) ==> a.below(c),
        a.at_most(b) <==> a.below(b) || a.equals(b),
        a.equals(a) <==> !a.nan(),
{
}

/// The total order is one over every pattern: two patterns are level only where they
/// are one, it agrees with the numbers, and what is no number stands at the end its
/// sign is on.
pub proof fn law_the_total_order_has_every_pattern_once(a: Scalar, b: Scalar, c: Scalar)
    ensures
        a.total_rank() == b.total_rank() <==> a.bits == b.bits,
        a.below(b) ==> a.total_rank() < b.total_rank(),
        a.bits > 0xfff0_0000_0000_0000 && !b.nan() ==> a.total_rank() < b.total_rank(),
        0x7ff0_0000_0000_0000 < a.bits < 0x8000_0000_0000_0000 && !b.nan() ==> b.total_rank()
            < a.total_rank(),
        a.bits == 0x8000_0000_0000_0000 && b.bits == 0 ==> a.total_rank() < b.total_rank(),
{
}

/// A number without its sign is the number or its opposite, whichever is not below
/// zero.
pub proof fn law_a_size_has_no_sign(a: Scalar)
    ensures
        0 <= a.magnitude() < 0x8000_0000_0000_0000,
        a.bits < 0x8000_0000_0000_0000 ==> a.magnitude() == a.bits,
        a.bits >= 0x8000_0000_0000_0000 ==> a.magnitude() == a.bits - 0x8000_0000_0000_0000,
{
}

/// A block numbers its positions with the first axis fastest, then the second, then
/// the third: every cell has one position, every position inside has one cell, and a
/// step along an axis is a step of one, of a row, or of a slab.
pub proof fn law_cells_are_numbered_axis_by_axis(grid: &Grid, cell: int, i: int, j: int, k: int)
    requires
        grid.wf(),
    ensures
        grid.holds(cell) ==> {
            &&& 0 <= grid.x(cell) < grid.nx
            &&& 0 <= grid.y(cell) < grid.ny
            &&& 0 <= grid.z(cell) < grid.nz
            &&& cell == grid.x(cell) + grid.nx * (grid.y(cell) + grid.ny * grid.z(cell))
        },
        grid.inside(i, j, k) <==> 0 <= i < grid.nx && 0 <= j < grid.ny && 0 <= k < grid.nz,
        grid.inside(i, j, k) ==> {
            &&& grid.holds(grid.at(i, j, k))
            &&& grid.x(grid.at(i, j, k)) == i
            &&& grid.y(grid.at(i, j, k)) == j
            &&& grid.z(grid.at(i, j, k)) == k
        },
        grid.at(i + 1, j, k) == grid.at(i, j, k) + 1,
        grid.at(i, j + 1, k) == grid.at(i, j, k) + grid.nx,
        grid.at(i, j, k + 1) == grid.at(i, j, k) + grid.nx * grid.ny,
{
    if grid.holds(cell) {
        lemma_position(grid, cell);
    }
    if grid.inside(i, j, k) {
        lemma_at(grid, i, j, k);
    }
    let nx = grid.nx as int;
    let ny = grid.ny as int;
    assert(nx * (j + 1 + ny * k) == nx * (j + ny * k) + nx) by (nonlinear_arith);
    assert(nx * (j + ny * (k + 1)) == nx * (j + ny * k) + nx * ny) by (nonlinear_arith);
}

/// Two cells share a face exactly where one is reached from the other by one step
/// along one axis.
pub proof fn law_neighbours_are_one_step_apart(grid: &Grid, a: int, b: int)
    requires
        grid.wf(),
        grid.holds(a),
        grid.holds(b),
    ensures
        ({
            let (i, j, k) = (grid.x(a), grid.y(a), grid.z(a));
            grid.adjacent(a, b) <==> {
                ||| grid.inside(i - 1, j, k) && b == grid.at(i - 1, j, k)
                ||| grid.inside(i + 1, j, k) && b == grid.at(i + 1, j, k)
                ||| grid.inside(i, j - 1, k) && b == grid.at(i, j - 1, k)
                ||| grid.inside(i, j + 1, k) && b == grid.at(i, j + 1, k)
                ||| grid.inside(i, j, k - 1) && b == grid.at(i, j, k - 1)
                ||| grid.inside(i, j, k + 1) && b == grid.at(i, j, k + 1)
            }
        }),
        grid.adjacent(a, b) == grid.adjacent(b, a),
        !grid.adjacent(a, a),
{
    let (i, j, k) = (grid.x(a), grid.y(a), grid.z(a));
    lemma_position(grid, a);
    lemma_position(grid, b);
    if grid.inside(i - 1, j, k) {
        lemma_at(grid, i - 1, j, k);
    }
    if grid.inside(i + 1, j, k) {
        lemma_at(grid, i + 1, j, k);
    }
    if grid.inside(i, j - 1, k) {
        lemma_at(grid, i, j - 1, k);
    }
    if grid.inside(i, j + 1, k) {
        lemma_at(grid, i, j + 1, k);
    }
    if grid.inside(i, j, k - 1) {
        lemma_at(grid, i, j, k - 1);
    }
    if grid.inside(i, j, k + 1) {
        lemma_at(grid, i, j, k + 1);
    }
}

/// The neighbours of a position are listed axis by axis, the lower before the higher, those
/// outside the block left out.
pub proof fn law_neighbours_are_listed_axis_by_axis(grid: &Grid, i: int, j: int, k: int)
    requires
        grid.wf(),
    ensures
        ({
            let near = faces(grid, i, j, k);
            let one = |there: bool|
                if there {
                    1int
                } else {
                    0
                };
            let a = one(grid.inside(i - 1, j, k));
            let b = a + one(grid.inside(i + 1, j, k));
            let c = b + one(grid.inside(i, j - 1, k));
            let d = c + one(grid.inside(i, j + 1, k));
            let e = d + one(grid.inside(i, j, k - 1));
            &&& near.len() == e + one(grid.inside(i, j, k + 1))
            &&& grid.inside(i - 1, j, k) ==> near[0] == grid.at(i - 1, j, k)
            &&& grid.inside(i + 1, j, k) ==> near[a] == grid.at(i + 1, j, k)
            &&& grid.inside(i, j - 1, k) ==> near[b] == grid.at(i, j - 1, k)
            &&& grid.inside(i, j + 1, k) ==> near[c] == grid.at(i, j + 1, k)
            &&& grid.inside(i, j, k - 1) ==> near[d] == grid.at(i, j, k - 1)
            &&& grid.inside(i, j, k + 1) ==> near[e] == grid.at(i, j, k + 1)
        }),
{
    assert(grid.cells.len() == grid.len());
    if grid.inside(i - 1, j, k) {
        lemma_at(grid, i - 1, j, k);
    }
    if grid.inside(i + 1, j, k) {
        lemma_at(grid, i + 1, j, k);
    }
    if grid.inside(i, j - 1, k) {
        lemma_at(grid, i, j - 1, k);
    }
    if grid.inside(i, j + 1, k) {
        lemma_at(grid, i, j + 1, k);
    }
    if grid.inside(i, j, k - 1) {
        lemma_at(grid, i, j, k - 1);
    }
    if grid.inside(i, j, k + 1) {
        lemma_at(grid, i, j, k + 1);
    }
}

/// A cell is at the boundary exactly where one of its six faces has nothing of the
/// block on its other side.
pub proof fn law_a_boundary_cell_has_a_face_outside(grid: &Grid, cell: int)
    requires
        grid.wf(),
        grid.holds(cell),
    ensures
        ({
            let (i, j, k) = (grid.x(cell), grid.y(cell), grid.z(cell));
            grid.boundary(cell) <==> !(grid.inside(i - 1, j, k) && grid.inside(i + 1, j, k)
                && grid.inside(i, j - 1, k) && grid.inside(i, j + 1, k) && grid.inside(i, j, k - 1)
                && grid.inside(i, j, k + 1))
        }),
{
    lemma_position(grid, cell);
}

/// Connectivity is the least thing it can be: two masked cells are connected exactly
/// where every set that has the one, and has with a cell every masked cell across a
/// face of it, has the other too.
pub proof fn law_connected_is_what_no_closed_set_parts(
    grid: &Grid,
    mask: Seq<bool>,
    a: int,
    b: int,
)
    requires
        mask.len() == grid.len(),
        grid.holds(a),
        grid.holds(b),
        mask[a],
    ensures
        connected(grid, mask, a, b) <==> mask[b] && forall|set: Seq<bool>|
            set.len() == grid.len() && set[a] && #[trigger] closed_under(grid, mask, set) ==> set[b],
{
    if connected(grid, mask, a, b) {
        lemma_connected_ends(grid, mask, a, b);
        assert forall|set: Seq<bool>|
            set.len() == grid.len() && set[a] && #[trigger] closed_under(grid, mask, set)
                implies set[b] by {
            lemma_closed_keeps_walks(grid, mask, set, a, b);
        }
    }
    let joined = Seq::new(grid.cells@.len(), |c: int| connected(grid, mask, a, c));
    assert(closed_under(grid, mask, joined)) by {
        assert forall|p: int, q: int| #[trigger]
            grid.adjacent(p, q) && joined[p] && mask[q] implies joined[q] by {
            lemma_connected_step(grid, mask, a, p, q);
        }
    }
    lemma_connected_reflexive(grid, mask, a);
    assert(joined[a]);
}

/// Two masked cells across one face are connected, whatever else is masked, and only
/// masked cells of the block ever are.
pub proof fn law_masked_neighbours_are_connected(grid: &Grid, mask: Seq<bool>, a: int, b: int)
    ensures
        grid.adjacent(a, b) ==> grid.holds(a) && grid.holds(b),
        grid.adjacent(a, b) && mask[a] && mask[b] ==> connected(grid, mask, a, b),
        connected(grid, mask, a, b) ==> mask[a] && mask[b] && grid.holds(a) && grid.holds(b),
        connected(grid, mask, a, b) == connected(grid, mask, b, a),
{
    if grid.adjacent(a, b) && mask[a] && mask[b] {
        lemma_connected_reflexive(grid, mask, a);
        lemma_connected_step(grid, mask, a, a, b);
    }
    if connected(grid, mask, a, b) {
        lemma_connected_symmetric(grid, mask, a, b);
    }
    if connected(grid, mask, b, a) {
        lemma_connected_symmetric(grid, mask, b, a);
    }
}

/// What is reached from some cells are the masked ones of them, every masked cell across a
/// face of what is reached, and nothing that is connected to none of them.
pub proof fn law_what_is_reached_spreads_from_the_starts(
    grid: &Grid,
    mask: Seq<bool>,
    starts: Seq<usize>,
    s: int,
    a: int,
    b: int,
)
    requires
        0 <= s < starts.len(),
    ensures
        grid.holds(starts[s] as int) && mask[starts[s] as int] ==> reached_from(
            grid,
            mask,
            starts,
            starts[s] as int,
        ),
        reached_from(grid, mask, starts, a) && grid.adjacent(a, b) && mask[b] ==> reached_from(
            grid,
            mask,
            starts,
            b,
        ),
        (forall|k: int|
            0 <= k < starts.len() ==> !connected(grid, mask, #[trigger] starts[k] as int, a))
            ==> !reached_from(grid, mask, starts, a),
{
    if grid.holds(starts[s] as int) && mask[starts[s] as int] {
        lemma_connected_reflexive(grid, mask, starts[s] as int);
    }
    if reached_from(grid, mask, starts, a) && grid.adjacent(a, b) && mask[b] {
        let k = choose|k: int|
            0 <= k < starts.len() && connected(grid, mask, #[trigger] starts[k] as int, a);
        lemma_connected_step(grid, mask, starts[k] as int, a, b);
        assert(connected(grid, mask, starts[k] as int, b));
    }
}

/// Material cells are labelled, others are not; two carry one label exactly where they are
/// of one body, and the bodies are numbered as the cells are walked, from zero.
pub proof fn law_labels_are_numbered_as_bodies_are_met(
    grid: &Grid,
    mask: Seq<bool>,
    of_cell: Seq<Option<usize>>,
    bodies: int,
    a: int,
    b: int,
)
    requires
        labelling(grid, mask, of_cell, bodies),
        grid.holds(a),
        grid.holds(b),
    ensures
        of_cell[a] is Some <==> mask[a],
        mask[a] && mask[b] ==> (of_cell[a] == of_cell[b] <==> connected(grid, mask, a, b)),
        mask[a] ==> 0 <= of_cell[a]->0 < bodies,
        mask[a] && (forall|c: int| 0 <= c < a ==> !#[trigger] mask[c]) ==> of_cell[a]->0 == 0,
{
    let firsts = choose|firsts: Seq<int>| #[trigger]
        first_cells(of_cell, firsts) && firsts.len() == bodies;
    if mask[a] && (forall|c: int| 0 <= c < a ==> !#[trigger] mask[c]) {
        let first = firsts[0];
        assert(of_cell[first] == Some(0usize));
        assert(grid.holds(first) && mask[first]);
        let own = firsts[of_cell[a]->0 as int];
        assert(own <= a);
        assert(of_cell[own] is Some);
        assert(mask[own]);
        assert(own == a);
        assert(first <= own);
    }
}

/// A body is listed with the cells and the positions of the piece that it is.
pub proof fn law_a_body_has_the_cells_of_its_piece(found: EnclosedVoid)
    ensures
        body_of(found).cells == found.cells,
        body_of(found).index_sum == found.index_sum,
{
}

/// A hole that reaches a face of the block, any of the six, is open: no cell of it is
/// enclosed. One that reaches none is.
pub proof fn law_a_hole_that_reaches_a_face_is_open(
    grid: &Grid,
    mask: Seq<bool>,
    cell: int,
    at_face: int,
)
    requires
        grid.wf(),
        connected(grid, mask, cell, at_face),
    ensures
        ({
            let (i, j, k) = (grid.x(at_face), grid.y(at_face), grid.z(at_face));
            i == 0 || j == 0 || k == 0 || i == grid.nx - 1 || j == grid.ny - 1 || k == grid.nz - 1
                ==> !enclosed(grid, mask, cell)
        }),
        (forall|d: int| #[trigger]
            connected(grid, mask, cell, d) ==> 0 < grid.x(d) < grid.nx - 1 && 0 < grid.y(d)
                < grid.ny - 1 && 0 < grid.z(d) < grid.nz - 1) ==> enclosed(grid, mask, cell),
{
    lemma_connected_ends(grid, mask, cell, at_face);
    law_a_boundary_cell_has_a_face_outside(grid, at_face);
    lemma_position(grid, at_face);
    if forall|d: int| #[trigger]
        connected(grid, mask, cell, d) ==> 0 < grid.x(d) < grid.nx - 1 && 0 < grid.y(d) < grid.ny - 1
            && 0 < grid.z(d) < grid.nz - 1 {
        assert forall|b: int| #[trigger] grid.boundary(b) implies !connected(
            grid,
            mask,
            cell,
            b,
        ) by {
            if connected(grid, mask, cell, b) {
                lemma_connected_ends(grid, mask, cell, b);
                law_a_boundary_cell_has_a_face_outside(grid, b);
                lemma_position(grid, b);
            }
        }
    }
}

/// Material is decided by the classifier first and by the field only where it leaves
/// that open: a cell that is never material is empty at every level above nothing, one
/// that always is material is full, and a design cell is what the field says.
pub proof fn law_the_classifier_wins_over_the_field(
    grid: &Grid,
    field: Seq<Scalar>,
    level: Scalar,
    cell: int,
)
    requires
        grid.holds(cell),
        !level.nan(),
    ensures
        ({
            let nothing = Scalar { bits: 0 };
            let full = Scalar { bits: 0x3ff0_0000_0000_0000 };
            let empty = empty_cells(grid, field, level)[cell];
            let material = material_cells(grid, field, level)[cell];
            &&& grid.cells@[cell] == CellKind::Void ==> (empty <==> nothing.below(level)) && (material
                <==> level.at_most(nothing))
            &&& grid.cells@[cell] == CellKind::Solid ==> (empty <==> full.below(level)) && (material
                <==> level.at_most(full))
            &&& grid.cells@[cell] == CellKind::Design ==> (empty <==> field[cell].below(level)) && (
            material <==> level.at_most(field[cell]))
            &&& !(empty && material)
            &&& !(empty || material) <==> grid.cells@[cell] == CellKind::Design
                && field[cell].nan()
        }),
        empty_cells(grid, field, level).len() == grid.len(),
        material_cells(grid, field, level).len() == grid.len(),
{
}

/// Raising the level empties cells and never fills one.
pub proof fn law_a_higher_level_is_emptier(
    grid: &Grid,
    field: Seq<Scalar>,
    low: Scalar,
    high: Scalar,
    cell: int,
)
    requires
        grid.holds(cell),
        low.at_most(high),
    ensures
        empty_cells(grid, field, low)[cell] ==> empty_cells(grid, field, high)[cell],
        material_cells(grid, field, high)[cell] ==> material_cells(grid, field, low)[cell],
{
}

/// A sum over a set's numbers of one each counts them: it is how many numbers below
/// `n` the set has.
pub proof fn law_a_tally_counts(n: int, member: spec_fn(int) -> bool)
    requires
        n >= 0,
    ensures
        Set::new(|c: int| 0 <= c < n && member(c)).finite(),
        tally(n, where_member(member, |c: int| 1)) == Set::new(
            |c: int| 0 <= c < n && member(c),
        ).len(),
    decreases n,
{
    let all = Set::new(|c: int| 0 <= c < n && member(c));
    if n == 0 {
        assert(all =~= Set::<int>::empty());
    } else {
        law_a_tally_counts(n - 1, member);
        let fewer = Set::new(|c: int| 0 <= c < n - 1 && member(c));
        if member(n - 1) {
            assert(all =~= fewer.insert(n - 1));
        } else {
            assert(all =~= fewer);
        }
    }
}

/// A sum over a set's numbers lies between as many times the least value and as many
/// times the greatest.
proof fn lemma_sum_between(
    n: int,
    member: spec_fn(int) -> bool,
    value: spec_fn(int) -> int,
    low: int,
    high: int,
)
    requires
        n >= 0,
        forall|c: int| 0 <= c < n && member(c) ==> low <= #[trigger] value(c) <= high,
    ensures
        low * tally(n, where_member(member, |c: int| 1)) <= tally(n, where_member(member, value))
            <= high * tally(n, where_member(member, |c: int| 1)),
    decreases n,
{
    let count = tally(n, where_member(member, |c: int| 1));
    if n == 0 {
        assert(low * count == 0 && high * count == 0) by (nonlinear_arith)
            requires
                count == 0,
        ;
    } else {
        lemma_sum_between(n - 1, member, value, low, high);
        let before = tally(n - 1, where_member(member, |c: int| 1));
        if member(n - 1) {
            assert(low <= value(n - 1) <= high);
            assert(low * count == low * before + low && high * count == high * before + high)
                by (nonlinear_arith)
                requires
                    count == before + 1,
            ;
        }
    }
}

/// What is said of a piece is about its own cells: how many there are, whether one of
/// them is never material, and along each axis a mean position between the least and
/// the greatest of them.
pub proof fn law_a_piece_is_described_by_its_cells(
    grid: &Grid,
    mask: Seq<bool>,
    seed: int,
    found: EnclosedVoid,
    low: [int; 3],
    high: [int; 3],
)
    requires
        described(grid, |c: int| connected(grid, mask, seed, c), found),
        forall|c: int| #[trigger]
            connected(grid, mask, seed, c) ==> low[0] <= grid.x(c) <= high[0] && low[1] <= grid.y(c)
                <= high[1] && low[2] <= grid.z(c) <= high[2],
    ensures
        found.cells == Set::new(
            |c: int| 0 <= c < grid.len() && connected(grid, mask, seed, c),
        ).len(),
        low[0] * found.cells <= found.index_sum[0] <= high[0] * found.cells,
        low[1] * found.cells <= found.index_sum[1] <= high[1] * found.cells,
        low[2] * found.cells <= found.index_sum[2] <= high[2] * found.cells,
        !found.fillable <==> exists|c: int| #[trigger]
            connected(grid, mask, seed, c) && grid.cells@[c] == CellKind::Void,
{
    let member = |c: int| connected(grid, mask, seed, c);
    let n = grid.len();
    law_a_tally_counts(n, member);
    assert(Set::new(|c: int| 0 <= c < n && member(c)) =~= Set::new(
        |c: int| 0 <= c < grid.len() && connected(grid, mask, seed, c),
    ));
    lemma_sum_between(n, member, |c: int| grid.x(c), low[0], high[0]);
    lemma_sum_between(n, member, |c: int| grid.y(c), low[1], high[1]);
    lemma_sum_between(n, member, |c: int| grid.z(c), low[2], high[2]);
    if !found.fillable {
        let c = choose|c: int| #[trigger] member(c) && grid.cells@[c] == CellKind::Void;
        assert(connected(grid, mask, seed, c));
    } else {
        assert forall|c: int| #[trigger] connected(grid, mask, seed, c) implies grid.cells@[c]
            != CellKind::Void by {
            assert(member(c));
        }
    }
}

/// A list of pieces goes from the largest to the smallest, and among pieces of one
/// size from the one met first to the one met last; each is met at its least cell, and
/// no two of them are one.
pub proof fn law_the_largest_piece_is_listed_first(
    grid: &Grid,
    mask: Seq<bool>,
    wanted: spec_fn(int) -> bool,
    seeds: Seq<int>,
    found: Seq<EnclosedVoid>,
    a: int,
    b: int,
)
    requires
        listing(grid, mask, wanted, seeds, found),
        0 <= a < b < found.len(),
    ensures
        found[a].cells >= found[b].cells,
        found[a].cells == found[b].cells ==> seeds[a] < seeds[b],
        wanted(seeds[a]),
        forall|c: int| #[trigger] connected(grid, mask, seeds[a], c) ==> seeds[a] <= c,
        !connected(grid, mask, seeds[a], seeds[b]),
{
    assert(seeds.contains(seeds[a]) && seeds.contains(seeds[b]));
    assert(first_of_piece(grid, mask, wanted, seeds[a]));
    assert(first_of_piece(grid, mask, wanted, seeds[b]));
    if connected(grid, mask, seeds[a], seeds[b]) {
        lemma_connected_symmetric(grid, mask, seeds[a], seeds[b]);
    }
}

/// Filling writes full density into every cell of a cavity none of whose cells is
/// never material, and leaves every other cell what it was; warning leaves all of them.
pub proof fn law_filling_writes_full_density_into_cavities_alone(
    grid: &Grid,
    field: Seq<Scalar>,
    iso: Scalar,
    cell: int,
)
    requires
        0 <= cell < field.len(),
    ensures
        ({
            let empty = empty_cells(grid, field, iso);
            let filled = resolved(grid, field, iso, VoidPolicy::Fill);
            &&& filled.len() == field.len()
            &&& enclosed(grid, empty, cell) && (forall|d: int| #[trigger]
                connected(grid, empty, cell, d) ==> grid.cells@[d] != CellKind::Void)
                ==> filled[cell] == (Scalar { bits: 0x3ff0_0000_0000_0000 })
            &&& !enclosed(grid, empty, cell) || (exists|d: int| #[trigger]
                connected(grid, empty, cell, d) && grid.cells@[d] == CellKind::Void)
                ==> filled[cell] == field[cell]
            &&& resolved(grid, field, iso, VoidPolicy::Warn) == field
        }),
{
    assert(resolved(grid, field, iso, VoidPolicy::Warn) =~= field);
}

/// A cavity counts as filled exactly where the policy was to fill and it could be.
pub proof fn law_a_report_counts_a_cavity_as_filled_only_where_it_was(
    report: &VoidReport,
    cavity: EnclosedVoid,
)
    ensures
        report.policy == VoidPolicy::Warn ==> !report.filled(cavity),
        report.policy == VoidPolicy::Fill ==> report.filled(cavity) == cavity.fillable,
{
}

} // verus!
