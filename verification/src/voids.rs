//! Topology of the density field the surface is about to be extracted from:
//! enclosed cavities in the empty space, and disconnected bodies in the
//! material. Both are flood fills over the same thresholded field.
//!
//! A cavity is a connected group of below-threshold cells that cannot reach the
//! grid boundary. A *body* is a connected group of at-or-above-threshold cells.
//! Connectivity is face connectivity for both: a cavity joined to the outside
//! only through a shared edge or corner counts as enclosed, and two bodies
//! joined only across an edge or a corner count as two.

use vstd::prelude::*;

use crate::connect::{connected, lists, neighbours, on_boundary, reached_from, spread};
use crate::connect::closed_under;
use crate::connect::{
    lemma_closed_keeps_walks, lemma_connected_ends, lemma_connected_reflexive,
    lemma_connected_symmetric, lemma_connected_transitive, lemma_lists_push,
};
use crate::grid::{CellKind, Grid};
use crate::parallel::ask_each;
use crate::scalar::{Scalar, ONE_BITS};
use crate::tally::{
    lemma_tally_at_most, lemma_tally_differs_at, lemma_tally_nothing, lemma_tally_same,
    lemma_tally_sum,
};
use crate::tally::{tally, where_member};

verus! {

/// One cavity the exported surface would fully enclose.
#[derive(Clone, Copy, Debug, PartialEq, Eq)]
pub struct EnclosedVoid {
    /// Number of cells in the cavity.
    pub cells: usize,
    /// Sum of the cells' positions along each axis, counted in cells. Their mean
    /// is half a cell short of the cavity's centroid.
    pub index_sum: [u128; 3],
    /// True when every cell of the cavity may be turned into material. A cavity
    /// that overlaps a keepout, or the space outside the domain, may not be:
    /// filling it would break a constraint the user asked for.
    pub fillable: bool,
}

/// What to do about the cavities a surface would enclose.
#[derive(Clone, Copy, Debug, PartialEq, Eq, Structural)]
pub enum VoidPolicy {
    /// Report them and leave the field alone.
    Warn,
    /// Turn those that may hold material into material.
    Fill,
}

/// What the enclosed cavity pass found and did.
#[derive(Debug)]
pub struct VoidReport {
    /// The policy that was in force.
    pub policy: VoidPolicy,
    /// Every cavity found, largest first.
    pub voids: Vec<EnclosedVoid>,
    /// Cells that were turned into material.
    pub filled_cells: usize,
}

/// One connected body of material in the field the surface came from.
#[derive(Clone, Copy, Debug, PartialEq, Eq)]
pub struct SolidBody {
    /// Number of cells in the body.
    pub cells: usize,
    /// Sum of the cells' positions along each axis, counted in cells. Their mean
    /// is half a cell short of the body's centroid.
    pub index_sum: [u128; 3],
}

/// Which connected body of material every cell belongs to.
#[derive(Debug)]
pub struct BodyLabels {
    /// Body index of every cell in grid element order, `None` where the cell
    /// holds no material at the threshold the labelling used.
    pub of_cell: Vec<Option<usize>>,
    /// Number of bodies found. Labels run from zero to one below it, in the
    /// scan order of their first cell.
    pub bodies: usize,
}

/// The statistics of a set of cells.
pub open spec fn described(grid: &Grid, member: spec_fn(int) -> bool, found: EnclosedVoid) -> bool {
    &&& found.cells == tally(grid.len(), where_member(member, |c: int| 1))
    &&& found.index_sum[0] == tally(grid.len(), where_member(member, |c: int| grid.x(c)))
    &&& found.index_sum[1] == tally(grid.len(), where_member(member, |c: int| grid.y(c)))
    &&& found.index_sum[2] == tally(grid.len(), where_member(member, |c: int| grid.z(c)))
    &&& found.fillable <==> (forall|c: int| #[trigger]
        member(c) ==> grid.cells@[c] != CellKind::Void)
}

/// One cell more in a list adds that cell's weight to the list's sum.
proof fn lemma_tally_list_push(
    n: int,
    cells: Seq<usize>,
    last: usize,
    value: spec_fn(int) -> int,
)
    requires
        last < n,
        !lists(cells, last as int),
    ensures
        tally(n, where_member(|c: int| lists(cells.push(last), c), value)) == tally(
            n,
            where_member(|c: int| lists(cells, c), value),
        ) + value(last as int),
{
    let a = where_member(|c: int| lists(cells, c), value);
    let b = where_member(|c: int| lists(cells.push(last), c), value);
    assert forall|c: int| 0 <= c < n && c != last implies #[trigger] a(c) == b(c) by {
        lemma_lists_push(cells, last, c);
    }
    lemma_lists_push(cells, last, last as int);
    lemma_tally_differs_at(n, a, b, last as int);
}

/// Statistics of one cavity.
fn describe(grid: &Grid, group: &Vec<usize>) -> (found: EnclosedVoid)
    requires
        grid.wf(),
        group@.no_duplicates(),
        forall|s: int| 0 <= s < group@.len() ==> grid.holds(#[trigger] group@[s] as int),
    ensures
        described(grid, |c: int| lists(group@, c), found),
        found.cells == group@.len(),
{
    let mut x: u128 = 0;
    let mut y: u128 = 0;
    let mut z: u128 = 0;
    let mut fillable: bool = true;
    let mut s: usize = 0;
    let ghost n = grid.len();
    proof {
        let none = |c: int| lists(group@.take(0), c);
        lemma_tally_nothing(n, where_member(none, |c: int| 1));
        lemma_tally_nothing(n, where_member(none, |c: int| grid.x(c)));
        lemma_tally_nothing(n, where_member(none, |c: int| grid.y(c)));
        lemma_tally_nothing(n, where_member(none, |c: int| grid.z(c)));
    }
    while s < group.len()
        invariant
            grid.wf(),
            n == grid.len(),
            group@.no_duplicates(),
            forall|s: int| 0 <= s < group@.len() ==> grid.holds(#[trigger] group@[s] as int),
            s <= group@.len(),
            x <= s * usize::MAX,
            y <= s * usize::MAX,
            z <= s * usize::MAX,
            s == tally(n, where_member(|c: int| lists(group@.take(s as int), c), |c: int| 1)),
            x == tally(
                n,
                where_member(|c: int| lists(group@.take(s as int), c), |c: int| grid.x(c)),
            ),
            y == tally(
                n,
                where_member(|c: int| lists(group@.take(s as int), c), |c: int| grid.y(c)),
            ),
            z == tally(
                n,
                where_member(|c: int| lists(group@.take(s as int), c), |c: int| grid.z(c)),
            ),
            fillable <==> (forall|t: int|
                0 <= t < s ==> grid.cells@[#[trigger] group@[t] as int] != CellKind::Void),
        decreases group@.len() - s,
    {
        let cell: usize = group[s];
        let (i, j, k) = grid.cell_ijk(cell);
        proof {
            let head = group@.take(s as int);
            assert(group@.take(s + 1) =~= head.push(cell));
            assert(!lists(head, cell as int)) by {
                if lists(head, cell as int) {
                    let t = choose|t: int| 0 <= t < head.len() && #[trigger] head[t] == cell;
                    assert(group@[t] == group@[s as int]);
                }
            }
            lemma_tally_list_push(n, head, cell, |c: int| 1);
            lemma_tally_list_push(n, head, cell, |c: int| grid.x(c));
            lemma_tally_list_push(n, head, cell, |c: int| grid.y(c));
            lemma_tally_list_push(n, head, cell, |c: int| grid.z(c));
            assert((s + 1) * usize::MAX == s * usize::MAX + usize::MAX) by (nonlinear_arith);
            assert((s + 1) * usize::MAX <= u128::MAX) by (nonlinear_arith)
                requires
                    s < usize::MAX,
            ;
        }
        x = x + i as u128;
        y = y + j as u128;
        z = z + k as u128;
        if grid.cells[cell] == CellKind::Void {
            fillable = false;
        }
        s += 1;
    }
    let found = EnclosedVoid { cells: group.len(), index_sum: [x, y, z], fillable };
    proof {
        assert(group@.take(s as int) =~= group@);
        let member = |c: int| lists(group@, c);
        if fillable {
            assert forall|c: int| #[trigger] member(c) implies grid.cells@[c] != CellKind::Void by {
                let t = choose|t: int| 0 <= t < group@.len() && #[trigger] group@[t] == c;
            }
        } else {
            let t = choose|t: int|
                0 <= t < s && grid.cells@[#[trigger] group@[t] as int] == CellKind::Void;
            assert(member(group@[t] as int));
        }
        assert(described(grid, member, found));
    }
    found
}

/// The connected groups of masked cells that hold a wanted cell.
///
/// Each group is a whole connected piece, its first cell the earliest of it and
/// a wanted one; the groups come in the order of their first cells, and every
/// wanted cell is in one of them.
pub open spec fn pieces(
    grid: &Grid,
    mask: Seq<bool>,
    wanted: spec_fn(int) -> bool,
    groups: Seq<Vec<usize>>,
) -> bool {
    &&& forall|g: int|
        #![trigger groups[g]]
        0 <= g < groups.len() ==> piece(grid, mask, groups[g]@) && wanted(groups[g]@[0] as int)
    &&& forall|g: int, h: int|
        #![trigger groups[g], groups[h]]
        0 <= g < h < groups.len() ==> groups[g]@[0] < groups[h]@[0]
    &&& forall|c: int| #[trigger]
        wanted(c) ==> exists|g: int| 0 <= g < groups.len() && lists(#[trigger] groups[g]@, c)
}

/// One whole connected group of masked cells, its earliest cell first.
pub open spec fn piece(grid: &Grid, mask: Seq<bool>, group: Seq<usize>) -> bool {
    &&& group.len() > 0
    &&& group.no_duplicates()
    &&& forall|c: int| #[trigger]
        lists(group, c) <==> connected(grid, mask, group[0] as int, c)
    &&& forall|c: int| #[trigger] lists(group, c) ==> group[0] <= c
}

/// What the field holds in a cell, pinned where the classifier decides.
pub open spec fn density(grid: &Grid, densities: Seq<Scalar>, cell: int) -> Scalar {
    match grid.cells@[cell] {
        CellKind::Void => Scalar { bits: 0 },
        CellKind::Solid => Scalar { bits: ONE_BITS },
        CellKind::Design => densities[cell],
    }
}

/// Which cells are below the iso level.
pub open spec fn empty_cells(grid: &Grid, densities: Seq<Scalar>, iso: Scalar) -> Seq<bool> {
    Seq::new(grid.cells@.len(), |c: int| density(grid, densities, c).below(iso))
}

/// Which cells are at the threshold or above it.
pub open spec fn material_cells(
    grid: &Grid,
    densities: Seq<Scalar>,
    threshold: Scalar,
) -> Seq<bool> {
    Seq::new(grid.cells@.len(), |c: int| threshold.at_most(density(grid, densities, c)))
}

/// A cell that no walk over the masked cells joins to the block's boundary.
pub open spec fn enclosed(grid: &Grid, mask: Seq<bool>, cell: int) -> bool {
    &&& grid.holds(cell)
    &&& mask[cell]
    &&& forall|b: int| #[trigger]
        grid.boundary(b) ==> !connected(grid, mask, cell, b)
}

/// Physical density of one cell: what the field says of a design cell, nothing
/// in a cell that is never material, and full density in one that always is.
pub fn cell_density(grid: &Grid, densities: &Vec<Scalar>, cell: usize) -> (value: Scalar)
    requires
        grid.holds(cell as int),
        densities@.len() >= grid.len(),
    ensures
        value == density(grid, densities@, cell as int),
{
    match grid.cells[cell] {
        CellKind::Void => Scalar { bits: 0 },
        CellKind::Solid => Scalar { bits: ONE_BITS },
        CellKind::Design => densities[cell],
    }
}

/// The cells the outside world can reach through masked cells.
fn reached_from_outside(grid: &Grid, mask: &Vec<bool>) -> (reached: Vec<bool>)
    requires
        grid.wf(),
        mask@.len() == grid.len(),
    ensures
        reached@.len() == grid.len(),
        closed_under(grid, mask@, reached@),
        forall|c: int|
            grid.holds(c) && mask@[c] ==> (#[trigger] reached@[c] <==> !enclosed(grid, mask@, c)),
        forall|c: int| grid.holds(c) && #[trigger] reached@[c] ==> mask@[c],
{
    let n = grid.n_cells();
    let mut reached: Vec<bool> = Vec::new();
    let mut stack: Vec<usize> = Vec::new();
    let mut cell: usize = 0;
    while cell < n
        invariant
            n == grid.len(),
            grid.wf(),
            mask@.len() == grid.len(),
            cell <= n,
            reached@.len() == cell,
            forall|c: int|
                0 <= c < cell ==> #[trigger] reached@[c] == (mask@[c] && grid.boundary(c)),
            forall|c: int| #[trigger]
                lists(stack@, c) <==> 0 <= c < cell && mask@[c] && grid.boundary(c),
        decreases n - cell,
    {
        let outer: bool = mask[cell] && on_boundary(grid, cell);
        if outer {
            proof {
                assert forall|c: int| lists(stack@.push(cell), c) <==> #[trigger] lists(
                    stack@,
                    c,
                ) || c == cell by {
                    lemma_lists_push(stack@, cell, c);
                }
                assert forall|c: int| #[trigger] lists(stack@.push(cell), c) <==> 0 <= c <= cell
                    && mask@[c] && grid.boundary(c) by {
                    lemma_lists_push(stack@, cell, c);
                }
            }
            stack.push(cell);
        }
        reached.push(outer);
        cell += 1;
    }
    let ghost rim = stack@;
    let ghost at_rim = reached@;
    let met = spread(grid, mask, &mut reached, stack);
    proof {
        assert forall|c: int| grid.holds(c) && reached_from(grid, mask@, rim, c) implies !enclosed(
            grid,
            mask@,
            c,
        ) && mask@[c] by {
            let s = choose|s: int|
                0 <= s < rim.len() && connected(grid, mask@, #[trigger] rim[s] as int, c);
            assert(lists(rim, rim[s] as int));
            lemma_connected_ends(grid, mask@, rim[s] as int, c);
            lemma_connected_symmetric(grid, mask@, rim[s] as int, c);
            assert(grid.boundary(rim[s] as int));
        }
        assert forall|c: int| grid.holds(c) && at_rim[c] implies !enclosed(grid, mask@, c) by {
            lemma_connected_reflexive(grid, mask@, c);
            assert(grid.boundary(c));
        }
        assert forall|c: int|
            grid.holds(c) && mask@[c] && !enclosed(grid, mask@, c) implies #[trigger] reached@[c] by {
            let b = choose|b: int| #[trigger]
                grid.boundary(b) && connected(grid, mask@, c, b);
            lemma_connected_symmetric(grid, mask@, c, b);
            lemma_connected_ends(grid, mask@, c, b);
            assert(lists(rim, b));
            let s = choose|s: int| 0 <= s < rim.len() && #[trigger] rim[s] == b;
            assert(connected(grid, mask@, rim[s] as int, c));
        }
    }
    reached
}

/// Group the below-threshold cells that the grid boundary cannot reach.
///
/// Returns one cell list per cavity, in scan order.
fn enclosed_groups(grid: &Grid, densities: &Vec<Scalar>, iso: Scalar) -> (groups: Vec<Vec<usize>>)
    requires
        grid.wf(),
        densities@.len() >= grid.len(),
    ensures
        pieces(
            grid,
            empty_cells(grid, densities@, iso),
            |c: int| enclosed(grid, empty_cells(grid, densities@, iso), c),
            groups@,
        ),
{
    let n = grid.n_cells();
    let question = |e: usize| -> (answer: bool)
        requires
            grid.holds(e as int),
            densities@.len() >= grid.len(),
        ensures
            answer == density(grid, densities@, e as int).below(iso),
        { cell_density(grid, densities, e).lt(iso) };
    let empty = ask_each(n, question);
    proof {
        assert(empty@ =~= empty_cells(grid, densities@, iso)) by {
            assert forall|e: int| 0 <= e < n implies empty@[e] == density(
                grid,
                densities@,
                e,
            ).below(iso) by {
                assert(call_ensures(question, (e as usize,), empty@[(e as usize) as int]));
            }
        }
    }
    let reached = reached_from_outside(grid, &empty);
    let ghost outer = reached@;
    let groups = components(grid, &empty, reached);
    proof {
        let inner = |c: int| enclosed(grid, empty@, c);
        let left = |c: int| grid.holds(c) && empty@[c] && !outer[c];
        assert forall|c: int| #[trigger] inner(c) <==> left(c) by {
            if grid.holds(c) && empty@[c] {
                assert(outer[c] <==> !enclosed(grid, empty@, c));
            }
        }
        assert(inner =~= left);
    }
    groups
}

/// What a fill from one cell outside a closed set marks is that cell's piece.
proof fn lemma_component(
    grid: &Grid,
    mask: Seq<bool>,
    before: Seq<bool>,
    seed: usize,
    after: Seq<bool>,
    rest: Seq<usize>,
)
    requires
        grid.holds(seed as int),
        before.len() == grid.len(),
        after.len() == grid.len(),
        mask[seed as int],
        !before[seed as int],
        closed_under(grid, mask, before),
        forall|c: int| #![trigger before[c]] 0 <= c < seed && mask[c] ==> before[c],
        forall|c: int|
            grid.holds(c) ==> (#[trigger] after[c] <==> before.update(seed as int, true)[c]
                || reached_from(grid, mask, seq![seed], c)),
        rest.no_duplicates(),
        forall|c: int| #[trigger]
            lists(rest, c) <==> grid.holds(c) && after[c] && !before.update(seed as int, true)[c],
    ensures
        piece(grid, mask, seq![seed] + rest),
        forall|c: int| #[trigger]
            lists(seq![seed] + rest, c) <==> grid.holds(c) && after[c] && !before[c],
{
    let group = seq![seed] + rest;
    assert(group[0] == seed);
    assert forall|c: int| #[trigger] lists(group, c) <==> c == seed || lists(rest, c) by {
        if lists(rest, c) {
            let s = choose|s: int| 0 <= s < rest.len() && #[trigger] rest[s] == c;
            assert(group[s + 1] == c);
        }
        if lists(group, c) && c != seed {
            let s = choose|s: int| 0 <= s < group.len() && #[trigger] group[s] == c;
            assert(rest[s - 1] == c);
        }
    }
    assert forall|c: int| #[trigger] reached_from(grid, mask, seq![seed], c) <==> connected(
        grid,
        mask,
        seed as int,
        c,
    ) by {
        if connected(grid, mask, seed as int, c) {
            assert(seq![seed][0] == seed);
        }
    }
    lemma_connected_reflexive(grid, mask, seed as int);
    assert forall|c: int| connected(grid, mask, seed as int, c) implies !before[c] && grid.holds(c)
        && c >= seed by {
        lemma_connected_ends(grid, mask, seed as int, c);
        if before[c] {
            lemma_connected_symmetric(grid, mask, seed as int, c);
            lemma_closed_keeps_walks(grid, mask, before, c, seed as int);
        }
    }
    assert(group.no_duplicates()) by {
        assert(!lists(rest, seed as int));
        assert forall|s: int, t: int| 0 <= s < t < group.len() implies group[s] != group[t] by {
            assert(rest[t - 1] == group[t]);
            if s > 0 {
                assert(rest[s - 1] == group[s]);
            }
        }
    }
}

/// Every connected group of the masked cells that are not marked, in scan order.
fn components(grid: &Grid, mask: &Vec<bool>, marked: Vec<bool>) -> (groups: Vec<Vec<usize>>)
    requires
        grid.wf(),
        mask@.len() == grid.len(),
        marked@.len() == grid.len(),
        closed_under(grid, mask@, marked@),
    ensures
        pieces(grid, mask@, |c: int| grid.holds(c) && mask@[c] && !marked@[c], groups@),
{
    let n = grid.n_cells();
    let ghost skip = marked@;
    let mut seen: Vec<bool> = marked;
    let mut groups: Vec<Vec<usize>> = Vec::new();
    let mut seed: usize = 0;
    while seed < n
        invariant
            n == grid.len(),
            seed <= n,
            grid.wf(),
            mask@.len() == grid.len(),
            skip.len() == grid.len(),
            seen@.len() == grid.len(),
            closed_under(grid, mask@, seen@),
            forall|c: int| grid.holds(c) && skip[c] ==> #[trigger] seen@[c],
            forall|c: int| #![trigger seen@[c]] 0 <= c < seed && mask@[c] ==> seen@[c],
            forall|g: int|
                #![trigger groups@[g]]
                0 <= g < groups@.len() ==> piece(grid, mask@, groups@[g]@)
                    && !skip[groups@[g]@[0] as int] && groups@[g]@[0] < seed,
            forall|g: int, h: int|
                #![trigger groups@[g], groups@[h]]
                0 <= g < h < groups@.len() ==> groups@[g]@[0] < groups@[h]@[0],
            forall|c: int|
                #![trigger seen@[c]]
                grid.holds(c) && seen@[c] && !skip[c] ==> exists|g: int|
                    0 <= g < groups@.len() && lists(#[trigger] groups@[g]@, c),
        decreases n - seed,
    {
        if mask[seed] && !seen[seed] {
            let ghost before = seen@;
            let ghost so_far = groups@;
            let mut start: Vec<usize> = Vec::new();
            start.push(seed);
            seen.set(seed, true);
            proof {
                assert forall|c: int| #[trigger] lists(start@, c) implies c == seed by {
                    lemma_lists_push(Seq::<usize>::empty(), seed, c);
                    assert(start@ =~= Seq::<usize>::empty().push(seed));
                }
                assert(start@[0] == seed);
                assert(lists(start@, seed as int));
            }
            assert(start@ =~= seq![seed]);
            let mut rest: Vec<usize> = spread(grid, mask, &mut seen, start);
            proof {
                lemma_component(grid, mask@, before, seed, seen@, rest@);
            }
            let ghost listed = rest@;
            let mut group: Vec<usize> = Vec::new();
            group.push(seed);
            group.append(&mut rest);
            assert(group@ =~= seq![seed] + listed);
            groups.push(group);
            proof {
                assert forall|c: int|
                    #![trigger seen@[c]]
                    grid.holds(c) && seen@[c] && !skip[c] implies exists|g: int|
                        0 <= g < groups@.len() && lists(#[trigger] groups@[g]@, c) by {
                    if before[c] {
                        let g = choose|g: int|
                            0 <= g < so_far.len() && lists(#[trigger] so_far[g]@, c);
                        assert(groups@[g] == so_far[g]);
                    } else {
                        assert(lists(groups@[so_far.len() as int]@, c));
                    }
                }
            }
        }
        seed += 1;
    }
    proof {
        let left = |c: int| grid.holds(c) && mask@[c] && !skip[c];
        assert forall|g: int| #![trigger groups@[g]] 0 <= g < groups@.len() implies left(
            groups@[g]@[0] as int,
        ) by {
            let first = groups@[g]@[0];
            assert(lists(groups@[g]@, first as int));
            lemma_connected_ends(grid, mask@, first as int, first as int);
        }
        assert forall|c: int| #[trigger] left(c) implies exists|g: int|
            0 <= g < groups@.len() && lists(#[trigger] groups@[g]@, c) by {
            assert(seen@[c]);
        }
        assert(pieces(grid, mask@, left, groups@));
    }
    groups
}

/// One cavity before another: the larger first, and the earlier first where
/// they are of one size.
pub open spec fn comes_first(cells_a: int, at_a: int, cells_b: int, at_b: int) -> bool {
    cells_a > cells_b || (cells_a == cells_b && at_a < at_b)
}

/// `order` reads a list out largest first, and in list order among equals.
spec fn largest_first_order(found: Seq<EnclosedVoid>, order: Seq<int>) -> bool {
    &&& order.len() == found.len()
    &&& order.no_duplicates()
    &&& forall|a: int| 0 <= a < order.len() ==> 0 <= #[trigger] order[a] < found.len()
    &&& forall|a: int, b: int|
        #![trigger order[a], order[b]]
        0 <= a < b < order.len() ==> comes_first(
            found[order[a]].cells as int,
            order[a],
            found[order[b]].cells as int,
            order[b],
        )
}

/// Put cavities in order, largest first, equals kept in the order they came in.
fn largest_first(found: &Vec<EnclosedVoid>) -> (sorted: Vec<EnclosedVoid>)
    ensures
        exists|order: Seq<int>| #[trigger]
            largest_first_order(found@, order) && sorted@ == order.map_values(
                |at: int| found@[at],
            ),
{
    let mut sorted: Vec<EnclosedVoid> = Vec::new();
    let ghost mut order: Seq<int> = Seq::empty();
    let mut next: usize = 0;
    while next < found.len()
        invariant
            next <= found@.len(),
            largest_first_order(found@.take(next as int), order),
            sorted@ == order.map_values(|at: int| found@[at]),
        decreases found@.len() - next,
    {
        let cavity = found[next];
        let mut place: usize = sorted.len();
        while place > 0 && sorted[place - 1].cells < cavity.cells
            invariant
                place <= sorted@.len(),
                forall|a: int| place <= a < sorted@.len() ==> (#[trigger] sorted@[a]).cells < cavity.cells,
            decreases place,
        {
            place -= 1;
        }
        let ghost shorter = order;
        let ghost listed = sorted@;
        sorted.insert(place, cavity);
        proof {
            order = order.insert(place as int, next as int);
            assert forall|a: int| place <= a < shorter.len() implies found@[#[trigger] shorter[a]].cells
                < cavity.cells by {
                assert(listed[a] == found@[shorter[a]]);
            }
            lemma_insert_keeps_order(found@, next as int, shorter, place as int);
            assert(sorted@ =~= order.map_values(|at: int| found@[at]));
        }
        next += 1;
    }
    assert(found@.take(next as int) =~= found@);
    sorted
}

/// Putting the next cavity behind every larger or equal one keeps the order.
proof fn lemma_insert_keeps_order(
    found: Seq<EnclosedVoid>,
    next: int,
    order: Seq<int>,
    place: int,
)
    requires
        0 <= next < found.len(),
        largest_first_order(found.take(next), order),
        0 <= place <= order.len(),
        forall|a: int|
            place <= a < order.len() ==> found[#[trigger] order[a]].cells < found[next].cells,
        place > 0 ==> found[order[place - 1]].cells >= found[next].cells,
    ensures
        largest_first_order(found.take(next + 1), order.insert(place, next)),
{
    let head = found.take(next);
    let longer = found.take(next + 1);
    let after = order.insert(place, next);
    let source = |a: int| if a < place { a } else { a - 1 };
    assert forall|a: int| 0 <= a < after.len() && a != place implies #[trigger] after[a]
        == order[source(a)] && 0 <= after[a] < next && head[after[a]] == longer[after[a]] by {}
    assert(after[place] == next);
    assert forall|a: int| 0 <= a < place implies found[#[trigger] order[a]].cells
        >= found[next].cells by {
        if a < place - 1 {
            assert(order[place - 1] < next);
            assert(comes_first(
                head[order[a]].cells as int,
                order[a],
                head[order[place - 1]].cells as int,
                order[place - 1],
            ));
        }
    }
    assert forall|a: int, b: int|
        #![trigger after[a], after[b]]
        0 <= a < b < after.len() implies comes_first(
        longer[after[a]].cells as int,
        after[a],
        longer[after[b]].cells as int,
        after[b],
    ) by {
        if a != place && b != place {
            assert(comes_first(
                head[order[source(a)]].cells as int,
                order[source(a)],
                head[order[source(b)]].cells as int,
                order[source(b)],
            ));
        } else if a == place {
            assert(found[order[b - 1]].cells < found[next].cells);
        } else {
            assert(found[order[a]].cells >= found[next].cells);
        }
    }
    assert forall|a: int, b: int| 0 <= a < b < after.len() implies after[a] != after[b] by {
        if a != place && b != place {
            assert(order[source(a)] != order[source(b)]);
        }
    }
}


/// The earliest cell of a piece that holds a wanted cell.
pub open spec fn first_of_piece(
    grid: &Grid,
    mask: Seq<bool>,
    wanted: spec_fn(int) -> bool,
    cell: int,
) -> bool {
    &&& wanted(cell)
    &&& forall|d: int| #[trigger] connected(grid, mask, cell, d) ==> cell <= d
}

/// `found` has the statistics of every piece that holds a wanted cell, largest
/// first and in scan order among equals; `seeds` are their earliest cells.
pub open spec fn listing(
    grid: &Grid,
    mask: Seq<bool>,
    wanted: spec_fn(int) -> bool,
    seeds: Seq<int>,
    found: Seq<EnclosedVoid>,
) -> bool {
    &&& seeds.len() == found.len()
    &&& seeds.no_duplicates()
    &&& forall|c: int| #[trigger]
        seeds.contains(c) <==> first_of_piece(grid, mask, wanted, c)
    &&& forall|v: int|
        #![trigger found[v]]
        0 <= v < found.len() ==> described(
            grid,
            |c: int| connected(grid, mask, seeds[v], c),
            found[v],
        )
    &&& forall|a: int, b: int|
        #![trigger found[a], found[b]]
        0 <= a < b < found.len() ==> comes_first(
            found[a].cells as int,
            seeds[a],
            found[b].cells as int,
            seeds[b],
        )
}

/// A list of `n` distinct numbers below `n` has all of them.
proof fn lemma_permutation(order: Seq<int>, n: int)
    requires
        order.no_duplicates(),
        order.len() == n,
        forall|a: int| 0 <= a < order.len() ==> 0 <= #[trigger] order[a] < n,
    ensures
        forall|g: int| 0 <= g < n ==> #[trigger] order.contains(g),
{
    order.unique_seq_to_set();
    vstd::set_lib::lemma_int_range(0, n);
    let range = vstd::set_lib::set_int_range(0, n);
    assert(order.to_set().subset_of(range));
    vstd::set_lib::lemma_subset_equality(order.to_set(), range);
    assert forall|g: int| 0 <= g < n implies #[trigger] order.contains(g) by {
        assert(range.contains(g));
        assert(order.to_set().contains(g));
    }
}

/// The statistics of pieces, read out largest first, are their listing.
proof fn lemma_listing(
    grid: &Grid,
    mask: Seq<bool>,
    wanted: spec_fn(int) -> bool,
    groups: Seq<Vec<usize>>,
    all: Seq<EnclosedVoid>,
    order: Seq<int>,
)
    requires
        pieces(grid, mask, wanted, groups),
        all.len() == groups.len(),
        forall|g: int|
            #![trigger groups[g]]
            0 <= g < groups.len() ==> described(grid, |c: int| lists(groups[g]@, c), all[g]),
        largest_first_order(all, order),
    ensures
        listing(
            grid,
            mask,
            wanted,
            order.map_values(|g: int| groups[g]@[0] as int),
            order.map_values(|g: int| all[g]),
        ),
{
    let seeds = order.map_values(|g: int| groups[g]@[0] as int);
    let found = order.map_values(|g: int| all[g]);
    lemma_permutation(order, all.len() as int);
    assert forall|a: int, b: int| 0 <= a < b < seeds.len() implies seeds[a] != seeds[b] by {
        assert(order[a] != order[b]);
        let (g, h) = (order[a], order[b]);
        if g < h {
            assert(groups[g]@[0] < groups[h]@[0]);
        } else {
            assert(groups[h]@[0] < groups[g]@[0]);
        }
    }
    assert forall|c: int| #[trigger] seeds.contains(c) <==> first_of_piece(
        grid,
        mask,
        wanted,
        c,
    ) by {
        if seeds.contains(c) {
            let a = choose|a: int| 0 <= a < seeds.len() && seeds[a] == c;
            let group = groups[order[a]]@;
            assert forall|d: int| #[trigger] connected(grid, mask, c, d) implies c <= d by {
                assert(lists(group, d));
            }
        }
        if first_of_piece(grid, mask, wanted, c) {
            let g = choose|g: int| 0 <= g < groups.len() && lists(#[trigger] groups[g]@, c);
            let group = groups[g]@;
            assert(connected(grid, mask, group[0] as int, c));
            lemma_connected_symmetric(grid, mask, group[0] as int, c);
            assert(group[0] == c);
            assert(order.contains(g));
            let a = choose|a: int| 0 <= a < order.len() && order[a] == g;
            assert(seeds[a] == c);
        }
    }
    assert forall|v: int| #![trigger found[v]] 0 <= v < found.len() implies described(
        grid,
        |c: int| connected(grid, mask, seeds[v], c),
        found[v],
    ) by {
        let group = groups[order[v]]@;
        let listed = |c: int| lists(group, c);
        let joined = |c: int| connected(grid, mask, seeds[v], c);
        assert forall|c: int| #[trigger] listed(c) == joined(c) by {}
        assert(listed =~= joined);
    }
    assert forall|a: int, b: int|
        #![trigger found[a], found[b]]
        0 <= a < b < found.len() implies comes_first(
        found[a].cells as int,
        seeds[a],
        found[b].cells as int,
        seeds[b],
    ) by {
        let (g, h) = (order[a], order[b]);
        assert(comes_first(all[g].cells as int, g, all[h].cells as int, h));
        if g < h {
            assert(groups[g]@[0] < groups[h]@[0]);
        }
    }
}

/// Statistics of every group, in the order of the groups.
fn describe_all(
    grid: &Grid,
    groups: &Vec<Vec<usize>>,
    Ghost(mask): Ghost<Seq<bool>>,
) -> (all: Vec<EnclosedVoid>)
    requires
        grid.wf(),
        forall|g: int|
            #![trigger groups@[g]]
            0 <= g < groups@.len() ==> piece(grid, mask, groups@[g]@),
    ensures
        all@.len() == groups@.len(),
        forall|g: int|
            #![trigger groups@[g]]
            0 <= g < groups@.len() ==> described(
                grid,
                |c: int| lists(groups@[g]@, c),
                all@[g],
            ) && all@[g].cells == groups@[g]@.len(),
{
    let mut all: Vec<EnclosedVoid> = Vec::new();
    let mut next: usize = 0;
    while next < groups.len()
        invariant
            grid.wf(),
            forall|g: int|
                #![trigger groups@[g]]
                0 <= g < groups@.len() ==> piece(grid, mask, groups@[g]@),
            next <= groups@.len(),
            all@.len() == next,
            forall|g: int|
                #![trigger groups@[g]]
                0 <= g < next ==> described(grid, |c: int| lists(groups@[g]@, c), all@[g])
                    && all@[g].cells == groups@[g]@.len(),
        decreases groups@.len() - next,
    {
        proof {
            let group = groups@[next as int]@;
            assert forall|s: int| 0 <= s < group.len() implies grid.holds(
                #[trigger] group[s] as int,
            ) by {
                assert(lists(group, group[s] as int));
                lemma_connected_ends(grid, mask, group[0] as int, group[s] as int);
            }
        }
        all.push(describe(grid, &groups[next]));
        next += 1;
    }
    all
}

/// Find every cavity the surface at `iso` would enclose, largest first.
pub fn detect(grid: &Grid, densities: &Vec<Scalar>, iso: Scalar) -> (voids: Vec<EnclosedVoid>)
    requires
        grid.wf(),
        densities@.len() >= grid.len(),
    ensures
        exists|seeds: Seq<int>|
            cavity_listing(grid, empty_cells(grid, densities@, iso), seeds, voids@),
{
    let ghost mask = empty_cells(grid, densities@, iso);
    let groups = enclosed_groups(grid, densities, iso);
    let all = describe_all(grid, &groups, Ghost(mask));
    let voids = largest_first(&all);
    proof {
        let order = choose|order: Seq<int>| #[trigger]
            largest_first_order(all@, order) && voids@ == order.map_values(|at: int| all@[at]);
        lemma_listing(
            grid,
            mask,
            |c: int| enclosed(grid, mask, c),
            groups@,
            all@,
            order,
        );
        assert(voids@ =~= order.map_values(|g: int| all@[g]));
        let seeds = order.map_values(|g: int| groups@[g]@[0] as int);
        assert(cavity_listing(grid, mask, seeds, voids@));
    }
    voids
}

/// The listing of a mask's enclosed pieces.
pub open spec fn cavity_listing(
    grid: &Grid,
    mask: Seq<bool>,
    seeds: Seq<int>,
    voids: Seq<EnclosedVoid>,
) -> bool {
    listing(grid, mask, |c: int| enclosed(grid, mask, c), seeds, voids)
}

/// No cell is in two pieces.
proof fn lemma_pieces_apart(
    grid: &Grid,
    mask: Seq<bool>,
    wanted: spec_fn(int) -> bool,
    groups: Seq<Vec<usize>>,
    g: int,
    h: int,
    cell: int,
)
    requires
        pieces(grid, mask, wanted, groups),
        0 <= g < groups.len(),
        0 <= h < groups.len(),
        lists(groups[g]@, cell),
        lists(groups[h]@, cell),
    ensures
        g == h,
{
    let (a, b) = (groups[g]@[0] as int, groups[h]@[0] as int);
    lemma_connected_symmetric(grid, mask, a, cell);
    lemma_connected_symmetric(grid, mask, b, cell);
    lemma_connected_transitive(grid, mask, a, cell, b);
    lemma_connected_transitive(grid, mask, b, cell, a);
    assert(lists(groups[g]@, b));
    assert(lists(groups[h]@, a));
    if g < h {
        assert(groups[g]@[0] < groups[h]@[0]);
    } else if h < g {
        assert(groups[h]@[0] < groups[g]@[0]);
    }
}

/// A labelling: every material cell has a label and nothing else has, two of
/// them have one label exactly when a walk joins them, and the labels count up
/// with the first cells of the bodies.
pub open spec fn labelling(
    grid: &Grid,
    mask: Seq<bool>,
    of_cell: Seq<Option<usize>>,
    bodies: int,
) -> bool {
    &&& of_cell.len() == grid.len()
    &&& forall|c: int|
        #![trigger of_cell[c]]
        grid.holds(c) ==> (of_cell[c] is Some <==> mask[c])
    &&& forall|a: int, b: int|
        #![trigger of_cell[a], of_cell[b]]
        grid.holds(a) && grid.holds(b) && mask[a] && mask[b] ==> (of_cell[a] == of_cell[b]
            <==> connected(grid, mask, a, b))
    &&& exists|firsts: Seq<int>| #[trigger] first_cells(of_cell, firsts) && firsts.len() == bodies
}

/// `firsts` are the earliest cells of the labels, in the order of the labels,
/// which is the order of the cells.
pub open spec fn first_cells(of_cell: Seq<Option<usize>>, firsts: Seq<int>) -> bool {
    &&& forall|l: int, m: int|
        #![trigger firsts[l], firsts[m]]
        0 <= l < m < firsts.len() ==> firsts[l] < firsts[m]
    &&& forall|l: int|
        #![trigger firsts[l]]
        0 <= l < firsts.len() ==> 0 <= firsts[l] < of_cell.len() && of_cell[firsts[l]] == Some(
            l as usize,
        )
    &&& forall|c: int|
        #![trigger of_cell[c]]
        0 <= c < of_cell.len() ==> match of_cell[c] {
            Some(l) => l < firsts.len() && firsts[l as int] <= c,
            None => true,
        }
}

/// Label every cell with the connected body of material it belongs to.
///
/// `threshold` is the physical density a cell needs to count as material at all,
/// which is the iso level for the exported bodies and something far lower for
/// "is there any stiffness on this path".
pub fn body_labels(grid: &Grid, densities: &Vec<Scalar>, threshold: Scalar) -> (labels: BodyLabels)
    requires
        grid.wf(),
        densities@.len() >= grid.len(),
    ensures
        labelling(
            grid,
            material_cells(grid, densities@, threshold),
            labels.of_cell@,
            labels.bodies as int,
        ),
{
    let ghost mask = material_cells(grid, densities@, threshold);
    let groups = material_groups(grid, densities, threshold);
    let n = grid.n_cells();
    let mut of_cell: Vec<Option<usize>> = Vec::new();
    let mut cell: usize = 0;
    while cell < n
        invariant
            cell <= n,
            of_cell@.len() == cell,
            forall|c: int| 0 <= c < cell ==> #[trigger] of_cell@[c] is None,
        decreases n - cell,
    {
        of_cell.push(None);
        cell += 1;
    }
    let mut g: usize = 0;
    assert(numbered(grid, groups@, of_cell@, 0, Seq::empty()));
    while g < groups.len()
        invariant
            n == grid.len(),
            pieces(grid, mask, |c: int| grid.holds(c) && mask[c], groups@),
            g <= groups@.len(),
            numbered(grid, groups@, of_cell@, g, Seq::empty()),
        decreases groups@.len() - g,
    {
        let mut s: usize = 0;
        let ghost group = groups@[g as int]@;
        assert(group.take(0) =~= Seq::empty());
        while s < groups[g].len()
            invariant
                n == grid.len(),
                pieces(grid, mask, |c: int| grid.holds(c) && mask[c], groups@),
                g < groups@.len(),
                group == groups@[g as int]@,
                s <= group.len(),
                numbered(grid, groups@, of_cell@, g, group.take(s as int)),
            decreases group.len() - s,
        {
            let member: usize = groups[g][s];
            proof {
                lemma_number_one(grid, mask, groups@, of_cell@, g, s as int);
            }
            of_cell.set(member, Some(g));
            s += 1;
        }
        proof {
            assert(group.take(s as int) =~= group);
            lemma_number_next(grid, groups@, of_cell@, g);
        }
        g += 1;
    }
    proof {
        lemma_labelling(grid, mask, groups@, of_cell@);
    }
    BodyLabels { of_cell, bodies: groups.len() }
}

/// The cells of the first `g` groups carry their group's number, those of
/// `head` carry `g`, and no other cell carries a number.
spec fn numbered(
    grid: &Grid,
    groups: Seq<Vec<usize>>,
    of_cell: Seq<Option<usize>>,
    g: usize,
    head: Seq<usize>,
) -> bool {
    &&& of_cell.len() == grid.len()
    &&& forall|c: int|
        #![trigger of_cell[c]]
        grid.holds(c) ==> match of_cell[c] {
            Some(l) => (l < g && lists(groups[l as int]@, c)) || (l == g && lists(head, c)),
            None => !lists(head, c),
        }
    &&& forall|c: int, l: int|
        #![trigger of_cell[c], groups[l]]
        grid.holds(c) && 0 <= l < g && of_cell[c] is None ==> !lists(groups[l]@, c)
}

/// Numbering one more cell of a group.
proof fn lemma_number_one(
    grid: &Grid,
    mask: Seq<bool>,
    groups: Seq<Vec<usize>>,
    of_cell: Seq<Option<usize>>,
    g: usize,
    s: int,
)
    requires
        pieces(grid, mask, |c: int| grid.holds(c) && mask[c], groups),
        g < groups.len(),
        0 <= s < groups[g as int]@.len(),
        numbered(grid, groups, of_cell, g, groups[g as int]@.take(s)),
    ensures
        grid.holds(groups[g as int]@[s] as int),
        numbered(
            grid,
            groups,
            of_cell.update(groups[g as int]@[s] as int, Some(g)),
            g,
            groups[g as int]@.take(s + 1),
        ),
{
    let group = groups[g as int]@;
    let member = group[s];
    let head = group.take(s);
    let after = of_cell.update(member as int, Some(g));
    assert(piece(grid, mask, group));
    assert(lists(group, member as int));
    lemma_connected_ends(grid, mask, group[0] as int, member as int);
    assert(group.take(s + 1) =~= head.push(member));
    assert forall|c: int|
        #![trigger after[c]]
        grid.holds(c) implies match after[c] {
        Some(l) => (l < g && lists(groups[l as int]@, c)) || (l == g && lists(
            head.push(member),
            c,
        )),
        None => !lists(head.push(member), c),
    } by {
        lemma_lists_push(head, member, c);
        if c != member {
            assert(after[c] == of_cell[c]);
        }
    }
    assert forall|c: int, l: int|
        #![trigger after[c], groups[l]]
        grid.holds(c) && 0 <= l < g && after[c] is None implies !lists(groups[l]@, c) by {
        assert(after[c] == of_cell[c]);
    }
}

/// A whole group numbered is one more group numbered.
proof fn lemma_number_next(
    grid: &Grid,
    groups: Seq<Vec<usize>>,
    of_cell: Seq<Option<usize>>,
    g: usize,
)
    requires
        g < groups.len(),
        g < usize::MAX,
        numbered(grid, groups, of_cell, g, groups[g as int]@),
    ensures
        numbered(grid, groups, of_cell, (g + 1) as usize, Seq::empty()),
{
    assert forall|c: int, l: int|
        #![trigger of_cell[c], groups[l]]
        grid.holds(c) && 0 <= l < g + 1 && of_cell[c] is None implies !lists(groups[l]@, c) by {
        if l == g {
            assert(!lists(groups[g as int]@, c));
        }
    }
}

/// Numbering pieces in their order labels their cells.
proof fn lemma_labelling(
    grid: &Grid,
    mask: Seq<bool>,
    groups: Seq<Vec<usize>>,
    of_cell: Seq<Option<usize>>,
)
    requires
        groups.len() <= usize::MAX,
        pieces(grid, mask, |c: int| grid.holds(c) && mask[c], groups),
        of_cell.len() == grid.len(),
        numbered(grid, groups, of_cell, groups.len() as usize, Seq::empty()),
    ensures
        labelling(grid, mask, of_cell, groups.len() as int),
{
    let material = |c: int| grid.holds(c) && mask[c];
    assert forall|c: int| #![trigger of_cell[c]] grid.holds(c) && mask[c] implies of_cell[c] is Some by {
        assert(material(c));
        let g = choose|g: int| 0 <= g < groups.len() && lists(#[trigger] groups[g]@, c);
        assert(0 <= g < groups.len() as usize);
    }
    assert forall|c: int| #![trigger of_cell[c]] grid.holds(c) && of_cell[c] is Some implies mask[c]
        && lists(groups[of_cell[c]->0 as int]@, c) && connected(
        grid,
        mask,
        groups[of_cell[c]->0 as int]@[0] as int,
        c,
    ) by {
        let l = of_cell[c]->0;
        assert(lists(groups[l as int]@, c));
        lemma_connected_ends(grid, mask, groups[l as int]@[0] as int, c);
    }
    assert forall|a: int, b: int|
        #![trigger of_cell[a], of_cell[b]]
        grid.holds(a) && grid.holds(b) && mask[a] && mask[b] implies (of_cell[a] == of_cell[b]
        <==> connected(grid, mask, a, b)) by {
        let (l, m) = (of_cell[a]->0, of_cell[b]->0);
        let (first, second) = (groups[l as int]@[0] as int, groups[m as int]@[0] as int);
        lemma_connected_symmetric(grid, mask, first, a);
        if l == m {
            lemma_connected_transitive(grid, mask, a, first, b);
        }
        if connected(grid, mask, a, b) {
            lemma_connected_transitive(grid, mask, first, a, b);
            assert(lists(groups[l as int]@, b));
            lemma_pieces_apart(grid, mask, material, groups, l as int, m as int, b);
        }
    }
    let firsts = Seq::new(groups.len(), |l: int| groups[l]@[0] as int);
    assert forall|l: int|
        #![trigger firsts[l]]
        0 <= l < firsts.len() implies 0 <= firsts[l] < of_cell.len() && of_cell[firsts[l]] == Some(
        l as usize,
    ) by {
        let group = groups[(l as usize) as int]@;
        assert(lists(group, group[0] as int));
        lemma_connected_ends(grid, mask, group[0] as int, group[0] as int);
        let m = of_cell[firsts[l]]->0;
        lemma_pieces_apart(grid, mask, material, groups, l, m as int, firsts[l]);
    }
    assert(first_cells(of_cell, firsts));
}

/// The connected groups of material cells, in scan order.
fn material_groups(grid: &Grid, densities: &Vec<Scalar>, threshold: Scalar) -> (groups: Vec<
    Vec<usize>,
>)
    requires
        grid.wf(),
        densities@.len() >= grid.len(),
    ensures
        pieces(
            grid,
            material_cells(grid, densities@, threshold),
            |c: int| grid.holds(c) && material_cells(grid, densities@, threshold)[c],
            groups@,
        ),
{
    let n = grid.n_cells();
    let question = |e: usize| -> (answer: bool)
        requires
            grid.holds(e as int),
            densities@.len() >= grid.len(),
        ensures
            answer == threshold.at_most(density(grid, densities@, e as int)),
        { threshold.le(cell_density(grid, densities, e)) };
    let material = ask_each(n, question);
    proof {
        assert(material@ =~= material_cells(grid, densities@, threshold)) by {
            assert forall|e: int| 0 <= e < n implies material@[e] == threshold.at_most(
                density(grid, densities@, e),
            ) by {
                assert(call_ensures(question, (e as usize,), material@[(e as usize) as int]));
            }
        }
    }
    let mut marked: Vec<bool> = Vec::new();
    let mut cell: usize = 0;
    while cell < n
        invariant
            cell <= n,
            marked@.len() == cell,
            forall|c: int| 0 <= c < cell ==> !(#[trigger] marked@[c]),
        decreases n - cell,
    {
        marked.push(false);
        cell += 1;
    }
    let ghost none = marked@;
    let groups = components(grid, &material, marked);
    proof {
        let left = |c: int| grid.holds(c) && material@[c] && !none[c];
        let all = |c: int| grid.holds(c) && material@[c];
        assert forall|c: int| #[trigger] left(c) == all(c) by {}
        assert(left =~= all);
    }
    groups
}

/// What a body keeps of the statistics of its cells.
pub open spec fn body_of(found: EnclosedVoid) -> SolidBody {
    SolidBody { cells: found.cells, index_sum: found.index_sum }
}

/// The listing of a mask's pieces, as bodies.
pub open spec fn body_listing(
    grid: &Grid,
    mask: Seq<bool>,
    seeds: Seq<int>,
    found: Seq<EnclosedVoid>,
    bodies: Seq<SolidBody>,
) -> bool {
    &&& listing(grid, mask, |c: int| grid.holds(c) && mask[c], seeds, found)
    &&& bodies == found.map_values(|piece: EnclosedVoid| body_of(piece))
}

/// Every connected body of material at `iso`, largest first.
///
/// One body is a part. Two or more means the field carries at least one body
/// that is joined to none of the others, which a slicer will happily lay down as
/// a separate loose object. It is invisible to every other check on the field,
/// so it is reported rather than taken for granted.
pub fn solid_bodies(grid: &Grid, densities: &Vec<Scalar>, iso: Scalar) -> (bodies: Vec<SolidBody>)
    requires
        grid.wf(),
        densities@.len() >= grid.len(),
    ensures
        exists|seeds: Seq<int>, found: Seq<EnclosedVoid>|
            body_listing(grid, material_cells(grid, densities@, iso), seeds, found, bodies@),
{
    let ghost mask = material_cells(grid, densities@, iso);
    let groups = material_groups(grid, densities, iso);
    let all = describe_all(grid, &groups, Ghost(mask));
    let found = largest_first(&all);
    let mut bodies: Vec<SolidBody> = Vec::new();
    let mut next: usize = 0;
    while next < found.len()
        invariant
            next <= found@.len(),
            bodies@.len() == next,
            forall|v: int| 0 <= v < next ==> #[trigger] bodies@[v] == body_of(found@[v]),
        decreases found@.len() - next,
    {
        bodies.push(SolidBody { cells: found[next].cells, index_sum: found[next].index_sum });
        next += 1;
    }
    proof {
        let order = choose|order: Seq<int>| #[trigger]
            largest_first_order(all@, order) && found@ == order.map_values(|at: int| all@[at]);
        lemma_listing(
            grid,
            mask,
            |c: int| grid.holds(c) && mask[c],
            groups@,
            all@,
            order,
        );
        assert(found@ =~= order.map_values(|g: int| all@[g]));
        assert(bodies@ =~= found@.map_values(|piece: EnclosedVoid| body_of(piece)));
        let seeds = order.map_values(|g: int| groups@[g]@[0] as int);
        assert(body_listing(grid, mask, seeds, found@, bodies@));
    }
    bodies
}

/// A cell of a cavity whose every cell may be turned into material.
pub open spec fn fillable_cell(grid: &Grid, mask: Seq<bool>, cell: int) -> bool {
    &&& enclosed(grid, mask, cell)
    &&& forall|d: int| #[trigger]
        connected(grid, mask, cell, d) ==> grid.cells@[d] != CellKind::Void
}

/// What the policy makes of the field: full density in every fillable cavity
/// under the filling one, and no change anywhere else.
pub open spec fn resolved(
    grid: &Grid,
    field: Seq<Scalar>,
    iso: Scalar,
    policy: VoidPolicy,
) -> Seq<Scalar> {
    Seq::new(
        field.len(),
        |c: int|
            if policy == VoidPolicy::Fill && fillable_cell(
                grid,
                empty_cells(grid, field, iso),
                c,
            ) {
                Scalar { bits: ONE_BITS }
            } else {
                field[c]
            },
    )
}

/// One of the first `upto` groups is fillable and has the cell.
spec fn in_filled_group(
    groups: Seq<Vec<usize>>,
    all: Seq<EnclosedVoid>,
    upto: int,
    cell: int,
) -> bool {
    exists|g: int| 0 <= g < upto && all[g].fillable && lists(#[trigger] groups[g]@, cell)
}

/// A cell is in a fillable group exactly when its cavity may be filled.
proof fn lemma_filled_groups(
    grid: &Grid,
    mask: Seq<bool>,
    groups: Seq<Vec<usize>>,
    all: Seq<EnclosedVoid>,
    cell: int,
)
    requires
        pieces(grid, mask, |c: int| enclosed(grid, mask, c), groups),
        all.len() == groups.len(),
        forall|g: int|
            #![trigger groups[g]]
            0 <= g < groups.len() ==> described(grid, |c: int| lists(groups[g]@, c), all[g]),
    ensures
        in_filled_group(groups, all, groups.len() as int, cell) <==> fillable_cell(
            grid,
            mask,
            cell,
        ),
{
    let inner = |c: int| enclosed(grid, mask, c);
    if in_filled_group(groups, all, groups.len() as int, cell) {
        let g = choose|g: int|
            0 <= g < groups.len() && all[g].fillable && lists(#[trigger] groups[g]@, cell);
        let first = groups[g]@[0] as int;
        let member = |c: int| lists(groups[g]@, c);
        lemma_connected_ends(grid, mask, first, cell);
        assert forall|b: int| #[trigger] grid.boundary(b) implies !connected(
            grid,
            mask,
            cell,
            b,
        ) by {
            if connected(grid, mask, cell, b) {
                lemma_connected_transitive(grid, mask, first, cell, b);
                assert(inner(first));
            }
        }
        assert forall|d: int| #[trigger] connected(grid, mask, cell, d) implies grid.cells@[d]
            != CellKind::Void by {
            lemma_connected_transitive(grid, mask, first, cell, d);
            assert(member(d));
        }
    }
    if fillable_cell(grid, mask, cell) {
        assert(inner(cell));
        let g = choose|g: int| 0 <= g < groups.len() && lists(#[trigger] groups[g]@, cell);
        let first = groups[g]@[0] as int;
        let member = |c: int| lists(groups[g]@, c);
        lemma_connected_symmetric(grid, mask, first, cell);
        assert forall|d: int| #[trigger] member(d) implies grid.cells@[d] != CellKind::Void by {
            lemma_connected_transitive(grid, mask, cell, first, d);
        }
        assert(all[g].fillable);
    }
}

/// One group more adds that group's cells, where it may be filled.
proof fn lemma_fill_next(
    grid: &Grid,
    mask: Seq<bool>,
    groups: Seq<Vec<usize>>,
    all: Seq<EnclosedVoid>,
    g: int,
)
    requires
        pieces(grid, mask, |c: int| enclosed(grid, mask, c), groups),
        all.len() == groups.len(),
        0 <= g < groups.len(),
        described(grid, |c: int| lists(groups[g]@, c), all[g]),
        all[g].cells == groups[g]@.len(),
    ensures
        forall|s: int| 0 <= s < groups[g]@.len() ==> #[trigger] groups[g]@[s] < grid.len(),
        forall|c: int| #[trigger]
            in_filled_group(groups, all, g, c) || all[g].fillable && lists(groups[g]@, c)
                <==> in_filled_group(groups, all, g + 1, c),
        tally(
            grid.len(),
            where_member(|c: int| in_filled_group(groups, all, g + 1, c), |c: int| 1),
        ) == tally(
            grid.len(),
            where_member(|c: int| in_filled_group(groups, all, g, c), |c: int| 1),
        ) + (if all[g].fillable {
            groups[g]@.len() as int
        } else {
            0
        }),
        tally(
            grid.len(),
            where_member(|c: int| in_filled_group(groups, all, g + 1, c), |c: int| 1),
        ) <= grid.len(),
{
    let n = grid.len();
    let group = groups[g]@;
    let earlier = |c: int| in_filled_group(groups, all, g, c);
    let listed = |c: int| lists(group, c);
    let later = |c: int| in_filled_group(groups, all, g + 1, c);
    assert forall|c: int| #[trigger]
        in_filled_group(groups, all, g, c) || all[g].fillable && lists(groups[g]@, c)
            <==> in_filled_group(groups, all, g + 1, c) by {
        if all[g].fillable && listed(c) {
            assert(lists(groups[g]@, c));
        }
    }
    assert forall|s: int| 0 <= s < group.len() implies #[trigger] group[s] < n by {
        assert(lists(group, group[s] as int));
        lemma_connected_ends(grid, mask, group[0] as int, group[s] as int);
    }
    let a = where_member(earlier, |c: int| 1);
    let b = where_member(listed, |c: int| 1);
    let both = where_member(later, |c: int| 1);
    if all[g].fillable {
        assert forall|c: int| 0 <= c < n implies #[trigger] both(c) == a(c) + b(c) by {
            assert(in_filled_group(groups, all, g, c) || lists(groups[g]@, c)
                <==> in_filled_group(groups, all, g + 1, c));
            if earlier(c) && listed(c) {
                let h = choose|h: int|
                    0 <= h < g && all[h].fillable && lists(#[trigger] groups[h]@, c);
                lemma_pieces_apart(
                    grid,
                    mask,
                    |c: int| enclosed(grid, mask, c),
                    groups,
                    h,
                    g,
                    c,
                );
            }
        }
        lemma_tally_sum(n, a, b, both);
    } else {
        assert forall|c: int| 0 <= c < n implies #[trigger] a(c) == both(c) by {
            assert(in_filled_group(groups, all, g, c) <==> in_filled_group(groups, all, g + 1, c));
        }
        lemma_tally_same(n, a, both);
    }
    lemma_tally_at_most(n, later);
}

/// Turn one group into material.
fn fill_group(densities: &mut Vec<Scalar>, group: &Vec<usize>)
    requires
        forall|s: int| 0 <= s < group@.len() ==> #[trigger] group@[s] < old(densities)@.len(),
    ensures
        final(densities)@.len() == old(densities)@.len(),
        forall|c: int|
            0 <= c < old(densities)@.len() ==> #[trigger] final(densities)@[c] == (if lists(
                group@,
                c,
            ) {
                Scalar { bits: ONE_BITS }
            } else {
                old(densities)@[c]
            }),
{
    let ghost before = densities@;
    let mut s: usize = 0;
    assert(group@.take(0) =~= Seq::empty());
    while s < group.len()
        invariant
            s <= group@.len(),
            densities@.len() == before.len(),
            forall|s: int| 0 <= s < group@.len() ==> #[trigger] group@[s] < before.len(),
            forall|c: int|
                0 <= c < before.len() ==> #[trigger] densities@[c] == (if lists(
                    group@.take(s as int),
                    c,
                ) {
                    Scalar { bits: ONE_BITS }
                } else {
                    before[c]
                }),
        decreases group@.len() - s,
    {
        let cell: usize = group[s];
        let ghost partly = densities@;
        densities.set(cell, Scalar { bits: ONE_BITS });
        proof {
            let head = group@.take(s as int);
            assert(group@.take(s + 1) =~= head.push(cell));
            assert forall|c: int| 0 <= c < before.len() implies #[trigger] densities@[c] == (
            if lists(head.push(cell), c) {
                Scalar { bits: ONE_BITS }
            } else {
                before[c]
            }) by {
                lemma_lists_push(head, cell, c);
                if c != cell {
                    assert(densities@[c] == partly[c]);
                }
            }
        }
        s += 1;
    }
    assert(group@.take(s as int) =~= group@);
}

/// Turn every fillable group into material, and count its cells.
fn fill(
    grid: &Grid,
    densities: &mut Vec<Scalar>,
    groups: &Vec<Vec<usize>>,
    all: &Vec<EnclosedVoid>,
    Ghost(mask): Ghost<Seq<bool>>,
) -> (filled: usize)
    requires
        grid.wf(),
        old(densities)@.len() >= grid.len(),
        pieces(grid, mask, |c: int| enclosed(grid, mask, c), groups@),
        all@.len() == groups@.len(),
        forall|g: int|
            #![trigger groups@[g]]
            0 <= g < groups@.len() ==> described(
                grid,
                |c: int| lists(groups@[g]@, c),
                all@[g],
            ) && all@[g].cells == groups@[g]@.len(),
    ensures
        final(densities)@.len() == old(densities)@.len(),
        forall|c: int|
            0 <= c < old(densities)@.len() ==> #[trigger] final(densities)@[c] == (
            if fillable_cell(grid, mask, c) {
                Scalar { bits: ONE_BITS }
            } else {
                old(densities)@[c]
            }),
        filled == tally(
            grid.len(),
            where_member(|c: int| fillable_cell(grid, mask, c), |c: int| 1),
        ),
{
    let ghost before = densities@;
    let ghost n = grid.len();
    let mut filled: usize = 0;
    let mut g: usize = 0;
    proof {
        lemma_tally_nothing(
            n,
            where_member(|c: int| in_filled_group(groups@, all@, 0, c), |c: int| 1),
        );
    }
    while g < groups.len()
        invariant
            grid.wf(),
            n == grid.len(),
            before.len() >= n,
            densities@.len() == before.len(),
            pieces(grid, mask, |c: int| enclosed(grid, mask, c), groups@),
            all@.len() == groups@.len(),
            forall|g: int|
                #![trigger groups@[g]]
                0 <= g < groups@.len() ==> described(
                    grid,
                    |c: int| lists(groups@[g]@, c),
                    all@[g],
                ) && all@[g].cells == groups@[g]@.len(),
            g <= groups@.len(),
            filled == tally(
                n,
                where_member(|c: int| in_filled_group(groups@, all@, g as int, c), |c: int| 1),
            ),
            forall|c: int|
                0 <= c < before.len() ==> #[trigger] densities@[c] == (if in_filled_group(
                    groups@,
                    all@,
                    g as int,
                    c,
                ) {
                    Scalar { bits: ONE_BITS }
                } else {
                    before[c]
                }),
        decreases groups@.len() - g,
    {
        proof {
            lemma_fill_next(grid, mask, groups@, all@, g as int);
            assert(grid.cells.len() == n);
        }
        if all[g].fillable {
            fill_group(densities, &groups[g]);
            filled = filled + groups[g].len();
        }
        proof {
            assert forall|c: int| 0 <= c < before.len() implies #[trigger] densities@[c] == (
            if in_filled_group(groups@, all@, g + 1, c) {
                Scalar { bits: ONE_BITS }
            } else {
                before[c]
            }) by {
                assert(in_filled_group(groups@, all@, g as int, c) || true);
            }
        }
        g += 1;
    }
    proof {
        let done = |c: int| in_filled_group(groups@, all@, groups@.len() as int, c);
        let owed = |c: int| fillable_cell(grid, mask, c);
        assert forall|c: int| #[trigger] done(c) == owed(c) by {
            lemma_filled_groups(grid, mask, groups@, all@, c);
        }
        assert(done =~= owed);
        assert forall|c: int| 0 <= c < before.len() implies #[trigger] densities@[c] == (
        if fillable_cell(grid, mask, c) {
            Scalar { bits: ONE_BITS }
        } else {
            before[c]
        }) by {
            assert(done(c) == owed(c));
        }
    }
    filled
}

/// Apply the configured policy to `densities`, reporting what was found either
/// way.
///
/// Under [`VoidPolicy::Fill`] every fillable cavity is turned into solid
/// material before the surface is extracted, so the exported surface has no
/// trapped cavity left. A cavity that overlaps a keepout, or the space outside
/// the domain, is never filled: the constraint wins, and the report says the
/// cavity is still there.
pub fn resolve(
    grid: &Grid,
    densities: &mut Vec<Scalar>,
    iso: Scalar,
    policy: VoidPolicy,
) -> (report: VoidReport)
    requires
        grid.wf(),
        old(densities)@.len() >= grid.len(),
    ensures
        final(densities)@ == resolved(grid, old(densities)@, iso, policy),
        report.policy == policy,
        exists|seeds: Seq<int>|
            cavity_listing(
                grid,
                empty_cells(grid, old(densities)@, iso),
                seeds,
                report.voids@,
            ),
        report.filled_cells == (if policy == VoidPolicy::Fill {
            tally(
                grid.len(),
                where_member(
                    |c: int| fillable_cell(grid, empty_cells(grid, old(densities)@, iso), c),
                    |c: int| 1,
                ),
            )
        } else {
            0
        }),
{
    let ghost before = densities@;
    let ghost mask = empty_cells(grid, densities@, iso);
    let groups = enclosed_groups(grid, densities, iso);
    let all = describe_all(grid, &groups, Ghost(mask));
    let mut filled_cells: usize = 0;
    if policy == VoidPolicy::Fill {
        filled_cells = fill(grid, densities, &groups, &all, Ghost(mask));
    }
    let report = VoidReport { policy, voids: largest_first(&all), filled_cells };
    proof {
        let order = choose|order: Seq<int>| #[trigger]
            largest_first_order(all@, order) && report.voids@ == order.map_values(
                |at: int| all@[at],
            );
        lemma_listing(
            grid,
            mask,
            |c: int| enclosed(grid, mask, c),
            groups@,
            all@,
            order,
        );
        assert(report.voids@ =~= order.map_values(|g: int| all@[g]));
        let seeds = order.map_values(|g: int| groups@[g]@[0] as int);
        assert(cavity_listing(
            grid,
            empty_cells(grid, old(densities)@, iso),
            seeds,
            report.voids@,
        ));
        assert(densities@ =~= resolved(grid, before, iso, policy));
    }
    report
}

impl VoidReport {
    /// True when a cavity was filled rather than exported.
    pub open spec fn filled(&self, cavity: EnclosedVoid) -> bool {
        self.policy == VoidPolicy::Fill && cavity.fillable
    }

    /// Cavities that remain in the exported surface.
    pub fn remaining(&self) -> (count: usize)
        ensures
            count == tally(
                self.voids@.len() as int,
                where_member(|v: int| !self.filled(self.voids@[v]), |v: int| 1),
            ),
    {
        let ghost left = |v: int| !self.filled(self.voids@[v]);
        let mut count: usize = 0;
        let mut next: usize = 0;
        while next < self.voids.len()
            invariant
                next <= self.voids@.len(),
                left == (|v: int| !self.filled(self.voids@[v])),
                count == tally(next as int, where_member(left, |v: int| 1)),
                count <= next,
            decreases self.voids@.len() - next,
        {
            if !self.was_filled(&self.voids[next]) {
                count += 1;
            }
            next += 1;
        }
        count
    }

    /// True when this cavity was filled rather than exported.
    pub fn was_filled(&self, cavity: &EnclosedVoid) -> (answer: bool)
        ensures
            answer == self.filled(*cavity),
    {
        self.policy == VoidPolicy::Fill && cavity.fillable
    }
}

} // verus!
