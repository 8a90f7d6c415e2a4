//! What holds of the cavity pass and of the body count as a whole.

use vstd::prelude::*;

use crate::connect::{connected, walk};
use crate::connect::{
    lemma_connected_ends, lemma_connected_reflexive, lemma_connected_symmetric,
    lemma_connected_transitive,
};
use crate::field_laws::law_a_boundary_cell_has_a_face_outside;
use crate::grid::{CellKind, Grid};
use crate::scalar::{Scalar, ONE_BITS};
use crate::tally::{lemma_tally_nothing, lemma_tally_same, lemma_tally_single, lemma_tally_swap};
use crate::tally::{tally, where_member};
use crate::voids::{EnclosedVoid, SolidBody, VoidPolicy};
use crate::voids::{
    body_listing, cavity_listing, comes_first, described, empty_cells, enclosed, fillable_cell,
    first_cells, first_of_piece, labelling, listing, resolved,
};

verus! {

/// Whether a cavity may be filled is one answer for all its cells.
proof fn lemma_fillable_along(grid: &Grid, mask: Seq<bool>, a: int, b: int)
    requires
        connected(grid, mask, a, b),
        fillable_cell(grid, mask, a),
    ensures
        fillable_cell(grid, mask, b),
{
    lemma_connected_ends(grid, mask, a, b);
    assert forall|edge: int| #[trigger] grid.boundary(edge) implies !connected(
        grid,
        mask,
        b,
        edge,
    ) by {
        if connected(grid, mask, b, edge) {
            lemma_connected_transitive(grid, mask, a, b, edge);
        }
    }
    assert forall|d: int| #[trigger] connected(grid, mask, b, d) implies grid.cells@[d]
        != CellKind::Void by {
        lemma_connected_transitive(grid, mask, a, b, d);
    }
}

/// After filling, the empty cells are the empty cells that were not filled.
proof fn lemma_empty_after_fill(grid: &Grid, field: Seq<Scalar>, iso: Scalar)
    requires
        field.len() >= grid.len(),
        iso.at_most(Scalar { bits: ONE_BITS }),
    ensures
        forall|c: int|
            grid.holds(c) ==> (#[trigger] empty_cells(
                grid,
                resolved(grid, field, iso, VoidPolicy::Fill),
                iso,
            )[c] <==> empty_cells(grid, field, iso)[c] && !fillable_cell(
                grid,
                empty_cells(grid, field, iso),
                c,
            )),
{
    let mask = empty_cells(grid, field, iso);
    let after = empty_cells(grid, resolved(grid, field, iso, VoidPolicy::Fill), iso);
    assert forall|c: int| grid.holds(c) implies (#[trigger] after[c] <==> mask[c]
        && !fillable_cell(grid, mask, c)) by {
        if fillable_cell(grid, mask, c) {
            lemma_connected_reflexive(grid, mask, c);
            assert(grid.cells@[c] != CellKind::Void);
        }
    }
}

/// Outside the filled cavities, filling joins and parts nothing.
proof fn lemma_connected_after_fill(
    grid: &Grid,
    field: Seq<Scalar>,
    iso: Scalar,
    a: int,
    b: int,
)
    requires
        field.len() >= grid.len(),
        iso.at_most(Scalar { bits: ONE_BITS }),
    ensures
        connected(
            grid,
            empty_cells(grid, resolved(grid, field, iso, VoidPolicy::Fill), iso),
            a,
            b,
        ) <==> connected(grid, empty_cells(grid, field, iso), a, b) && !fillable_cell(
            grid,
            empty_cells(grid, field, iso),
            a,
        ),
{
    let mask = empty_cells(grid, field, iso);
    let after = empty_cells(grid, resolved(grid, field, iso, VoidPolicy::Fill), iso);
    lemma_empty_after_fill(grid, field, iso);
    if connected(grid, after, a, b) {
        let path = choose|path: Seq<int>| #[trigger]
            walk(grid, after, path) && path.first() == a && path.last() == b;
        assert(grid.holds(path[0]) && after[path[0]]);
        assert forall|s: int| 0 <= s < path.len() implies grid.holds(#[trigger] path[s])
            && mask[path[s]] by {
            assert(after[path[s]]);
        }
        assert(walk(grid, mask, path));
    }
    if connected(grid, mask, a, b) && !fillable_cell(grid, mask, a) {
        let path = choose|path: Seq<int>| #[trigger]
            walk(grid, mask, path) && path.first() == a && path.last() == b;
        assert forall|s: int| 0 <= s < path.len() implies grid.holds(#[trigger] path[s])
            && after[path[s]] by {
            let head = path.take(s + 1);
            assert(forall|t: int| 0 <= t < head.len() ==> #[trigger] head[t] == path[t]);
            assert(walk(grid, mask, head));
            assert(head.first() == a && head.last() == path[s]);
            if fillable_cell(grid, mask, path[s]) {
                lemma_connected_symmetric(grid, mask, a, path[s]);
                lemma_fillable_along(grid, mask, path[s], a);
            }
        }
        assert(walk(grid, after, path));
    }
}

/// Filling leaves no cavity that could have been filled: what the surface of the
/// filled field still encloses is exactly what it enclosed before and may not
/// hold material. The iso level must not be above full density, or a filled cell
/// would count as empty still.
pub proof fn law_filling_leaves_only_what_may_not_be_filled(
    grid: &Grid,
    field: Seq<Scalar>,
    iso: Scalar,
    cell: int,
)
    requires
        field.len() >= grid.len(),
        iso.at_most(Scalar { bits: ONE_BITS }),
    ensures
        enclosed(
            grid,
            empty_cells(grid, resolved(grid, field, iso, VoidPolicy::Fill), iso),
            cell,
        ) <==> enclosed(grid, empty_cells(grid, field, iso), cell) && !fillable_cell(
            grid,
            empty_cells(grid, field, iso),
            cell,
        ),
{
    let mask = empty_cells(grid, field, iso);
    let after = empty_cells(grid, resolved(grid, field, iso, VoidPolicy::Fill), iso);
    lemma_empty_after_fill(grid, field, iso);
    assert forall|b: int| #[trigger] grid.boundary(b) implies (connected(grid, after, cell, b) <==>
        connected(grid, mask, cell, b) && !fillable_cell(grid, mask, cell)) by {
        lemma_connected_after_fill(grid, field, iso, cell, b);
    }
    if grid.holds(cell) && mask[cell] && !enclosed(grid, mask, cell) {
        let b = choose|b: int| #[trigger] grid.boundary(b) && connected(grid, mask, cell, b);
        assert(connected(grid, after, cell, b));
        lemma_connected_ends(grid, after, cell, b);
    }
}

/// Filling twice is filling once: the second time there is no cell left to fill.
pub proof fn law_filling_is_done_once(grid: &Grid, field: Seq<Scalar>, iso: Scalar)
    requires
        field.len() >= grid.len(),
        iso.at_most(Scalar { bits: ONE_BITS }),
    ensures
        resolved(
            grid,
            resolved(grid, field, iso, VoidPolicy::Fill),
            iso,
            VoidPolicy::Fill,
        ) == resolved(grid, field, iso, VoidPolicy::Fill),
        tally(
            grid.len(),
            where_member(
                |c: int|
                    fillable_cell(
                        grid,
                        empty_cells(grid, resolved(grid, field, iso, VoidPolicy::Fill), iso),
                        c,
                    ),
                |c: int| 1,
            ),
        ) == 0,
{
    let filled = resolved(grid, field, iso, VoidPolicy::Fill);
    let mask = empty_cells(grid, field, iso);
    let after = empty_cells(grid, filled, iso);
    assert forall|c: int| !fillable_cell(grid, after, c) by {
        law_filling_leaves_only_what_may_not_be_filled(grid, field, iso, c);
        if enclosed(grid, mask, c) && !fillable_cell(grid, mask, c) {
            let d = choose|d: int| #[trigger]
                connected(grid, mask, c, d) && grid.cells@[d] == CellKind::Void;
            lemma_connected_after_fill(grid, field, iso, c, d);
        }
    }
    assert(resolved(grid, filled, iso, VoidPolicy::Fill) =~= filled);
    lemma_tally_nothing(
        grid.len(),
        where_member(|c: int| fillable_cell(grid, after, c), |c: int| 1),
    );
}

/// Warning never touches the field, and no policy writes to a cell that is never
/// material: the constraint wins over the fill.
pub proof fn law_a_keepout_survives_every_policy(
    grid: &Grid,
    field: Seq<Scalar>,
    iso: Scalar,
    policy: VoidPolicy,
    cell: int,
)
    requires
        field.len() >= grid.len(),
        0 <= cell < field.len(),
        policy == VoidPolicy::Warn || (grid.holds(cell) && grid.cells@[cell] == CellKind::Void),
    ensures
        resolved(grid, field, iso, policy)[cell] == field[cell],
{
    let mask = empty_cells(grid, field, iso);
    if policy == VoidPolicy::Fill && fillable_cell(grid, mask, cell) {
        lemma_connected_reflexive(grid, mask, cell);
    }
}

/// Every masked cell has an earliest cell it is connected to.
proof fn lemma_has_first(grid: &Grid, mask: Seq<bool>, cell: int, from: int) -> (first: int)
    requires
        grid.holds(cell),
        connected(grid, mask, cell, from),
        from >= 0,
    ensures
        connected(grid, mask, cell, first),
        first_of_piece(grid, mask, |c: int| grid.holds(c) && mask[c], first),
    decreases from,
{
    lemma_connected_ends(grid, mask, cell, from);
    if exists|d: int| #[trigger] connected(grid, mask, from, d) && d < from {
        let d = choose|d: int| #[trigger] connected(grid, mask, from, d) && d < from;
        lemma_connected_transitive(grid, mask, cell, from, d);
        lemma_connected_ends(grid, mask, cell, d);
        lemma_has_first(grid, mask, cell, d)
    } else {
        from
    }
}

/// Two first cells of one piece are one cell.
proof fn lemma_one_first(grid: &Grid, mask: Seq<bool>, a: int, b: int)
    requires
        first_of_piece(grid, mask, |c: int| grid.holds(c) && mask[c], a),
        first_of_piece(grid, mask, |c: int| grid.holds(c) && mask[c], b),
        connected(grid, mask, a, b),
    ensures
        a == b,
{
    lemma_connected_symmetric(grid, mask, a, b);
}

/// The bodies share the material out: their cell counts add up to the number of
/// material cells, so no cell is lost and none is counted twice.
pub proof fn law_bodies_share_out_the_material(
    grid: &Grid,
    mask: Seq<bool>,
    seeds: Seq<int>,
    found: Seq<EnclosedVoid>,
)
    requires
        mask.len() == grid.len(),
        listing(grid, mask, |c: int| grid.holds(c) && mask[c], seeds, found),
    ensures
        tally(found.len() as int, |v: int| found[v].cells as int) == tally(
            grid.len(),
            where_member(|c: int| mask[c], |c: int| 1),
        ),
{
    let n = grid.len();
    let m = found.len() as int;
    let material = |c: int| grid.holds(c) && mask[c];
    let weight = |v: int, c: int|
        if connected(grid, mask, seeds[v], c) {
            1int
        } else {
            0int
        };
    assert forall|v: int| 0 <= v < m implies #[trigger] found[v].cells == tally(
        n,
        |c: int| weight(v, c),
    ) by {
        let member = |c: int| connected(grid, mask, seeds[v], c);
        lemma_tally_same(n, where_member(member, |c: int| 1), |c: int| weight(v, c));
    }
    lemma_tally_same(
        m,
        |v: int| found[v].cells as int,
        |v: int| tally(n, |c: int| weight(v, c)),
    );
    lemma_tally_swap(m, n, weight);
    let column = |c: int| tally(m, |v: int| weight(v, c));
    let cells = where_member(|c: int| mask[c], |c: int| 1);
    assert forall|c: int| 0 <= c < n implies #[trigger] column(c) == cells(c) by {
        let row = |v: int| weight(v, c);
        if mask[c] {
            lemma_connected_reflexive(grid, mask, c);
            let first = lemma_has_first(grid, mask, c, c);
            assert(seeds.contains(first));
            let at = choose|at: int| 0 <= at < seeds.len() && seeds[at] == first;
            lemma_connected_symmetric(grid, mask, c, first);
            assert forall|v: int| 0 <= v < m && v != at implies #[trigger] row(v) == 0 by {
                if connected(grid, mask, seeds[v], c) {
                    lemma_connected_transitive(grid, mask, seeds[v], c, first);
                    assert(seeds.contains(seeds[v]));
                    lemma_one_first(grid, mask, seeds[v], first);
                }
            }
            assert(row(at) == 1);
            lemma_tally_single(m, row, at);
        } else {
            assert forall|v: int| 0 <= v < m implies #[trigger] row(v) == 0 by {
                if connected(grid, mask, seeds[v], c) {
                    lemma_connected_ends(grid, mask, seeds[v], c);
                }
            }
            lemma_tally_nothing(m, row);
        }
    }
    lemma_tally_same(n, column, cells);
}

/// The first cell of a label is the first cell of its piece.
proof fn lemma_first_of_label(
    grid: &Grid,
    mask: Seq<bool>,
    of_cell: Seq<Option<usize>>,
    bodies: int,
    firsts: Seq<int>,
    l: int,
)
    requires
        labelling(grid, mask, of_cell, bodies),
        first_cells(of_cell, firsts),
        0 <= l < firsts.len(),
        firsts.len() <= usize::MAX,
    ensures
        first_of_piece(grid, mask, |c: int| grid.holds(c) && mask[c], firsts[l]),
{
    let first = firsts[l];
    assert(of_cell[first] == Some(l as usize));
    assert forall|d: int| #[trigger] connected(grid, mask, first, d) implies first <= d by {
        lemma_connected_ends(grid, mask, first, d);
        assert(of_cell[first] == of_cell[d]);
    }
}

/// The first cell of a piece is the first cell of its label.
proof fn lemma_label_of_first(
    grid: &Grid,
    mask: Seq<bool>,
    of_cell: Seq<Option<usize>>,
    bodies: int,
    firsts: Seq<int>,
    seed: int,
)
    requires
        labelling(grid, mask, of_cell, bodies),
        first_cells(of_cell, firsts),
        firsts.len() <= usize::MAX,
        first_of_piece(grid, mask, |c: int| grid.holds(c) && mask[c], seed),
    ensures
        firsts.contains(seed),
{
    assert(of_cell[seed] is Some);
    let l = of_cell[seed]->0 as int;
    let first = firsts[l];
    assert(of_cell[first] == Some(l as usize));
    assert(of_cell[seed] == of_cell[first]);
    assert(connected(grid, mask, seed, first));
    assert(firsts[l] == seed);
}

/// The labelling and the listing count the same bodies.
pub proof fn law_labels_and_listing_count_the_same_bodies(
    grid: &Grid,
    mask: Seq<bool>,
    of_cell: Seq<Option<usize>>,
    bodies: usize,
    seeds: Seq<int>,
    found: Seq<EnclosedVoid>,
)
    requires
        labelling(grid, mask, of_cell, bodies as int),
        listing(grid, mask, |c: int| grid.holds(c) && mask[c], seeds, found),
    ensures
        found.len() == bodies,
{
    let firsts = choose|firsts: Seq<int>| #[trigger]
        first_cells(of_cell, firsts) && firsts.len() == bodies;
    let wanted = |c: int| grid.holds(c) && mask[c];
    assert forall|c: int| firsts.contains(c) <==> #[trigger] seeds.contains(c) by {
        if firsts.contains(c) {
            let l = choose|l: int| 0 <= l < firsts.len() && firsts[l] == c;
            lemma_first_of_label(grid, mask, of_cell, bodies as int, firsts, l);
        }
        if seeds.contains(c) {
            assert(first_of_piece(grid, mask, wanted, c));
            lemma_label_of_first(grid, mask, of_cell, bodies as int, firsts, c);
        }
    }
    assert(firsts.no_duplicates());
    assert(firsts.to_set() =~= seeds.to_set());
    firsts.unique_seq_to_set();
    seeds.unique_seq_to_set();
}

/// Statistics of one set of cells are one value.
proof fn lemma_described_once(
    grid: &Grid,
    first: spec_fn(int) -> bool,
    second: spec_fn(int) -> bool,
    a: EnclosedVoid,
    b: EnclosedVoid,
)
    requires
        forall|c: int| #[trigger] first(c) == second(c),
        described(grid, first, a),
        described(grid, second, b),
    ensures
        a == b,
{
    assert(first =~= second);
    assert(a.index_sum =~= b.index_sum);
}

/// Two listings of the same pieces start from the same cells, as far as one looks.
proof fn lemma_same_seeds(
    grid: &Grid,
    mask: Seq<bool>,
    wanted: spec_fn(int) -> bool,
    seeds: Seq<int>,
    found: Seq<EnclosedVoid>,
    others: Seq<int>,
    again: Seq<EnclosedVoid>,
    upto: int,
)
    requires
        listing(grid, mask, wanted, seeds, found),
        listing(grid, mask, wanted, others, again),
        0 <= upto <= seeds.len(),
        seeds.len() == others.len(),
    ensures
        forall|i: int| 0 <= i < upto ==> #[trigger] seeds[i] == others[i],
    decreases upto,
{
    if upto > 0 {
        let i = upto - 1;
        lemma_same_seeds(grid, mask, wanted, seeds, found, others, again, i);
        let (s, o) = (seeds[i], others[i]);
        assert(seeds.contains(s) && others.contains(o));
        assert(others.contains(s) && seeds.contains(o));
        let p = choose|p: int| 0 <= p < others.len() && others[p] == s;
        let q = choose|q: int| 0 <= q < seeds.len() && seeds[q] == o;
        if p < i {
            assert(seeds[p] == others[p]);
        }
        if q < i {
            assert(seeds[q] == others[q]);
        }
        if s != o {
            lemma_described_once(
                grid,
                |c: int| connected(grid, mask, seeds[i], c),
                |c: int| connected(grid, mask, others[p], c),
                found[i],
                again[p],
            );
            lemma_described_once(
                grid,
                |c: int| connected(grid, mask, seeds[q], c),
                |c: int| connected(grid, mask, others[i], c),
                found[q],
                again[i],
            );
            assert(comes_first(found[i].cells as int, s, found[q].cells as int, o));
            assert(comes_first(again[i].cells as int, o, again[p].cells as int, s));
        }
    }
}

/// A field has one listing: whoever asks for the cavities, or the bodies, of one
/// field at one level is told the same.
pub proof fn law_a_field_has_one_listing(
    grid: &Grid,
    mask: Seq<bool>,
    wanted: spec_fn(int) -> bool,
    seeds: Seq<int>,
    found: Seq<EnclosedVoid>,
    others: Seq<int>,
    again: Seq<EnclosedVoid>,
)
    requires
        listing(grid, mask, wanted, seeds, found),
        listing(grid, mask, wanted, others, again),
    ensures
        seeds == others,
        found == again,
{
    assert(seeds.to_set() =~= others.to_set()) by {
        assert forall|c: int| seeds.contains(c) <==> #[trigger] others.contains(c) by {
            assert(seeds.contains(c) <==> first_of_piece(grid, mask, wanted, c));
        }
    }
    seeds.unique_seq_to_set();
    others.unique_seq_to_set();
    lemma_same_seeds(grid, mask, wanted, seeds, found, others, again, seeds.len() as int);
    assert(seeds =~= others);
    assert forall|v: int| 0 <= v < found.len() implies #[trigger] found[v] == again[v] by {
        lemma_described_once(
            grid,
            |c: int| connected(grid, mask, seeds[v], c),
            |c: int| connected(grid, mask, others[v], c),
            found[v],
            again[v],
        );
    }
    assert(found =~= again);
}

/// What a report lists of a field is what detecting finds in it, entry by entry.
pub proof fn law_the_report_is_what_detecting_finds(
    grid: &Grid,
    field: Seq<Scalar>,
    iso: Scalar,
    seeds: Seq<int>,
    reported: Seq<EnclosedVoid>,
    others: Seq<int>,
    detected: Seq<EnclosedVoid>,
)
    requires
        cavity_listing(grid, empty_cells(grid, field, iso), seeds, reported),
        cavity_listing(grid, empty_cells(grid, field, iso), others, detected),
    ensures
        reported == detected,
{
    let mask = empty_cells(grid, field, iso);
    law_a_field_has_one_listing(
        grid,
        mask,
        |c: int| enclosed(grid, mask, c),
        seeds,
        reported,
        others,
        detected,
    );
}

/// Whether a cell is enclosed is one answer for all cells of its piece.
proof fn lemma_enclosed_along(grid: &Grid, mask: Seq<bool>, a: int, b: int)
    requires
        connected(grid, mask, a, b),
        enclosed(grid, mask, a),
    ensures
        enclosed(grid, mask, b),
{
    lemma_connected_ends(grid, mask, a, b);
    assert forall|edge: int| #[trigger] grid.boundary(edge) implies !connected(
        grid,
        mask,
        b,
        edge,
    ) by {
        if connected(grid, mask, b, edge) {
            lemma_connected_transitive(grid, mask, a, b, edge);
        }
    }
}

/// A listed cavity says of its first cell whether it may be filled.
proof fn lemma_listed_fillable(
    grid: &Grid,
    mask: Seq<bool>,
    seeds: Seq<int>,
    voids: Seq<EnclosedVoid>,
    v: int,
)
    requires
        cavity_listing(grid, mask, seeds, voids),
        0 <= v < voids.len(),
    ensures
        enclosed(grid, mask, seeds[v]),
        voids[v].fillable == fillable_cell(grid, mask, seeds[v]),
{
    assert(seeds.contains(seeds[v]));
    let wanted = |c: int| enclosed(grid, mask, c);
    assert(first_of_piece(grid, mask, wanted, seeds[v]));
    let member = |c: int| connected(grid, mask, seeds[v], c);
    assert(described(grid, member, voids[v]));
    if voids[v].fillable {
        assert forall|d: int| #[trigger] connected(grid, mask, seeds[v], d) implies grid.cells@[d]
            != CellKind::Void by {
            assert(member(d));
        }
    } else {
        let c = choose|c: int| #[trigger] member(c) && grid.cells@[c] == CellKind::Void;
        assert(connected(grid, mask, seeds[v], c));
    }
}

/// The cells that are filled are those of the fillable cavities: their number is
/// the sum of what the listing says of each.
pub proof fn law_the_filled_cells_are_those_of_the_fillable_cavities(
    grid: &Grid,
    mask: Seq<bool>,
    seeds: Seq<int>,
    voids: Seq<EnclosedVoid>,
)
    requires
        mask.len() == grid.len(),
        cavity_listing(grid, mask, seeds, voids),
    ensures
        tally(
            voids.len() as int,
            where_member(|v: int| voids[v].fillable, |v: int| voids[v].cells as int),
        ) == tally(
            grid.len(),
            where_member(|c: int| fillable_cell(grid, mask, c), |c: int| 1),
        ),
{
    let n = grid.len();
    let m = voids.len() as int;
    let weight = |v: int, c: int|
        if voids[v].fillable && connected(grid, mask, seeds[v], c) {
            1int
        } else {
            0int
        };
    let rows = where_member(|v: int| voids[v].fillable, |v: int| voids[v].cells as int);
    assert forall|v: int| 0 <= v < m implies #[trigger] rows(v) == tally(
        n,
        |c: int| weight(v, c),
    ) by {
        let member = |c: int| connected(grid, mask, seeds[v], c);
        assert(described(grid, member, voids[v]));
        if voids[v].fillable {
            lemma_tally_same(n, where_member(member, |c: int| 1), |c: int| weight(v, c));
        } else {
            lemma_tally_nothing(n, |c: int| weight(v, c));
        }
    }
    lemma_tally_same(m, rows, |v: int| tally(n, |c: int| weight(v, c)));
    lemma_tally_swap(m, n, weight);
    let column = |c: int| tally(m, |v: int| weight(v, c));
    let cells = where_member(|c: int| fillable_cell(grid, mask, c), |c: int| 1);
    assert forall|c: int| 0 <= c < n implies #[trigger] column(c) == cells(c) by {
        let row = |v: int| weight(v, c);
        if fillable_cell(grid, mask, c) {
            lemma_connected_reflexive(grid, mask, c);
            let first = lemma_has_first(grid, mask, c, c);
            lemma_enclosed_along(grid, mask, c, first);
            lemma_fillable_along(grid, mask, c, first);
            assert(first_of_piece(grid, mask, |d: int| enclosed(grid, mask, d), first));
            assert(seeds.contains(first));
            let at = choose|at: int| 0 <= at < seeds.len() && seeds[at] == first;
            lemma_listed_fillable(grid, mask, seeds, voids, at);
            lemma_connected_symmetric(grid, mask, c, first);
            assert forall|v: int| 0 <= v < m && v != at implies #[trigger] row(v) == 0 by {
                if connected(grid, mask, seeds[v], c) {
                    lemma_connected_transitive(grid, mask, seeds[v], c, first);
                    assert(seeds.contains(seeds[v]));
                    assert(first_of_piece(grid, mask, |d: int| enclosed(grid, mask, d), seeds[v]));
                    lemma_connected_symmetric(grid, mask, seeds[v], first);
                }
            }
            assert(row(at) == 1);
            lemma_tally_single(m, row, at);
        } else {
            assert forall|v: int| 0 <= v < m implies #[trigger] row(v) == 0 by {
                if voids[v].fillable && connected(grid, mask, seeds[v], c) {
                    lemma_listed_fillable(grid, mask, seeds, voids, v);
                    lemma_fillable_along(grid, mask, seeds[v], c);
                }
            }
            lemma_tally_nothing(m, row);
        }
    }
    lemma_tally_same(n, column, cells);
}

/// The numbers of the cavities that may not be filled, in order.
spec fn unfillable(voids: Seq<EnclosedVoid>) -> Seq<int>
    decreases voids.len(),
{
    if voids.len() == 0 {
        seq![]
    } else {
        let before = unfillable(voids.drop_last());
        if voids.last().fillable {
            before
        } else {
            before.push(voids.len() - 1)
        }
    }
}

/// What is left of a list of cavities without the fillable ones, entry by entry.
proof fn lemma_unfillable(voids: Seq<EnclosedVoid>)
    ensures
        ({
            let left = unfillable(voids);
            &&& forall|i: int|
                0 <= i < left.len() ==> 0 <= #[trigger] left[i] < voids.len()
                    && !voids[left[i]].fillable
            &&& forall|i: int, j: int|
                #![trigger left[i], left[j]]
                0 <= i < j < left.len() ==> left[i] < left[j]
            &&& forall|v: int|
                #![trigger voids[v]]
                0 <= v < voids.len() && !voids[v].fillable ==> left.contains(v)
            &&& voids.filter(|v: EnclosedVoid| !v.fillable) == left.map_values(|v: int| voids[v])
        }),
    decreases voids.len(),
{
    let keep = |v: EnclosedVoid| !v.fillable;
    let left = unfillable(voids);
    if voids.len() == 0 {
        reveal(Seq::filter);
        assert(voids.filter(keep) =~= left.map_values(|v: int| voids[v]));
    } else {
        let fewer = voids.drop_last();
        let before = unfillable(fewer);
        lemma_unfillable(fewer);
        assert(voids =~= fewer.push(voids.last()));
        fewer.lemma_filter_push(voids.last(), keep);
        assert(before.map_values(|v: int| fewer[v]) =~= before.map_values(|v: int| voids[v]));
        assert(voids.filter(keep) =~= left.map_values(|v: int| voids[v]));
        assert forall|v: int|
            #![trigger voids[v]]
            0 <= v < voids.len() && !voids[v].fillable implies left.contains(v) by {
            if v < fewer.len() {
                assert(fewer[v] == voids[v]);
                let i = choose|i: int| 0 <= i < before.len() && before[i] == v;
                assert(left[i] == v);
            } else {
                assert(left[before.len() as int] == v);
            }
        }
    }
}

/// What detecting finds once the fillable cavities are filled are the entries of
/// the report that may not be filled, as they are and in their order.
pub proof fn law_detecting_after_a_fill_finds_the_unfillable_cavities(
    grid: &Grid,
    field: Seq<Scalar>,
    iso: Scalar,
    seeds: Seq<int>,
    voids: Seq<EnclosedVoid>,
    seeds_after: Seq<int>,
    voids_after: Seq<EnclosedVoid>,
)
    requires
        field.len() >= grid.len(),
        iso.at_most(Scalar { bits: ONE_BITS }),
        cavity_listing(grid, empty_cells(grid, field, iso), seeds, voids),
        cavity_listing(
            grid,
            empty_cells(grid, resolved(grid, field, iso, VoidPolicy::Fill), iso),
            seeds_after,
            voids_after,
        ),
    ensures
        voids_after == voids.filter(|v: EnclosedVoid| !v.fillable),
{
    let mask = empty_cells(grid, field, iso);
    let after = empty_cells(grid, resolved(grid, field, iso, VoidPolicy::Fill), iso);
    let left = unfillable(voids);
    lemma_unfillable(voids);
    let firsts = left.map_values(|v: int| seeds[v]);
    let entries = left.map_values(|v: int| voids[v]);
    let before = |c: int| enclosed(grid, mask, c);
    let wanted = |c: int| enclosed(grid, after, c);
    assert forall|c: int| #[trigger] firsts.contains(c) <==> first_of_piece(grid, after, wanted, c) by {
        law_filling_leaves_only_what_may_not_be_filled(grid, field, iso, c);
        assert forall|d: int| connected(grid, after, c, d) <==> #[trigger] connected(
            grid,
            mask,
            c,
            d,
        ) && !fillable_cell(grid, mask, c) by {
            lemma_connected_after_fill(grid, field, iso, c, d);
        }
        assert(seeds.contains(c) <==> first_of_piece(grid, mask, before, c));
        if firsts.contains(c) {
            let i = choose|i: int| 0 <= i < firsts.len() && firsts[i] == c;
            assert(seeds[left[i]] == c);
            lemma_listed_fillable(grid, mask, seeds, voids, left[i]);
            assert(seeds.contains(c));
            assert forall|d: int| #[trigger] connected(grid, after, c, d) implies c <= d by {
                lemma_connected_after_fill(grid, field, iso, c, d);
            }
        }
        if first_of_piece(grid, after, wanted, c) {
            assert forall|d: int| #[trigger] connected(grid, mask, c, d) implies c <= d by {
                assert(connected(grid, after, c, d));
            }
            assert(first_of_piece(grid, mask, before, c));
            let v = choose|v: int| 0 <= v < seeds.len() && seeds[v] == c;
            lemma_listed_fillable(grid, mask, seeds, voids, v);
            assert(!voids[v].fillable);
            let i = choose|i: int| 0 <= i < left.len() && left[i] == v;
            assert(firsts[i] == c);
        }
    }
    assert forall|i: int|
        #![trigger entries[i]]
        0 <= i < entries.len() implies described(
        grid,
        |c: int| connected(grid, after, firsts[i], c),
        entries[i],
    ) by {
        let v = left[i];
        lemma_listed_fillable(grid, mask, seeds, voids, v);
        let member = |c: int| connected(grid, mask, seeds[v], c);
        let still = |c: int| connected(grid, after, firsts[i], c);
        assert(described(grid, member, voids[v]));
        assert forall|c: int| #[trigger] member(c) == still(c) by {
            lemma_connected_after_fill(grid, field, iso, seeds[v], c);
        }
        assert(member =~= still);
    }
    assert forall|a: int, b: int|
        #![trigger entries[a], entries[b]]
        0 <= a < b < entries.len() implies comes_first(
        entries[a].cells as int,
        firsts[a],
        entries[b].cells as int,
        firsts[b],
    ) by {
        assert(left[a] < left[b]);
        assert(entries[a] == voids[left[a]] && entries[b] == voids[left[b]]);
    }
    assert(firsts.no_duplicates()) by {
        assert forall|a: int, b: int| 0 <= a < b < firsts.len() implies firsts[a] != firsts[b] by {
            assert(left[a] < left[b]);
            assert(seeds[left[a]] != seeds[left[b]]);
        }
    }
    assert(listing(grid, after, wanted, firsts, entries));
    law_a_field_has_one_listing(
        grid,
        after,
        wanted,
        firsts,
        entries,
        seeds_after,
        voids_after,
    );
}

/// Detecting finds what is enclosed and all of it: every enclosed cell is in one listed
/// cavity and in no other, every cell of a listed cavity is empty and has the block on the
/// other side of each of its six faces, and a cavity is listed with as many cells as it has.
pub proof fn law_every_enclosed_cell_is_in_one_cavity(
    grid: &Grid,
    mask: Seq<bool>,
    seeds: Seq<int>,
    voids: Seq<EnclosedVoid>,
    cell: int,
)
    requires
        grid.wf(),
        cavity_listing(grid, mask, seeds, voids),
    ensures
        seeds.len() == voids.len(),
        enclosed(grid, mask, cell) ==> exists|v: int|
            0 <= v < voids.len() && connected(grid, mask, #[trigger] seeds[v], cell),
        forall|v: int, w: int|
            #![trigger seeds[v], seeds[w]]
            0 <= v < voids.len() && 0 <= w < voids.len() && connected(grid, mask, seeds[v], cell)
                && connected(grid, mask, seeds[w], cell) ==> v == w,
        forall|v: int|
            0 <= v < voids.len() && connected(grid, mask, #[trigger] seeds[v], cell) ==> {
                let (i, j, k) = (grid.x(cell), grid.y(cell), grid.z(cell));
                &&& grid.holds(cell) && mask[cell]
                &&& grid.inside(i - 1, j, k) && grid.inside(i + 1, j, k)
                &&& grid.inside(i, j - 1, k) && grid.inside(i, j + 1, k)
                &&& grid.inside(i, j, k - 1) && grid.inside(i, j, k + 1)
            },
        forall|v: int|
            0 <= v < voids.len() ==> (#[trigger] voids[v]).cells == tally(
                grid.len(),
                where_member(|c: int| connected(grid, mask, seeds[v], c), |c: int| 1),
            ),
{
    let wanted = |c: int| enclosed(grid, mask, c);
    if enclosed(grid, mask, cell) {
        lemma_connected_reflexive(grid, mask, cell);
        let first = lemma_has_first(grid, mask, cell, cell);
        lemma_connected_symmetric(grid, mask, cell, first);
        lemma_enclosed_along(grid, mask, cell, first);
        assert forall|d: int| #[trigger] connected(grid, mask, first, d) implies first <= d by {
            lemma_connected_transitive(grid, mask, cell, first, d);
        }
        assert(first_of_piece(grid, mask, wanted, first));
        assert(seeds.contains(first));
        let v = choose|v: int| 0 <= v < seeds.len() && seeds[v] == first;
        assert(connected(grid, mask, seeds[v], cell));
    }
    assert forall|v: int, w: int|
        #![trigger seeds[v], seeds[w]]
        0 <= v < voids.len() && 0 <= w < voids.len() && connected(grid, mask, seeds[v], cell)
            && connected(grid, mask, seeds[w], cell) implies v == w by {
        assert(seeds.contains(seeds[v]) && seeds.contains(seeds[w]));
        assert(first_of_piece(grid, mask, wanted, seeds[v]));
        assert(first_of_piece(grid, mask, wanted, seeds[w]));
        lemma_connected_symmetric(grid, mask, seeds[w], cell);
        lemma_connected_transitive(grid, mask, seeds[v], cell, seeds[w]);
        lemma_connected_symmetric(grid, mask, seeds[v], seeds[w]);
    }
    assert forall|v: int|
        0 <= v < voids.len() && connected(grid, mask, #[trigger] seeds[v], cell) implies {
        let (i, j, k) = (grid.x(cell), grid.y(cell), grid.z(cell));
        &&& grid.holds(cell) && mask[cell]
        &&& grid.inside(i - 1, j, k) && grid.inside(i + 1, j, k)
        &&& grid.inside(i, j - 1, k) && grid.inside(i, j + 1, k)
        &&& grid.inside(i, j, k - 1) && grid.inside(i, j, k + 1)
    } by {
        assert(seeds.contains(seeds[v]));
        assert(first_of_piece(grid, mask, wanted, seeds[v]));
        lemma_connected_ends(grid, mask, seeds[v], cell);
        law_a_boundary_cell_has_a_face_outside(grid, cell);
    }
}

/// The bodies of a listing are its pieces, one for one, with their cells and their
/// positions, and every material cell is of one of them.
pub proof fn law_every_material_cell_is_of_one_body(
    grid: &Grid,
    mask: Seq<bool>,
    seeds: Seq<int>,
    found: Seq<EnclosedVoid>,
    bodies: Seq<SolidBody>,
    cell: int,
)
    requires
        body_listing(grid, mask, seeds, found, bodies),
    ensures
        bodies.len() == seeds.len(),
        grid.holds(cell) && mask[cell] ==> exists|v: int|
            0 <= v < bodies.len() && connected(grid, mask, #[trigger] seeds[v], cell),
        forall|v: int|
            0 <= v < bodies.len() ==> (#[trigger] bodies[v]).cells == tally(
                grid.len(),
                where_member(|c: int| connected(grid, mask, seeds[v], c), |c: int| 1),
            ),
        forall|v: int|
            0 <= v < bodies.len() ==> (#[trigger] bodies[v]).index_sum == found[v].index_sum,
        forall|v: int, w: int|
            #![trigger bodies[v], bodies[w]]
            0 <= v < w < bodies.len() ==> bodies[v].cells >= bodies[w].cells,
{
    let wanted = |c: int| grid.holds(c) && mask[c];
    if grid.holds(cell) && mask[cell] {
        lemma_connected_reflexive(grid, mask, cell);
        let first = lemma_has_first(grid, mask, cell, cell);
        lemma_connected_symmetric(grid, mask, cell, first);
        lemma_connected_ends(grid, mask, cell, first);
        assert forall|d: int| #[trigger] connected(grid, mask, first, d) implies first <= d by {
            lemma_connected_transitive(grid, mask, cell, first, d);
        }
        assert(first_of_piece(grid, mask, wanted, first));
        assert(seeds.contains(first));
        let v = choose|v: int| 0 <= v < seeds.len() && seeds[v] == first;
        assert(connected(grid, mask, seeds[v], cell));
    }
    assert forall|v: int| 0 <= v < bodies.len() implies (#[trigger] bodies[v]).cells == tally(
        grid.len(),
        where_member(|c: int| connected(grid, mask, seeds[v], c), |c: int| 1),
    ) && bodies[v].index_sum == found[v].index_sum && bodies[v].cells == found[v].cells by {
        assert(described(grid, |c: int| connected(grid, mask, seeds[v], c), found[v]));
    }
    assert forall|v: int, w: int|
        #![trigger bodies[v], bodies[w]]
        0 <= v < w < bodies.len() implies bodies[v].cells >= bodies[w].cells by {
        assert(bodies[v].cells == found[v].cells && bodies[w].cells == found[w].cells);
    }
}

} // verus!
