//! Face connectivity over a masked block, and the flood fill that follows it.

use vstd::prelude::*;

use crate::grid::Grid;
use crate::grid::{lemma_at, lemma_position, step};

verus! {

/// A walk over masked cells, each step across one face.
pub open spec fn walk(grid: &Grid, mask: Seq<bool>, path: Seq<int>) -> bool {
    &&& path.len() > 0
    &&& forall|s: int|
        0 <= s < path.len() ==> grid.holds(#[trigger] path[s]) && mask[path[s]]
    &&& forall|s: int|
        #![trigger path[s]]
        0 < s < path.len() ==> grid.adjacent(path[s - 1], path[s])
}

/// Two masked cells that a walk joins.
pub open spec fn connected(grid: &Grid, mask: Seq<bool>, a: int, b: int) -> bool {
    exists|path: Seq<int>| #[trigger]
        walk(grid, mask, path) && path.first() == a && path.last() == b
}

/// A cell that a walk joins to one of `starts`.
pub open spec fn reached_from(grid: &Grid, mask: Seq<bool>, starts: Seq<usize>, cell: int) -> bool {
    exists|s: int|
        0 <= s < starts.len() && connected(grid, mask, #[trigger] starts[s] as int, cell)
}

/// True when `cell` is one of the cells of a list.
pub open spec fn lists(cells: Seq<usize>, cell: int) -> bool {
    exists|s: int| 0 <= s < cells.len() && #[trigger] cells[s] == cell
}

/// A list with one more cell lists that cell, and what it listed before.
pub broadcast proof fn lemma_lists_push(cells: Seq<usize>, last: usize, cell: int)
    ensures
        #[trigger] lists(cells.push(last), cell) <==> lists(cells, cell) || cell == last,
{
    let longer = cells.push(last);
    if lists(cells, cell) {
        let s = choose|s: int| 0 <= s < cells.len() && #[trigger] cells[s] == cell;
        assert(longer[s] == cell);
    }
    if cell == last {
        assert(longer[cells.len() as int] == cell);
    }
}

/// No masked cell outside the set shares a face with a cell of it.
pub open spec fn closed_under(grid: &Grid, mask: Seq<bool>, set: Seq<bool>) -> bool {
    forall|a: int, b: int| #[trigger]
        grid.adjacent(a, b) && set[a] && mask[b] ==> set[b]
}

/// A masked cell is connected to itself.
pub proof fn lemma_connected_reflexive(grid: &Grid, mask: Seq<bool>, a: int)
    requires
        grid.holds(a),
        mask[a],
    ensures
        connected(grid, mask, a, a),
{
    let path = seq![a];
    assert(walk(grid, mask, path));
}

/// Both ends of a walk are masked cells of the block.
pub proof fn lemma_connected_ends(grid: &Grid, mask: Seq<bool>, a: int, b: int)
    requires
        connected(grid, mask, a, b),
    ensures
        grid.holds(a),
        grid.holds(b),
        mask[a],
        mask[b],
{
}

/// A walk goes on across one more face.
pub proof fn lemma_connected_step(grid: &Grid, mask: Seq<bool>, a: int, b: int, c: int)
    requires
        connected(grid, mask, a, b),
        grid.adjacent(b, c),
        mask[c],
    ensures
        connected(grid, mask, a, c),
{
    let path = choose|path: Seq<int>| #[trigger]
        walk(grid, mask, path) && path.first() == a && path.last() == b;
    let longer = path.push(c);
    assert forall|s: int| #![trigger longer[s]] 0 < s < longer.len() implies grid.adjacent(
        longer[s - 1],
        longer[s],
    ) by {
        if s < path.len() {
            assert(longer[s] == path[s] && longer[s - 1] == path[s - 1]);
        }
    }
    assert forall|s: int| 0 <= s < longer.len() implies grid.holds(#[trigger] longer[s])
        && mask[longer[s]] by {
        if s < path.len() {
            assert(longer[s] == path[s]);
        }
    }
    assert(walk(grid, mask, longer));
    assert(longer.first() == a && longer.last() == c);
}

/// A walk can be taken backwards.
pub proof fn lemma_connected_symmetric(grid: &Grid, mask: Seq<bool>, a: int, b: int)
    requires
        connected(grid, mask, a, b),
    ensures
        connected(grid, mask, b, a),
{
    let path = choose|path: Seq<int>| #[trigger]
        walk(grid, mask, path) && path.first() == a && path.last() == b;
    let n = path.len() as int;
    let back = Seq::new(path.len(), |s: int| path[n - 1 - s]);
    assert forall|s: int| #![trigger back[s]] 0 < s < back.len() implies grid.adjacent(
        back[s - 1],
        back[s],
    ) by {
        assert(grid.adjacent(path[n - s - 1], path[n - s]));
    }
    assert(walk(grid, mask, back));
    assert(back.first() == b && back.last() == a);
}

/// Two walks that meet are one walk.
pub proof fn lemma_connected_transitive(grid: &Grid, mask: Seq<bool>, a: int, b: int, c: int)
    requires
        connected(grid, mask, a, b),
        connected(grid, mask, b, c),
    ensures
        connected(grid, mask, a, c),
{
    let first = choose|path: Seq<int>| #[trigger]
        walk(grid, mask, path) && path.first() == a && path.last() == b;
    let second = choose|path: Seq<int>| #[trigger]
        walk(grid, mask, path) && path.first() == b && path.last() == c;
    let n = first.len() as int;
    let whole = first + second.skip(1);
    assert forall|s: int| 0 <= s < whole.len() implies grid.holds(#[trigger] whole[s])
        && mask[whole[s]] by {
        if s < n {
            assert(whole[s] == first[s]);
        } else {
            assert(whole[s] == second[s - n + 1]);
        }
    }
    assert forall|s: int| #![trigger whole[s]] 0 < s < whole.len() implies grid.adjacent(
        whole[s - 1],
        whole[s],
    ) by {
        if s < n {
            assert(whole[s] == first[s] && whole[s - 1] == first[s - 1]);
        } else {
            assert(whole[s] == second[s - n + 1]);
            assert(whole[s - 1] == second[s - n]);
        }
    }
    assert(walk(grid, mask, whole));
    assert(whole.first() == a);
    assert(whole.last() == c);
}

/// A closed set keeps every walk that starts in it.
pub proof fn lemma_closed_keeps_walks(
    grid: &Grid,
    mask: Seq<bool>,
    set: Seq<bool>,
    a: int,
    b: int,
)
    requires
        closed_under(grid, mask, set),
        set[a],
        connected(grid, mask, a, b),
    ensures
        set[b],
{
    let path = choose|path: Seq<int>| #[trigger]
        walk(grid, mask, path) && path.first() == a && path.last() == b;
    lemma_closed_along_walk(grid, mask, set, path, path.len() - 1);
}

proof fn lemma_closed_along_walk(
    grid: &Grid,
    mask: Seq<bool>,
    set: Seq<bool>,
    path: Seq<int>,
    s: int,
)
    requires
        closed_under(grid, mask, set),
        walk(grid, mask, path),
        set[path.first()],
        0 <= s < path.len(),
    ensures
        set[path[s]],
    decreases s,
{
    if s > 0 {
        lemma_closed_along_walk(grid, mask, set, path, s - 1);
        assert(grid.adjacent(path[s - 1], path[s]));
    }
}

/// True when a cell touches the boundary of the grid block.
pub fn on_boundary(grid: &Grid, cell: usize) -> (answer: bool)
    requires
        grid.wf(),
        grid.holds(cell as int),
    ensures
        answer == grid.boundary(cell as int),
{
    let (i, j, k) = grid.cell_ijk(cell);
    i == 0 || j == 0 || k == 0 || i + 1 == grid.nx || j + 1 == grid.ny || k + 1 == grid.nz
}

/// The cell at a position, or nothing where the position is outside the block.
pub open spec fn face(grid: &Grid, i: int, j: int, k: int) -> Seq<usize> {
    if grid.inside(i, j, k) {
        seq![grid.at(i, j, k) as usize]
    } else {
        seq![]
    }
}

/// A position lists its own cell alone.
proof fn lemma_face(grid: &Grid, i: int, j: int, k: int)
    requires
        grid.wf(),
    ensures
        forall|c: int| #[trigger]
            lists(face(grid, i, j, k), c) <==> grid.holds(c) && grid.x(c) == i && grid.y(c) == j
                && grid.z(c) == k,
        face(grid, i, j, k).len() <= 1,
{
    assert(grid.cells.len() == grid.len());
    if grid.inside(i, j, k) {
        lemma_at(grid, i, j, k);
        assert(face(grid, i, j, k)[0] == grid.at(i, j, k));
    }
    assert forall|c: int| #[trigger]
        lists(face(grid, i, j, k), c) <==> grid.holds(c) && grid.x(c) == i && grid.y(c) == j
            && grid.z(c) == k by {
        if grid.holds(c) && grid.x(c) == i && grid.y(c) == j && grid.z(c) == k {
            lemma_position(grid, c);
            assert(face(grid, i, j, k)[0] == c);
        }
    }
}

/// Two lists put together list what either lists, and list it once where each
/// did and they share nothing.
proof fn lemma_lists_add(a: Seq<usize>, b: Seq<usize>)
    ensures
        forall|c: int| #[trigger] lists(a + b, c) <==> lists(a, c) || lists(b, c),
        a.no_duplicates() && b.no_duplicates() && (forall|c: int|
            !(#[trigger] lists(a, c) && lists(b, c))) ==> (a + b).no_duplicates(),
{
    let both = a + b;
    assert forall|c: int| #[trigger] lists(both, c) <==> lists(a, c) || lists(b, c) by {
        if lists(a, c) {
            let s = choose|s: int| 0 <= s < a.len() && #[trigger] a[s] == c;
            assert(both[s] == c);
        }
        if lists(b, c) {
            let s = choose|s: int| 0 <= s < b.len() && #[trigger] b[s] == c;
            assert(both[a.len() + s] == c);
        }
        if lists(both, c) {
            let s = choose|s: int| 0 <= s < both.len() && #[trigger] both[s] == c;
            if s < a.len() {
                assert(a[s] == c);
            } else {
                assert(b[s - a.len()] == c);
            }
        }
    }
    if a.no_duplicates() && b.no_duplicates() && (forall|c: int|
        !(#[trigger] lists(a, c) && lists(b, c))) {
        assert forall|s: int, t: int| 0 <= s < t < both.len() implies both[s] != both[t] by {
            if s < a.len() && t >= a.len() {
                assert(lists(a, a[s] as int));
                assert(lists(b, b[t - a.len()] as int));
            }
        }
    }
}

/// The cells that share a face with the one at a position, axis by axis.
pub open spec fn faces(grid: &Grid, i: int, j: int, k: int) -> Seq<usize> {
    face(grid, i - 1, j, k) + face(grid, i + 1, j, k) + face(grid, i, j - 1, k) + face(
        grid,
        i,
        j + 1,
        k,
    ) + face(grid, i, j, k - 1) + face(grid, i, j, k + 1)
}

/// The face neighbours are exactly the cells one face away.
proof fn lemma_faces(grid: &Grid, i: int, j: int, k: int)
    requires
        grid.wf(),
    ensures
        faces(grid, i, j, k).no_duplicates(),
        forall|c: int| #[trigger]
            lists(faces(grid, i, j, k), c) <==> grid.holds(c) && step(i, grid.x(c)) + step(
                j,
                grid.y(c),
            ) + step(k, grid.z(c)) == 1,
{
    let west = face(grid, i - 1, j, k);
    let east = face(grid, i + 1, j, k);
    let south = face(grid, i, j - 1, k);
    let north = face(grid, i, j + 1, k);
    let below = face(grid, i, j, k - 1);
    let above = face(grid, i, j, k + 1);
    lemma_face(grid, i - 1, j, k);
    lemma_face(grid, i + 1, j, k);
    lemma_face(grid, i, j - 1, k);
    lemma_face(grid, i, j + 1, k);
    lemma_face(grid, i, j, k - 1);
    lemma_face(grid, i, j, k + 1);
    lemma_lists_add(west, east);
    lemma_lists_add(west + east, south);
    lemma_lists_add(west + east + south, north);
    lemma_lists_add(west + east + south + north, below);
    lemma_lists_add(west + east + south + north + below, above);
}

/// The face neighbours of a cell, at most six of them: along each axis in turn,
/// the one before and the one behind.
pub fn neighbours(grid: &Grid, cell: usize) -> (near: Vec<usize>)
    requires
        grid.wf(),
        grid.holds(cell as int),
    ensures
        near@ == faces(grid, grid.x(cell as int), grid.y(cell as int), grid.z(cell as int)),
        near@.no_duplicates(),
        forall|c: int| #![trigger lists(near@, c)] lists(near@, c) <==> grid.adjacent(cell as int, c),
{
    let (i, j, k) = grid.cell_ijk(cell);
    let mut near: Vec<usize> = Vec::new();
    if i > 0 {
        near.push(grid.cell_index(i - 1, j, k));
    }
    if i + 1 < grid.nx {
        near.push(grid.cell_index(i + 1, j, k));
    }
    if j > 0 {
        near.push(grid.cell_index(i, j - 1, k));
    }
    if j + 1 < grid.ny {
        near.push(grid.cell_index(i, j + 1, k));
    }
    if k > 0 {
        near.push(grid.cell_index(i, j, k - 1));
    }
    if k + 1 < grid.nz {
        near.push(grid.cell_index(i, j, k + 1));
    }
    proof {
        assert(near@ =~= faces(grid, i as int, j as int, k as int));
        lemma_faces(grid, i as int, j as int, k as int);
    }
    near
}

/// A list of distinct cells of a block of `n` is no longer than `n`.
pub proof fn lemma_distinct_cells(cells: Seq<usize>, n: int)
    requires
        cells.no_duplicates(),
        0 <= n,
        forall|s: int| 0 <= s < cells.len() ==> #[trigger] cells[s] < n,
    ensures
        cells.len() <= n,
{
    let wide = cells.map_values(|c: usize| c as int);
    assert(wide.no_duplicates());
    wide.unique_seq_to_set();
    vstd::set_lib::lemma_int_range(0, n);
    assert(wide.to_set().subset_of(vstd::set_lib::set_int_range(0, n)));
    vstd::set_lib::lemma_len_subset(wide.to_set(), vstd::set_lib::set_int_range(0, n));
}

/// What holds of a fill under way.
///
/// The marked cells are those marked `before` and some that a walk joins to a
/// start, `found` lists the new ones once each, and only a cell that is waiting,
/// or the one being looked at, may have a masked neighbour that is not marked.
spec fn filling(
    grid: &Grid,
    mask: Seq<bool>,
    before: Seq<bool>,
    starts: Seq<usize>,
    seen: Seq<bool>,
    waiting: Seq<usize>,
    found: Seq<usize>,
    looking_at: int,
) -> bool {
    &&& mask.len() == grid.len()
    &&& before.len() == grid.len()
    &&& seen.len() == grid.len()
    &&& forall|c: int| #[trigger]
        lists(waiting, c) ==> grid.holds(c) && seen[c] && reached_from(grid, mask, starts, c)
    &&& forall|a: int, b: int| #[trigger]
        grid.adjacent(a, b) && seen[a] && mask[b] && a != looking_at && !lists(waiting, a)
            ==> seen[b]
    &&& forall|c: int|
        grid.holds(c) && #[trigger] seen[c] ==> before[c] || reached_from(grid, mask, starts, c)
    &&& forall|c: int| grid.holds(c) && before[c] ==> #[trigger] seen[c]
    &&& found.no_duplicates()
    &&& found.len() <= grid.len()
    &&& forall|c: int| #[trigger]
        lists(found, c) <==> grid.holds(c) && seen[c] && !before[c]
}

/// Marking a masked neighbour of the cell being looked at keeps the fill going.
proof fn lemma_mark(
    grid: &Grid,
    mask: Seq<bool>,
    before: Seq<bool>,
    starts: Seq<usize>,
    seen: Seq<bool>,
    waiting: Seq<usize>,
    found: Seq<usize>,
    cell: int,
    next: usize,
)
    requires
        filling(grid, mask, before, starts, seen, waiting, found, cell),
        grid.adjacent(cell, next as int),
        mask[next as int],
        !seen[next as int],
        reached_from(grid, mask, starts, cell),
    ensures
        filling(
            grid,
            mask,
            before,
            starts,
            seen.update(next as int, true),
            waiting.push(next),
            found.push(next),
            cell,
        ),
{
    broadcast use lemma_lists_push;

    let s = choose|s: int|
        0 <= s < starts.len() && connected(grid, mask, #[trigger] starts[s] as int, cell);
    lemma_connected_step(grid, mask, starts[s] as int, cell, next as int);
    assert(reached_from(grid, mask, starts, next as int));
    let longer = found.push(next);
    assert(!lists(found, next as int));
    assert(longer.no_duplicates());
    assert forall|s: int| 0 <= s < longer.len() implies #[trigger] longer[s] < grid.len() by {
        assert(lists(longer, longer[s] as int));
    }
    lemma_distinct_cells(longer, grid.len());
}

/// Walk outward from `starts` over the masked cells, marking everything met.
///
/// `starts` is already marked when the walk begins, and so may be other cells
/// whose every masked neighbour is marked. The cells marked on the way come back
/// in the order they were met.
pub fn spread(grid: &Grid, mask: &Vec<bool>, seen: &mut Vec<bool>, starts: Vec<usize>) -> (found:
    Vec<usize>)
    requires
        grid.wf(),
        mask@.len() == grid.len(),
        old(seen)@.len() == grid.len(),
        forall|c: int| #[trigger]
            lists(starts@, c) ==> grid.holds(c) && mask@[c] && old(seen)@[c],
        forall|a: int, b: int| #[trigger]
            grid.adjacent(a, b) && old(seen)@[a] && mask@[b] && !lists(starts@, a)
                ==> old(seen)@[b],
    ensures
        final(seen)@.len() == grid.len(),
        closed_under(grid, mask@, final(seen)@),
        forall|c: int|
            grid.holds(c) ==> (#[trigger] final(seen)@[c] <==> old(seen)@[c] || reached_from(
                grid,
                mask@,
                starts@,
                c,
            )),
        found@.no_duplicates(),
        forall|c: int| #[trigger]
            lists(found@, c) <==> grid.holds(c) && final(seen)@[c] && !old(seen)@[c],
{
    let ghost before = seen@;
    let ghost first = starts@;
    let mut queue: Vec<usize> = starts;
    let mut found: Vec<usize> = Vec::new();
    proof {
        assert forall|c: int| #[trigger] lists(queue@, c) implies reached_from(
            grid,
            mask@,
            first,
            c,
        ) by {
            lemma_connected_reflexive(grid, mask@, c);
        }
    }
    while queue.len() > 0
        invariant
            grid.wf(),
            filling(grid, mask@, before, first, seen@, queue@, found@, -1),
        decreases grid.len() - found@.len(), queue@.len(),
    {
        let ghost waiting = queue@;
        let ghost listed = found@.len();
        let cell: usize = queue.pop().unwrap();
        proof {
            assert(waiting == queue@.push(cell));
            assert forall|c: int| lists(waiting, c) <==> #[trigger] lists(queue@, c) || c == cell by {
                lemma_lists_push(queue@, cell, c);
            }
            assert(lists(waiting, cell as int));
        }
        let near = neighbours(grid, cell);
        let mut m: usize = 0;
        while m < near.len()
            invariant
                grid.wf(),
                grid.holds(cell as int),
                seen@[cell as int],
                reached_from(grid, mask@, first, cell as int),
                forall|c: int|
                    #![trigger lists(near@, c)]
                    lists(near@, c) <==> grid.adjacent(cell as int, c),
                m <= near@.len(),
                forall|s: int|
                    0 <= s < m && mask@[near@[s] as int] ==> seen@[#[trigger] near@[s] as int],
                filling(grid, mask@, before, first, seen@, queue@, found@, cell as int),
                found@.len() >= listed,
                found@.len() == listed ==> queue@.len() < waiting.len(),
            decreases near@.len() - m,
        {
            let next: usize = near[m];
            assert(lists(near@, next as int));
            if mask[next] && !seen[next] {
                proof {
                    lemma_mark(
                        grid,
                        mask@,
                        before,
                        first,
                        seen@,
                        queue@,
                        found@,
                        cell as int,
                        next,
                    );
                }
                seen.set(next, true);
                found.push(next);
                queue.push(next);
            }
            proof {
                assert forall|s: int|
                    0 <= s <= m && mask@[near@[s] as int] implies seen@[#[trigger] near@[s] as int] by {
                    assert(lists(near@, near@[s] as int));
                }
            }
            m += 1;
        }
        proof {
            assert forall|a: int, b: int| #[trigger]
                grid.adjacent(a, b) && seen@[a] && mask@[b] && !lists(
                    queue@,
                    a,
                ) implies seen@[b] by {
                if a == cell {
                    assert(lists(near@, b));
                }
            }
        }
    }
    proof {
        assert forall|a: int, b: int| #[trigger]
            grid.adjacent(a, b) && seen@[a] && mask@[b] implies seen@[b] by {
            assert(!lists(queue@, a));
        }
        assert forall|c: int|
            grid.holds(c) && reached_from(grid, mask@, first, c) implies #[trigger] seen@[c] by {
            let s = choose|s: int|
                0 <= s < first.len() && connected(grid, mask@, #[trigger] first[s] as int, c);
            assert(lists(first, first[s] as int));
            lemma_closed_keeps_walks(grid, mask@, seen@, first[s] as int, c);
        }
    }
    found
}

} // verus!
