//! The one surface every swept solid here is: a pole, some rings, a pole.
//!
//! A cylinder is two rings between the centres of its caps, an arrowhead one
//! ring between its base's centre and its apex, a sphere and a capsule any
//! number of rings between two poles. Stitching each ring to the next with two
//! triangles per segment, and each pole to its ring with one, closes the
//! surface whatever order the triangles and the vertices are written in.

use vstd::prelude::*;

use crate::mesh::{closed, edge, has_corner, in_range, met, reversed};

verus! {

/// A vertex of the surface: which ring it is on, and where on it. The poles are
/// the ring before the first and the ring behind the last, of one point each.
pub type Node = (int, int);

/// One triangle of the stitching between ring `0` and the next, `1` of the way
/// round, `2` telling the one with an edge on the next ring from the other.
pub type Facet = (int, int, bool);

/// The next point round a ring of `n`.
pub open spec fn next_on(n: int, s: int) -> int {
    if s + 1 == n {
        0
    } else {
        s + 1
    }
}

/// The previous point round a ring of `n`.
pub open spec fn previous_on(n: int, s: int) -> int {
    if s == 0 {
        n - 1
    } else {
        s - 1
    }
}

/// The node `s` round ring `r` of `rings`, a pole where there is no such ring.
pub open spec fn node(rings: int, r: int, s: int) -> Node {
    if r <= 0 || r > rings {
        (r, 0)
    } else {
        (r, s)
    }
}

/// True for the triangles the stitching has. A pole leaves one of each two.
pub open spec fn is_facet(n: int, rings: int, facet: Facet) -> bool {
    &&& 0 <= facet.0 <= rings
    &&& 0 <= facet.1 < n
    &&& if facet.2 {
        facet.0 < rings
    } else {
        facet.0 > 0
    }
}

/// The three nodes of a facet, in order.
pub open spec fn corner(n: int, rings: int, facet: Facet, i: int) -> Node {
    let (r, s, on_next) = facet;
    if i == 0 {
        node(rings, r, s)
    } else if on_next {
        if i == 1 {
            node(rings, r + 1, next_on(n, s))
        } else {
            node(rings, r + 1, s)
        }
    } else {
        if i == 1 {
            node(rings, r, next_on(n, s))
        } else {
            node(rings, r + 1, next_on(n, s))
        }
    }
}

/// The directed edge that leaves one corner of a facet.
pub open spec fn facet_edge(n: int, rings: int, facet: Facet, i: int) -> (Node, Node) {
    (corner(n, rings, facet, i), corner(n, rings, facet, if i == 2 {
        0
    } else {
        i + 1
    }))
}

/// The facet and the corner whose edge is the reverse of this one.
pub open spec fn partner(n: int, rings: int, facet: Facet, i: int) -> (Facet, int) {
    let (r, s, on_next) = facet;
    if on_next {
        if i == 0 {
            if r > 0 {
                ((r, s, false), 2)
            } else {
                ((r, next_on(n, s), true), 2)
            }
        } else if i == 1 {
            ((r + 1, s, false), 0)
        } else {
            if r > 0 {
                ((r, previous_on(n, s), false), 1)
            } else {
                ((r, previous_on(n, s), true), 0)
            }
        }
    } else {
        if i == 0 {
            ((r - 1, s, true), 1)
        } else if i == 1 {
            if r < rings {
                ((r, next_on(n, s), true), 2)
            } else {
                ((r, next_on(n, s), false), 2)
            }
        } else {
            if r < rings {
                ((r, s, true), 0)
            } else {
                ((r, previous_on(n, s), false), 1)
            }
        }
    }
}

/// Every edge of the stitching is met by its reverse.
proof fn lemma_partner(n: int, rings: int, facet: Facet, i: int)
    requires
        n >= 3,
        rings >= 1,
        is_facet(n, rings, facet),
        0 <= i < 3,
    ensures
        ({
            let (other, j) = partner(n, rings, facet, i);
            &&& is_facet(n, rings, other)
            &&& 0 <= j < 3
            &&& facet_edge(n, rings, other, j) == (
                facet_edge(n, rings, facet, i).1,
                facet_edge(n, rings, facet, i).0,
            )
        }),
{
}

/// No edge of the stitching is there twice, and none leads nowhere.
proof fn lemma_facet_edges_distinct(n: int, rings: int, a: Facet, i: int, b: Facet, j: int)
    requires
        n >= 3,
        rings >= 1,
        is_facet(n, rings, a),
        is_facet(n, rings, b),
        0 <= i < 3,
        0 <= j < 3,
    ensures
        facet_edge(n, rings, a, i) == facet_edge(n, rings, b, j) ==> a == b && i == j,
        facet_edge(n, rings, a, i).0 != facet_edge(n, rings, a, i).1,
{
}

/// True for the nodes the surface has.
pub open spec fn is_node(n: int, rings: int, at: Node) -> bool {
    if at.0 == 0 || at.0 == rings + 1 {
        at.1 == 0
    } else {
        0 < at.0 <= rings && 0 <= at.1 < n
    }
}

/// A numbering gives no two nodes of the surface one number.
pub open spec fn numbers_apart(n: int, rings: int, number: spec_fn(Node) -> int) -> bool {
    forall|a: Node, b: Node|
        #![trigger number(a), number(b)]
        is_node(n, rings, a) && is_node(n, rings, b) && number(a) == number(b) ==> a == b
}

/// A written triangle is a facet's three nodes, from whichever corner it starts;
/// `flipped` where the rings were taken in the other direction.
pub open spec fn writes(
    n: int,
    rings: int,
    number: spec_fn(Node) -> int,
    flipped: bool,
    triangle: [u32; 3],
    facet: Facet,
) -> bool {
    let a = number(corner(n, rings, facet, 0));
    let b = number(corner(n, rings, facet, 1));
    let c = number(corner(n, rings, facet, 2));
    if flipped {
        turned(triangle, c, b, a)
    } else {
        turned(triangle, a, b, c)
    }
}

/// Three vertex numbers in cyclic order.
pub open spec fn turned(triangle: [u32; 3], a: int, b: int, c: int) -> bool {
    ||| triangle[0] == a && triangle[1] == b && triangle[2] == c
    ||| triangle[0] == b && triangle[1] == c && triangle[2] == a
    ||| triangle[0] == c && triangle[1] == a && triangle[2] == b
}

/// A triangle list writes every facet of the stitching, and writes it once.
pub open spec fn writes_all(
    n: int,
    rings: int,
    number: spec_fn(Node) -> int,
    flipped: bool,
    triangles: Seq<[u32; 3]>,
    facets: Seq<Facet>,
) -> bool {
    &&& facets.len() == triangles.len()
    &&& facets.no_duplicates()
    &&& forall|t: int|
        #![trigger facets[t]]
        0 <= t < facets.len() ==> is_facet(n, rings, facets[t]) && writes(
            n,
            rings,
            number,
            flipped,
            triangles[t],
            facets[t],
        )
    &&& forall|facet: Facet| #[trigger] is_facet(n, rings, facet) ==> facets.contains(facet)
}

/// How far a triangle's first corner is behind `a`.
spec fn turned_by(triangle: [u32; 3], a: int, b: int, c: int) -> int {
    if triangle[0] == a && triangle[1] == b && triangle[2] == c {
        0
    } else if triangle[0] == b && triangle[1] == c && triangle[2] == a {
        1
    } else {
        2
    }
}

/// A corner number taken round the triangle.
spec fn round(i: int) -> int {
    if i >= 3 {
        i - 3
    } else {
        i
    }
}

/// Where a written triangle starts, seen from its facet.
spec fn start_of(
    n: int,
    rings: int,
    number: spec_fn(Node) -> int,
    flipped: bool,
    triangle: [u32; 3],
    facet: Facet,
) -> int {
    let a = number(corner(n, rings, facet, 0));
    let b = number(corner(n, rings, facet, 1));
    let c = number(corner(n, rings, facet, 2));
    if flipped {
        turned_by(triangle, c, b, a)
    } else {
        turned_by(triangle, a, b, c)
    }
}

/// The facet's corner whose edge a triangle's corner writes, the triangle
/// starting `start` corners on.
spec fn written_side(flipped: bool, start: int, i: int) -> int {
    let at = round(start + i);
    if !flipped {
        at
    } else if at == 0 {
        1
    } else if at == 1 {
        0
    } else {
        2
    }
}

/// The triangle's corner that writes the edge of a facet's corner.
spec fn writing_corner(flipped: bool, start: int, side: int) -> int {
    let at = if !flipped {
        side
    } else if side == 1 {
        0
    } else if side == 0 {
        1
    } else {
        2
    };
    round(at + 3 - start)
}

/// A written edge is a facet's, taken the other way where the surface is
/// flipped.
proof fn lemma_written_edge(
    n: int,
    rings: int,
    number: spec_fn(Node) -> int,
    flipped: bool,
    triangles: Seq<[u32; 3]>,
    t: int,
    facet: Facet,
    i: int,
)
    requires
        0 <= i < 3,
        writes(n, rings, number, flipped, triangles[t], facet),
    ensures
        ({
            let start = start_of(n, rings, number, flipped, triangles[t], facet);
            let side = written_side(flipped, start, i);
            let written = edge(triangles, t, i);
            let meant = facet_edge(n, rings, facet, side);
            &&& 0 <= start < 3
            &&& 0 <= side < 3
            &&& if flipped {
                written.0 == number(meant.1) && written.1 == number(meant.0)
            } else {
                written.0 == number(meant.0) && written.1 == number(meant.1)
            }
        }),
{
}

/// A triangle list that writes every facet of a stitching once, under a
/// numbering that keeps its nodes apart, is a closed surface.
pub proof fn lemma_stitching_is_closed(
    n: int,
    rings: int,
    number: spec_fn(Node) -> int,
    flipped: bool,
    triangles: Seq<[u32; 3]>,
    facets: Seq<Facet>,
)
    requires
        n >= 3,
        rings >= 1,
        numbers_apart(n, rings, number),
        writes_all(n, rings, number, flipped, triangles, facets),
    ensures
        closed(triangles),
{
    assert forall|t: int, i: int, u: int, j: int|
        #![trigger edge(triangles, t, i), edge(triangles, u, j)]
        has_corner(triangles, t, i) && has_corner(triangles, u, j) && edge(triangles, t, i) == edge(
            triangles,
            u,
            j,
        ) implies t == u && i == j by {
        let (a, b) = (facets[t], facets[u]);
        lemma_written_edge(n, rings, number, flipped, triangles, t, a, i);
        lemma_written_edge(n, rings, number, flipped, triangles, u, b, j);
        let p = written_side(
            flipped,
            start_of(n, rings, number, flipped, triangles[t], a),
            i,
        );
        let q = written_side(
            flipped,
            start_of(n, rings, number, flipped, triangles[u], b),
            j,
        );
        let (first, second) = (facet_edge(n, rings, a, p), facet_edge(n, rings, b, q));
        assert(number(first.0) == number(second.0) && number(first.1) == number(second.1));
        assert(first == second);
        lemma_facet_edges_distinct(n, rings, a, p, b, q);
        assert(t == u);
    }
    assert forall|t: int, i: int|
        #![trigger edge(triangles, t, i)]
        has_corner(triangles, t, i) implies edge(triangles, t, i).0 != edge(triangles, t, i).1
        && met(triangles, t, i) by {
        let a = facets[t];
        lemma_written_edge(n, rings, number, flipped, triangles, t, a, i);
        let p = written_side(
            flipped,
            start_of(n, rings, number, flipped, triangles[t], a),
            i,
        );
        let meant = facet_edge(n, rings, a, p);
        lemma_facet_edges_distinct(n, rings, a, p, a, p);
        assert(number(meant.0) != number(meant.1));
        lemma_partner(n, rings, a, p);
        let (b, q) = partner(n, rings, a, p);
        assert(facets.contains(b));
        let u = choose|u: int| 0 <= u < facets.len() && facets[u] == b;
        assert(is_facet(n, rings, facets[u]));
        let start = start_of(n, rings, number, flipped, triangles[u], b);
        let j = writing_corner(flipped, start, q);
        assert(0 <= start < 3);
        lemma_written_edge(n, rings, number, flipped, triangles, u, b, j);
        assert(written_side(flipped, start, j) == q);
        assert(edge(triangles, u, j) == reversed(edge(triangles, t, i)));
    }
}

/// A facet, where the stitching has it.
pub open spec fn facet_if(n: int, rings: int, facet: Facet) -> Seq<Facet> {
    if is_facet(n, rings, facet) {
        seq![facet]
    } else {
        seq![]
    }
}

/// The facets one segment of one band has, either of its two first.
pub open spec fn segment_facets(
    n: int,
    rings: int,
    r: int,
    s: int,
    next_first: bool,
) -> Seq<Facet> {
    facet_if(n, rings, (r, s, next_first)) + facet_if(n, rings, (r, s, !next_first))
}

/// The facets of the first segments of one band, in order round it.
pub open spec fn band_facets(
    n: int,
    rings: int,
    r: int,
    segments: int,
    next_first: bool,
) -> Seq<Facet>
    decreases segments,
{
    if segments <= 0 {
        seq![]
    } else {
        band_facets(n, rings, r, segments - 1, next_first) + segment_facets(
            n,
            rings,
            r,
            segments - 1,
            next_first,
        )
    }
}

/// The facets of the first bands, in order along the sweep.
pub open spec fn sweep_facets(n: int, rings: int, bands: int, next_first: bool) -> Seq<Facet>
    decreases bands,
{
    if bands <= 0 {
        seq![]
    } else {
        sweep_facets(n, rings, bands - 1, next_first) + band_facets(
            n,
            rings,
            bands - 1,
            n,
            next_first,
        )
    }
}

/// Two lists that share nothing and repeat nothing repeat nothing together.
proof fn lemma_join(a: Seq<Facet>, b: Seq<Facet>)
    ensures
        forall|f: Facet| #[trigger] (a + b).contains(f) <==> a.contains(f) || b.contains(f),
        a.no_duplicates() && b.no_duplicates() && (forall|f: Facet|
            !(#[trigger] a.contains(f) && b.contains(f))) ==> (a + b).no_duplicates(),
{
    let both = a + b;
    assert forall|f: Facet| #[trigger] both.contains(f) <==> a.contains(f) || b.contains(f) by {
        if a.contains(f) {
            let t = choose|t: int| 0 <= t < a.len() && a[t] == f;
            assert(both[t] == f);
        }
        if b.contains(f) {
            let t = choose|t: int| 0 <= t < b.len() && b[t] == f;
            assert(both[a.len() + t] == f);
        }
        if both.contains(f) {
            let t = choose|t: int| 0 <= t < both.len() && both[t] == f;
            if t < a.len() {
                assert(a[t] == f);
            } else {
                assert(b[t - a.len()] == f);
            }
        }
    }
    if a.no_duplicates() && b.no_duplicates() && (forall|f: Facet|
        !(#[trigger] a.contains(f) && b.contains(f))) {
        assert forall|t: int, u: int| 0 <= t < u < both.len() implies both[t] != both[u] by {
            if t < a.len() && u >= a.len() {
                assert(a.contains(a[t]));
                assert(b.contains(b[u - a.len()]));
            }
        }
    }
}

proof fn lemma_segment_facets(n: int, rings: int, r: int, s: int, next_first: bool)
    ensures
        segment_facets(n, rings, r, s, next_first).no_duplicates(),
        forall|f: Facet| #[trigger]
            segment_facets(n, rings, r, s, next_first).contains(f) <==> is_facet(n, rings, f)
                && f.0 == r && f.1 == s,
{
    let a: Facet = (r, s, next_first);
    let b: Facet = (r, s, !next_first);
    lemma_join(facet_if(n, rings, a), facet_if(n, rings, b));
    assert forall|f: Facet| #[trigger] facet_if(n, rings, a).contains(f) <==> is_facet(n, rings, f)
        && f == a by {
        if is_facet(n, rings, a) {
            assert(facet_if(n, rings, a)[0] == a);
        }
    }
    assert forall|f: Facet| #[trigger] facet_if(n, rings, b).contains(f) <==> is_facet(n, rings, f)
        && f == b by {
        if is_facet(n, rings, b) {
            assert(facet_if(n, rings, b)[0] == b);
        }
    }
}

proof fn lemma_band_facets(n: int, rings: int, r: int, segments: int, next_first: bool)
    requires
        segments <= n,
    ensures
        band_facets(n, rings, r, segments, next_first).no_duplicates(),
        forall|f: Facet| #[trigger]
            band_facets(n, rings, r, segments, next_first).contains(f) <==> is_facet(n, rings, f)
                && f.0 == r && f.1 < segments,
    decreases segments,
{
    if segments > 0 {
        lemma_band_facets(n, rings, r, segments - 1, next_first);
        lemma_segment_facets(n, rings, r, segments - 1, next_first);
        lemma_join(
            band_facets(n, rings, r, segments - 1, next_first),
            segment_facets(n, rings, r, segments - 1, next_first),
        );
    }
}

/// The sweep has every facet of its bands, once.
pub proof fn lemma_sweep_facets(n: int, rings: int, bands: int, next_first: bool)
    ensures
        sweep_facets(n, rings, bands, next_first).no_duplicates(),
        forall|f: Facet| #[trigger]
            sweep_facets(n, rings, bands, next_first).contains(f) <==> is_facet(n, rings, f)
                && f.0 < bands,
    decreases bands,
{
    if bands > 0 {
        lemma_sweep_facets(n, rings, bands - 1, next_first);
        lemma_band_facets(n, rings, bands - 1, n, next_first);
        lemma_join(
            sweep_facets(n, rings, bands - 1, next_first),
            band_facets(n, rings, bands - 1, n, next_first),
        );
    }
}

/// The number a node has where the poles are the first and the last vertex and
/// the rings stand between them, one behind the other.
pub open spec fn swept_number(n: int, rings: int, at: Node) -> int {
    if at.0 <= 0 {
        0
    } else if at.0 > rings {
        1 + rings * n
    } else {
        1 + (at.0 - 1) * n + at.1
    }
}

/// A facet as a triangle starting from its first corner, the other way round
/// where the surface is flipped.
pub open spec fn written(n: int, rings: int, flipped: bool, facet: Facet) -> [u32; 3] {
    let a = swept_number(n, rings, corner(n, rings, facet, 0)) as u32;
    let b = swept_number(n, rings, corner(n, rings, facet, 1)) as u32;
    let c = swept_number(n, rings, corner(n, rings, facet, 2)) as u32;
    if flipped {
        [a, c, b]
    } else {
        [a, b, c]
    }
}

/// The triangles of the whole sweep.
pub open spec fn swept_triangles(n: int, rings: int, flipped: bool, next_first: bool) -> Seq<
    [u32; 3],
> {
    sweep_facets(n, rings, rings + 1, next_first).map_values(
        |f: Facet| written(n, rings, flipped, f),
    )
}

/// Where a ring's points stand among the vertices.
pub proof fn lemma_swept_number(n: int, rings: int, at: Node)
    requires
        n >= 1,
        rings >= 1,
        is_node(n, rings, at),
    ensures
        0 <= swept_number(n, rings, at) < 2 + rings * n,
        0 < at.0 <= rings ==> 1 <= swept_number(n, rings, at) < 1 + rings * n,
{
    if 0 < at.0 <= rings {
        assert(0 <= (at.0 - 1) * n && (at.0 - 1) * n + n <= rings * n) by (nonlinear_arith)
            requires
                0 < at.0 <= rings,
                n >= 1,
        ;
    } else {
        assert(rings * n >= 0) by (nonlinear_arith)
            requires
                rings >= 1,
                n >= 1,
        ;
    }
}

proof fn lemma_swept_numbers_apart(n: int, rings: int)
    requires
        n >= 3,
        rings >= 1,
    ensures
        numbers_apart(n, rings, |at: Node| swept_number(n, rings, at)),
{
    let number = |at: Node| swept_number(n, rings, at);
    assert forall|a: Node, b: Node|
        #![trigger number(a), number(b)]
        is_node(n, rings, a) && is_node(n, rings, b) && number(a) == number(b) implies a == b by {
        lemma_swept_number(n, rings, a);
        lemma_swept_number(n, rings, b);
        if 0 < a.0 <= rings && 0 < b.0 <= rings {
            let (p, q) = (a.0 - 1, b.0 - 1);
            let (s, t) = (a.1, b.1);
            assert(p == q && s == t) by (nonlinear_arith)
                requires
                    p * n + s == q * n + t,
                    0 <= s < n,
                    0 <= t < n,
            ;
        }
    }
}

/// The sweep is closed and names no vertex that is not there.
pub proof fn lemma_sweep_is_closed(n: int, rings: int, flipped: bool, next_first: bool)
    requires
        n >= 3,
        rings >= 1,
        2 + rings * n <= u32::MAX,
    ensures
        closed(swept_triangles(n, rings, flipped, next_first)),
        in_range(swept_triangles(n, rings, flipped, next_first), 2 + rings * n),
{
    let facets = sweep_facets(n, rings, rings + 1, next_first);
    let triangles = swept_triangles(n, rings, flipped, next_first);
    let number = |at: Node| swept_number(n, rings, at);
    lemma_sweep_facets(n, rings, rings + 1, next_first);
    lemma_swept_numbers_apart(n, rings);
    assert forall|t: int|
        #![trigger facets[t]]
        0 <= t < facets.len() implies is_facet(n, rings, facets[t]) && writes(
        n,
        rings,
        number,
        flipped,
        triangles[t],
        facets[t],
    ) && triangles[t][0] < 2 + rings * n && triangles[t][1] < 2 + rings * n && triangles[t][2] < 2
        + rings * n by {
        assert(facets.contains(facets[t]));
        let f = facets[t];
        assert(is_facet(n, rings, f));
        lemma_swept_number(n, rings, corner(n, rings, f, 0));
        lemma_swept_number(n, rings, corner(n, rings, f, 1));
        lemma_swept_number(n, rings, corner(n, rings, f, 2));
        assert(triangles[t] == written(n, rings, flipped, f));
    }
    lemma_stitching_is_closed(n, rings, number, flipped, triangles, facets);
    assert forall|t: int|
        #![trigger triangles[t]]
        0 <= t < triangles.len() implies triangles[t][0] < 2 + rings * n && triangles[t][1] < 2
        + rings * n && triangles[t][2] < 2 + rings * n by {
        assert(facets[t] == facets[t]);
        assert(is_facet(n, rings, facets[t]));
    }
}

/// How many facets a segment of a band has.
spec fn facets_per_segment(rings: int, r: int) -> int {
    if r == 0 || r == rings {
        1
    } else {
        2
    }
}

proof fn lemma_band_len(n: int, rings: int, r: int, segments: int, next_first: bool)
    requires
        rings >= 1,
        0 <= r <= rings,
        0 <= segments <= n,
    ensures
        band_facets(n, rings, r, segments, next_first).len() == segments * facets_per_segment(
            rings,
            r,
        ),
    decreases segments,
{
    if segments > 0 {
        lemma_band_len(n, rings, r, segments - 1, next_first);
        let each = facets_per_segment(rings, r);
        assert(segments * each == (segments - 1) * each + each) by (nonlinear_arith);
        assert(segment_facets(n, rings, r, segments - 1, next_first).len() == each);
    } else {
        assert(segments * facets_per_segment(rings, r) == 0) by (nonlinear_arith)
            requires
                segments == 0,
        ;
    }
}

proof fn lemma_sweep_len(n: int, rings: int, bands: int, next_first: bool)
    requires
        rings >= 1,
        n >= 0,
        1 <= bands <= rings,
    ensures
        sweep_facets(n, rings, bands, next_first).len() == n * (2 * bands - 1),
    decreases bands,
{
    lemma_band_len(n, rings, bands - 1, n, next_first);
    if bands == 1 {
        assert(sweep_facets(n, rings, 0, next_first).len() == 0);
        assert(n * (2 * bands - 1) == n) by (nonlinear_arith)
            requires
                bands == 1,
        ;
    } else {
        lemma_sweep_len(n, rings, bands - 1, next_first);
        assert(n * (2 * bands - 1) == n * (2 * (bands - 1) - 1) + n * 2) by (nonlinear_arith);
    }
}

/// A sweep has two triangles for each segment of each ring.
pub proof fn lemma_swept_triangle_count(n: int, rings: int, flipped: bool, next_first: bool)
    requires
        rings >= 1,
        n >= 0,
    ensures
        swept_triangles(n, rings, flipped, next_first).len() == 2 * n * rings,
{
    lemma_sweep_len(n, rings, rings, next_first);
    lemma_band_len(n, rings, rings, n, next_first);
    assert(n * (2 * rings - 1) + n * 1 == 2 * n * rings) by (nonlinear_arith);
}

} // verus!
