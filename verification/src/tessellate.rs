//! Analytic tessellation of the shapes the viewer draws as overlays.
//!
//! Every mesh here comes out closed and wound counter-clockwise seen from
//! outside, which is what the shaded renderer and the mesh validator expect. The
//! vertices of a box are its corners; those of a swept solid are named, by the
//! ring they are on and how far round it, for the caller to place.

use vstd::prelude::*;

use crate::mesh::{
    appended, closed, edge, has_corner, in_range, lemma_closed_by_owner, raised, Mesh,
};
use crate::scalar::{Scalar, ONE_BITS};
use crate::spindle::{
    band_facets, corner, is_facet, is_node, next_on, node, numbers_apart, segment_facets,
    sweep_facets, swept_number, swept_triangles, writes, writes_all, written, Facet, Node,
};
use crate::spindle::{
    lemma_stitching_is_closed, lemma_sweep_is_closed, lemma_swept_number,
    lemma_swept_triangle_count,
};

verus! {

/// Append `source` to `target`, shifting its triangle indices into place.
pub fn append<P: Copy>(target: &mut Mesh<P>, source: &Mesh<P>)
    requires
        old(target).vertices@.len() <= u32::MAX,
        in_range(source.triangles@, u32::MAX - old(target).vertices@.len() + 1),
    ensures
        final(target).vertices@ == old(target).vertices@ + source.vertices@,
        final(target).triangles@ == appended(
            old(target).triangles@,
            source.triangles@,
            old(target).vertices@.len() as int,
        ),
{
    let ghost vertices = target.vertices@;
    let ghost triangles = target.triangles@;
    let offset: u32 = target.vertices.len() as u32;
    let mut v: usize = 0;
    while v < source.vertices.len()
        invariant
            v <= source.vertices@.len(),
            target.vertices@ == vertices + source.vertices@.take(v as int),
            target.triangles@ == triangles,
        decreases source.vertices@.len() - v,
    {
        target.vertices.push(source.vertices[v]);
        proof {
            assert(source.vertices@.take(v + 1) =~= source.vertices@.take(v as int).push(
                source.vertices@[v as int],
            ));
        }
        v += 1;
    }
    assert(source.vertices@.take(v as int) =~= source.vertices@);
    let mut t: usize = 0;
    while t < source.triangles.len()
        invariant
            t <= source.triangles@.len(),
            offset == vertices.len(),
            in_range(source.triangles@, u32::MAX - offset + 1),
            target.vertices@ == vertices + source.vertices@,
            target.triangles@ == appended(
                triangles,
                source.triangles@.take(t as int),
                offset as int,
            ),
        decreases source.triangles@.len() - t,
    {
        let triangle: [u32; 3] = source.triangles[t];
        let moved: [u32; 3] = [triangle[0] + offset, triangle[1] + offset, triangle[2] + offset];
        target.triangles.push(moved);
        proof {
            assert(moved =~= raised(triangle, offset as int));
            assert(source.triangles@.take(t + 1) =~= source.triangles@.take(t as int).push(
                triangle,
            ));
            assert(target.triangles@ =~= appended(
                triangles,
                source.triangles@.take(t + 1),
                offset as int,
            ));
        }
        t += 1;
    }
    assert(source.triangles@.take(t as int) =~= source.triangles@);
}

/// The eight corners of an axis aligned box, base face first, anticlockwise.
pub open spec fn box_corners<T>(min: [T; 3], max: [T; 3]) -> Seq<[T; 3]> {
    seq![
        [min[0], min[1], min[2]],
        [max[0], min[1], min[2]],
        [max[0], max[1], min[2]],
        [min[0], max[1], min[2]],
        [min[0], min[1], max[2]],
        [max[0], min[1], max[2]],
        [max[0], max[1], max[2]],
        [min[0], max[1], max[2]],
    ]
}

/// The twelve triangles of a box.
pub open spec fn box_triangles() -> Seq<[u32; 3]> {
    seq![
        [0, 2, 1],
        [0, 3, 2],
        [4, 5, 6],
        [4, 6, 7],
        [0, 1, 5],
        [0, 5, 4],
        [1, 2, 6],
        [1, 6, 5],
        [2, 3, 7],
        [2, 7, 6],
        [3, 0, 4],
        [3, 4, 7],
    ]
}

/// Which corner of which triangle of a box an edge leaves.
spec fn box_edge_owner(from: u32, to: u32) -> (int, int) {
    if from == 0 {
        if to == 2 {
            (0, 0)
        } else if to == 3 {
            (1, 0)
        } else if to == 1 {
            (4, 0)
        } else if to == 5 {
            (5, 0)
        } else {
            (10, 1)
        }
    } else if from == 1 {
        if to == 0 {
            (0, 2)
        } else if to == 5 {
            (4, 1)
        } else if to == 2 {
            (6, 0)
        } else {
            (7, 0)
        }
    } else if from == 2 {
        if to == 1 {
            (0, 1)
        } else if to == 0 {
            (1, 2)
        } else if to == 6 {
            (6, 1)
        } else if to == 3 {
            (8, 0)
        } else {
            (9, 0)
        }
    } else if from == 3 {
        if to == 2 {
            (1, 1)
        } else if to == 7 {
            (8, 1)
        } else if to == 0 {
            (10, 0)
        } else {
            (11, 0)
        }
    } else if from == 4 {
        if to == 5 {
            (2, 0)
        } else if to == 6 {
            (3, 0)
        } else if to == 0 {
            (5, 2)
        } else if to == 3 {
            (10, 2)
        } else {
            (11, 1)
        }
    } else if from == 5 {
        if to == 6 {
            (2, 1)
        } else if to == 0 {
            (4, 2)
        } else if to == 4 {
            (5, 1)
        } else {
            (7, 2)
        }
    } else if from == 6 {
        if to == 4 {
            (2, 2)
        } else if to == 7 {
            (3, 1)
        } else if to == 1 {
            (6, 2)
        } else if to == 5 {
            (7, 1)
        } else {
            (9, 2)
        }
    } else {
        if to == 4 {
            (3, 2)
        } else if to == 2 {
            (8, 2)
        } else if to == 6 {
            (9, 1)
        } else {
            (11, 2)
        }
    }
}

/// A box is closed.
pub proof fn law_a_box_is_closed()
    ensures
        closed(box_triangles()),
        in_range(box_triangles(), 8),
{
    lemma_closed_by_owner(box_triangles(), |from: u32, to: u32| box_edge_owner(from, to));
}

/// Axis aligned box.
pub fn box_mesh<T: Copy>(min: [T; 3], max: [T; 3]) -> (mesh: Mesh<[T; 3]>)
    ensures
        mesh.vertices@ == box_corners(min, max),
        mesh.triangles@ == box_triangles(),
{
    let unturned = Scalar { bits: 0 };
    rotated_box_mesh(min, max, [unturned, unturned, unturned], [min, min, min, min, min, min, min, min])
}

/// The order in which corners counted by an axis bit mask go round the base face
/// anticlockwise, and round the top face above it.
pub open spec fn corner_order() -> Seq<int> {
    seq![0, 1, 3, 2, 4, 5, 7, 6]
}

/// True when a turn about the three axes is none at all.
pub open spec fn unrotated(rotation_deg: [Scalar; 3]) -> bool {
    forall|d: int| 0 <= d < 3 ==> (#[trigger] rotation_deg[d]).equals(Scalar { bits: 0 })
}

/// Whether a turn about the three axes is none at all, in which case a shape is
/// where its own measures say and nothing is computed about it.
pub fn is_unrotated(rotation_deg: [Scalar; 3]) -> (answer: bool)
    ensures
        answer == unrotated(rotation_deg),
{
    let nothing = Scalar { bits: 0 };
    rotation_deg[0].same(nothing) && rotation_deg[1].same(nothing) && rotation_deg[2].same(nothing)
}

/// The vertices of a box: its own corners where it is not turned, and otherwise
/// `turned`, which has them turned about its centre and counted by an (x, y, z)
/// bit mask.
pub open spec fn box_vertices<T>(
    min: [T; 3],
    max: [T; 3],
    rotation_deg: [Scalar; 3],
    turned: [[T; 3]; 8],
) -> Seq<[T; 3]> {
    if unrotated(rotation_deg) {
        box_corners(min, max)
    } else {
        corner_order().map_values(|k: int| turned[k])
    }
}

/// However a box is turned it has eight vertices, and twelve triangles that close
/// it: every edge is walked once each way, so that what is outside of one face is
/// outside of all. The triangles are the same at every turn, the vertices are the
/// turned corners, each of them once, and a box that is not turned, or whose
/// corners the turn leaves where they are, is the axis aligned box.
pub proof fn law_a_turned_box_is_the_box_turned<T>(
    min: [T; 3],
    max: [T; 3],
    rotation_deg: [Scalar; 3],
    turned: [[T; 3]; 8],
)
    ensures
        box_vertices(min, max, rotation_deg, turned).len() == 8,
        box_triangles().len() == 12,
        closed(box_triangles()),
        in_range(box_triangles(), box_vertices(min, max, rotation_deg, turned).len() as int),
        unrotated(rotation_deg) ==> box_vertices(min, max, rotation_deg, turned) == box_corners(
            min,
            max,
        ),
        !unrotated(rotation_deg) ==> forall|k: int|
            0 <= k < 8 ==> box_vertices(min, max, rotation_deg, turned)[#[trigger] corner_order()[k]]
                == turned[k],
        (forall|k: int| 0 <= k < 8 ==> #[trigger] turned[k] == counted_corner(min, max, k))
            ==> box_vertices(min, max, rotation_deg, turned) == box_corners(min, max),
{
    law_a_box_is_closed();
    if forall|k: int| 0 <= k < 8 ==> #[trigger] turned[k] == counted_corner(min, max, k) {
        let placed = corner_order().map_values(|k: int| turned[k]);
        assert forall|k: int| 0 <= k < 8 implies #[trigger] placed[k] == box_corners(min, max)[k] by {
            assert(turned[corner_order()[k]] == counted_corner(min, max, corner_order()[k]));
            assert(placed[k] =~= box_corners(min, max)[k]);
        }
        assert(placed =~= box_corners(min, max));
    }
}

/// A corner of a box, counted by an (x, y, z) bit mask.
pub open spec fn counted_corner<T>(min: [T; 3], max: [T; 3], mask: int) -> [T; 3] {
    [
        if mask % 2 == 0 {
            min[0]
        } else {
            max[0]
        },
        if mask / 2 % 2 == 0 {
            min[1]
        } else {
            max[1]
        },
        if mask / 4 == 0 {
            min[2]
        } else {
            max[2]
        },
    ]
}

/// Box turned about its own centre by a turn about each axis; `turned` has its
/// corners where the turn puts them.
///
/// A rotation is proper, so the winding of every face survives it and the mesh
/// comes out closed and outward facing exactly as the axis aligned one does.
pub fn rotated_box_mesh<T: Copy>(
    min: [T; 3],
    max: [T; 3],
    rotation_deg: [Scalar; 3],
    turned: [[T; 3]; 8],
) -> (mesh: Mesh<[T; 3]>)
    ensures
        mesh.vertices@ == box_vertices(min, max, rotation_deg, turned),
        mesh.triangles@ == box_triangles(),
{
    let mut vertices: Vec<[T; 3]> = Vec::new();
    if is_unrotated(rotation_deg) {
        vertices.push([min[0], min[1], min[2]]);
        vertices.push([max[0], min[1], min[2]]);
        vertices.push([max[0], max[1], min[2]]);
        vertices.push([min[0], max[1], min[2]]);
        vertices.push([min[0], min[1], max[2]]);
        vertices.push([max[0], min[1], max[2]]);
        vertices.push([max[0], max[1], max[2]]);
        vertices.push([min[0], max[1], max[2]]);
        assert(vertices@ =~= box_corners(min, max));
    } else {
        vertices.push(turned[0]);
        vertices.push(turned[1]);
        vertices.push(turned[3]);
        vertices.push(turned[2]);
        vertices.push(turned[4]);
        vertices.push(turned[5]);
        vertices.push(turned[7]);
        vertices.push(turned[6]);
        assert(vertices@ =~= corner_order().map_values(|k: int| turned[k]));
    }
    let mut triangles: Vec<[u32; 3]> = Vec::new();
    triangles.push([0, 2, 1]);
    triangles.push([0, 3, 2]);
    triangles.push([4, 5, 6]);
    triangles.push([4, 6, 7]);
    triangles.push([0, 1, 5]);
    triangles.push([0, 5, 4]);
    triangles.push([1, 2, 6]);
    triangles.push([1, 6, 5]);
    triangles.push([2, 3, 7]);
    triangles.push([2, 7, 6]);
    triangles.push([3, 0, 4]);
    triangles.push([3, 4, 7]);
    assert(triangles@ =~= box_triangles());
    Mesh { vertices, triangles }
}

/// A vertex of a triangular prism: which corner of the triangle, and on which
/// side of its plane.
#[derive(Clone, Copy, Debug, PartialEq, Eq, Structural)]
pub struct PrismPoint {
    /// Number of the triangle's corner, from zero.
    pub corner: usize,
    /// True on the side the triangle's normal points to.
    pub front: bool,
}

/// The six vertices of a prism, the back face first.
pub open spec fn prism_points() -> Seq<PrismPoint> {
    seq![
        PrismPoint { corner: 0, front: false },
        PrismPoint { corner: 1, front: false },
        PrismPoint { corner: 2, front: false },
        PrismPoint { corner: 0, front: true },
        PrismPoint { corner: 1, front: true },
        PrismPoint { corner: 2, front: true },
    ]
}

/// The eight triangles of a prism: its two caps, and two to each edge.
pub open spec fn prism_triangles() -> Seq<[u32; 3]> {
    seq![
        [0, 2, 1],
        [3, 4, 5],
        [0, 1, 4],
        [0, 4, 3],
        [1, 2, 5],
        [1, 5, 4],
        [2, 0, 3],
        [2, 3, 5],
    ]
}

/// Which corner of which triangle of a prism an edge leaves.
spec fn prism_edge_owner(from: u32, to: u32) -> (int, int) {
    if from == 0 {
        if to == 2 {
            (0, 0)
        } else if to == 1 {
            (2, 0)
        } else if to == 4 {
            (3, 0)
        } else {
            (6, 1)
        }
    } else if from == 1 {
        if to == 0 {
            (0, 2)
        } else if to == 4 {
            (2, 1)
        } else if to == 2 {
            (4, 0)
        } else {
            (5, 0)
        }
    } else if from == 2 {
        if to == 1 {
            (0, 1)
        } else if to == 5 {
            (4, 1)
        } else if to == 0 {
            (6, 0)
        } else {
            (7, 0)
        }
    } else if from == 3 {
        if to == 4 {
            (1, 0)
        } else if to == 0 {
            (3, 2)
        } else if to == 2 {
            (6, 2)
        } else {
            (7, 1)
        }
    } else if from == 4 {
        if to == 5 {
            (1, 1)
        } else if to == 0 {
            (2, 2)
        } else if to == 3 {
            (3, 1)
        } else {
            (5, 2)
        }
    } else {
        if to == 3 {
            (1, 2)
        } else if to == 1 {
            (4, 2)
        } else if to == 4 {
            (5, 1)
        } else {
            (7, 2)
        }
    }
}

/// A prism is closed.
pub proof fn law_a_prism_is_closed()
    ensures
        closed(prism_triangles()),
        in_range(prism_triangles(), 6),
{
    lemma_closed_by_owner(prism_triangles(), |from: u32, to: u32| prism_edge_owner(from, to));
}

/// Triangular prism: a triangle extruded `thickness` millimetres symmetrically
/// about its own plane. `has_normal` says that the triangle has a plane at all.
///
/// Two triangular caps and a quad per edge, six vertices in all. The cap on the
/// normal's side keeps the triangle's own winding, the one behind it has that
/// winding reversed, and every side quad faces away from the third vertex.
pub fn triangle_prism(has_normal: bool, thickness: Scalar) -> (mesh: Mesh<PrismPoint>)
    ensures
        !has_normal || thickness.at_most(Scalar { bits: 0 }) ==> mesh.vertices@.len() == 0
            && mesh.triangles@.len() == 0,
        has_normal && !thickness.at_most(Scalar { bits: 0 }) ==> mesh.vertices@ == prism_points()
            && mesh.triangles@ == prism_triangles(),
{
    if !has_normal || thickness.le(Scalar { bits: 0 }) {
        return Mesh::empty();
    }
    let mut vertices: Vec<PrismPoint> = Vec::new();
    vertices.push(PrismPoint { corner: 0, front: false });
    vertices.push(PrismPoint { corner: 1, front: false });
    vertices.push(PrismPoint { corner: 2, front: false });
    vertices.push(PrismPoint { corner: 0, front: true });
    vertices.push(PrismPoint { corner: 1, front: true });
    vertices.push(PrismPoint { corner: 2, front: true });
    let mut triangles: Vec<[u32; 3]> = Vec::new();
    triangles.push([0, 2, 1]);
    triangles.push([3, 4, 5]);
    triangles.push([0, 1, 4]);
    triangles.push([0, 4, 3]);
    triangles.push([1, 2, 5]);
    triangles.push([1, 5, 4]);
    triangles.push([2, 0, 3]);
    triangles.push([2, 3, 5]);
    assert(vertices@ =~= prism_points());
    assert(triangles@ =~= prism_triangles());
    Mesh { vertices, triangles }
}

/// A vertex of a swept solid.
#[derive(Clone, Copy, Debug, PartialEq, Eq, Structural)]
pub enum SweptPoint {
    /// The point `s` segments round a ring.
    Rim {
        /// Number of the ring along the sweep.
        ring: usize,
        /// Segments round it.
        s: usize,
    },
    /// The centre of a ring, or the one point a ring of no radius is.
    Hub {
        /// Number of the ring along the sweep.
        ring: usize,
    },
}

/// A number that is zero, or less than it.
pub open spec fn not_positive(value: Scalar) -> bool {
    value.at_most(Scalar { bits: 0 })
}

/// True when a cylinder has anything to draw.
pub open spec fn cylinder_drawn(length: Scalar, radius: Scalar, segments: usize) -> bool {
    !not_positive(length) && !not_positive(radius) && segments >= 3
}

/// The vertices of a cylinder: its two rims side by side, then the centres of
/// its caps.
pub open spec fn cylinder_points(n: int) -> Seq<SweptPoint> {
    Seq::new(
        (2 * n + 2) as nat,
        |v: int|
            if v < 2 * n {
                SweptPoint::Rim { ring: (v % 2) as usize, s: (v / 2) as usize }
            } else {
                SweptPoint::Hub { ring: (v - 2 * n) as usize }
            },
    )
}

/// The triangles of a cylinder: to each segment the two of the side, the far
/// cap's and the near cap's.
pub open spec fn cylinder_triangles(n: int, segments: int) -> Seq<[u32; 3]> {
    Seq::new(
        (4 * segments) as nat,
        |t: int|
            {
                let s = t / 4;
                let next = next_on(n, s);
                if t % 4 == 0 {
                    [(2 * s) as u32, (2 * next) as u32, (2 * next + 1) as u32]
                } else if t % 4 == 1 {
                    [(2 * s) as u32, (2 * next + 1) as u32, (2 * s + 1) as u32]
                } else if t % 4 == 2 {
                    [(2 * n + 1) as u32, (2 * s + 1) as u32, (2 * next + 1) as u32]
                } else {
                    [(2 * n) as u32, (2 * next) as u32, (2 * s) as u32]
                }
            },
    )
}

/// Cylinder of a length and a radius, capped by discs through its two ends.
pub fn cylinder(length: Scalar, radius: Scalar, segments: usize) -> (mesh: Mesh<SweptPoint>)
    requires
        cylinder_drawn(length, radius, segments) ==> 2 * segments + 2 <= u32::MAX,
    ensures
        cylinder_drawn(length, radius, segments) ==> mesh.vertices@ == cylinder_points(
            segments as int,
        ) && mesh.triangles@ == cylinder_triangles(segments as int, segments as int),
        !cylinder_drawn(length, radius, segments) ==> mesh.vertices@.len() == 0
            && mesh.triangles@.len() == 0,
{
    let zero = Scalar { bits: 0 };
    if length.le(zero) || radius.le(zero) || segments < 3 {
        return Mesh::empty();
    }
    let mut vertices: Vec<SweptPoint> = Vec::new();
    let mut s: usize = 0;
    while s < segments
        invariant
            s <= segments,
            vertices@.len() == 2 * s,
            forall|v: int|
                0 <= v < 2 * s ==> #[trigger] vertices@[v] == (SweptPoint::Rim {
                    ring: (v % 2) as usize,
                    s: (v / 2) as usize,
                }),
        decreases segments - s,
    {
        vertices.push(SweptPoint::Rim { ring: 0, s });
        vertices.push(SweptPoint::Rim { ring: 1, s });
        s += 1;
    }
    let low_center: u32 = vertices.len() as u32;
    vertices.push(SweptPoint::Hub { ring: 0 });
    let high_center: u32 = vertices.len() as u32;
    vertices.push(SweptPoint::Hub { ring: 1 });
    assert(vertices@ =~= cylinder_points(segments as int));

    let mut triangles: Vec<[u32; 3]> = Vec::new();
    let mut s: usize = 0;
    while s < segments
        invariant
            segments >= 3,
            2 * segments + 2 <= u32::MAX,
            low_center == 2 * segments,
            high_center == 2 * segments + 1,
            s <= segments,
            triangles@ == cylinder_triangles(segments as int, s as int),
        decreases segments - s,
    {
        let next: usize = if s + 1 == segments {
            0
        } else {
            s + 1
        };
        let (a, b): (u32, u32) = (2 * s as u32, 2 * s as u32 + 1);
        let (c, d): (u32, u32) = (2 * next as u32, 2 * next as u32 + 1);
        // Side quad, counter-clockwise seen from outside.
        triangles.push([a, c, d]);
        triangles.push([a, d, b]);
        // Caps: the far one faces along the axis, the near one against it.
        triangles.push([high_center, b, d]);
        triangles.push([low_center, c, a]);
        assert(triangles@ =~= cylinder_triangles(segments as int, s + 1));
        s += 1;
    }
    Mesh { vertices, triangles }
}

/// A cylinder is closed, at every number of segments.
pub proof fn law_a_cylinder_is_closed(n: int)
    requires
        n >= 3,
        2 * n + 2 <= u32::MAX,
    ensures
        closed(cylinder_triangles(n, n)),
        in_range(cylinder_triangles(n, n), 2 * n + 2),
{
    let triangles = cylinder_triangles(n, n);
    let number = |at: Node|
        if at.0 == 0 {
            2 * n
        } else if at.0 == 3 {
            2 * n + 1
        } else {
            2 * at.1 + at.0 - 1
        };
    let facets: Seq<Facet> = Seq::new(
        (4 * n) as nat,
        |t: int|
            if t % 4 == 0 {
                (1int, t / 4, false)
            } else if t % 4 == 1 {
                (1int, t / 4, true)
            } else if t % 4 == 2 {
                (2int, t / 4, false)
            } else {
                (0int, t / 4, true)
            },
    );
    assert forall|facet: Facet| #[trigger] is_facet(n, 2, facet) implies facets.contains(facet) by {
        let t = 4 * facet.1 + (if facet.0 == 0 {
            3int
        } else if facet.0 == 2 {
            2int
        } else if facet.2 {
            1int
        } else {
            0int
        });
        assert(facets[t] == facet);
    }
    lemma_stitching_is_closed(n, 2, number, false, triangles, facets);
}

/// True when a frustum has anything to draw.
pub open spec fn frustum_drawn(
    length: Scalar,
    radius1: Scalar,
    radius2: Scalar,
    segments: usize,
) -> bool {
    !not_positive(length) && !not_positive(radius1) && !radius2.below(Scalar { bits: 0 })
        && segments >= 3
}

/// One ring of rim points.
pub open spec fn ring_points(ring: int, n: int) -> Seq<SweptPoint> {
    Seq::new(n as nat, |s: int| SweptPoint::Rim { ring: ring as usize, s: s as usize })
}

/// The vertices of a frustum: the first rim, then the second rim or the one
/// point it is, then the centre of the near cap and, where there is one, of the
/// far cap.
pub open spec fn frustum_points(n: int, pointed: bool, capped: bool) -> Seq<SweptPoint> {
    ring_points(0, n) + (if pointed {
        seq![SweptPoint::Hub { ring: 1 }]
    } else {
        ring_points(1, n)
    }) + seq![SweptPoint::Hub { ring: 0 }] + (if capped {
        seq![SweptPoint::Hub { ring: 1 }]
    } else {
        seq![]
    })
}

/// The triangles one segment of a frustum has: the side's two, or the one an
/// apex leaves, the near cap's and, where there is one, the far cap's.
pub open spec fn frustum_segment(n: int, pointed: bool, capped: bool, s: int) -> Seq<[u32; 3]> {
    let next = next_on(n, s);
    let (a, c) = (s, next);
    let (b, d) = if pointed {
        (n, n)
    } else {
        (n + s, n + next)
    };
    let low_center = if pointed {
        n + 1
    } else {
        2 * n
    };
    seq![[a as u32, c as u32, d as u32]] + (if pointed {
        seq![]
    } else {
        seq![[a as u32, d as u32, b as u32]]
    }) + seq![[low_center as u32, c as u32, a as u32]] + (if capped {
        seq![[(low_center + 1) as u32, b as u32, d as u32]]
    } else {
        seq![]
    })
}

/// The triangles of the first segments of a frustum.
pub open spec fn frustum_triangles(n: int, pointed: bool, capped: bool, segments: int) -> Seq<
    [u32; 3],
>
    decreases segments,
{
    if segments <= 0 {
        seq![]
    } else {
        frustum_triangles(n, pointed, capped, segments - 1) + frustum_segment(
            n,
            pointed,
            capped,
            segments - 1,
        )
    }
}

/// Put a ring of points behind the vertices, or the one point an end of no
/// radius is. Returns where it starts and how many points it has, which is what
/// lets one stitching rule cover both.
fn push_ring(vertices: &mut Vec<SweptPoint>, ring: usize, pointed: bool, segments: usize) -> (slot: (
    u32,
    usize,
))
    requires
        old(vertices)@.len() <= u32::MAX,
    ensures
        slot.0 == old(vertices)@.len(),
        slot.1 == (if pointed {
            1
        } else {
            segments
        }),
        final(vertices)@ == old(vertices)@ + (if pointed {
            seq![SweptPoint::Hub { ring }]
        } else {
            ring_points(ring as int, segments as int)
        }),
{
    let ghost before = vertices@;
    let start: u32 = vertices.len() as u32;
    if pointed {
        vertices.push(SweptPoint::Hub { ring });
        assert(vertices@ =~= before + seq![SweptPoint::Hub { ring }]);
        return (start, 1);
    }
    let mut s: usize = 0;
    while s < segments
        invariant
            s <= segments,
            vertices@ == before + ring_points(ring as int, s as int),
        decreases segments - s,
    {
        vertices.push(SweptPoint::Rim { ring, s });
        assert(vertices@ =~= before + ring_points(ring as int, s + 1));
        s += 1;
    }
    assert(vertices@ =~= before + ring_points(ring as int, segments as int));
    (start, segments)
}

/// The vertex `s` round a ring.
fn slot(ring: (u32, usize), s: usize) -> (number: u32)
    requires
        ring.1 != 1 ==> ring.0 + s <= u32::MAX,
    ensures
        number == (if ring.1 == 1 {
            ring.0 as int
        } else {
            ring.0 + s
        }),
{
    if ring.1 == 1 {
        ring.0
    } else {
        ring.0 + s as u32
    }
}

/// Capped cone of a length, swept between a disc of `radius1` and one of
/// `radius2`.
///
/// The cylinder's construction with a radius per end. A `radius2` of zero is the
/// true cone: the second ring degenerates to the single apex vertex the side
/// triangles fan into, and the cap that would have closed it is dropped rather
/// than written as a ring of coincident points.
///
/// Not to be confused with [`cone`] below, which is the **arrowhead** the
/// overlays are drawn with.
pub fn frustum(length: Scalar, radius1: Scalar, radius2: Scalar, segments: usize) -> (mesh: Mesh<
    SweptPoint,
>)
    requires
        frustum_drawn(length, radius1, radius2, segments) ==> 2 * segments + 2 <= u32::MAX,
    ensures
        frustum_drawn(length, radius1, radius2, segments) ==> mesh.vertices@ == frustum_points(
            segments as int,
            not_positive(radius2),
            Scalar { bits: 0 }.below(radius2),
        ) && mesh.triangles@ == frustum_triangles(
            segments as int,
            not_positive(radius2),
            Scalar { bits: 0 }.below(radius2),
            segments as int,
        ),
        !frustum_drawn(length, radius1, radius2, segments) ==> mesh.vertices@.len() == 0
            && mesh.triangles@.len() == 0,
{
    let zero = Scalar { bits: 0 };
    if length.le(zero) || radius1.le(zero) || radius2.lt(zero) || segments < 3 {
        return Mesh::empty();
    }
    let pointed: bool = radius2.le(zero);
    let capped: bool = zero.lt(radius2);
    let ghost n = segments as int;
    let mut vertices: Vec<SweptPoint> = Vec::new();
    let low = push_ring(&mut vertices, 0, false, segments);
    let high = push_ring(&mut vertices, 1, pointed, segments);
    let low_center: u32 = vertices.len() as u32;
    vertices.push(SweptPoint::Hub { ring: 0 });
    let mut high_center: Option<u32> = None;
    if capped {
        high_center = Some(vertices.len() as u32);
        vertices.push(SweptPoint::Hub { ring: 1 });
    }
    assert(vertices@ =~= frustum_points(n, pointed, capped));

    let mut triangles: Vec<[u32; 3]> = Vec::new();
    let mut s: usize = 0;
    while s < segments
        invariant
            n == segments,
            segments >= 3,
            2 * segments + 2 <= u32::MAX,
            capped ==> !pointed,
            low == (0u32, segments),
            high.0 == segments,
            high.1 == (if pointed {
                1
            } else {
                segments
            }),
            low_center == (if pointed {
                segments + 1
            } else {
                2 * segments
            }),
            high_center == (if capped {
                Some((low_center + 1) as u32)
            } else {
                None
            }),
            s <= segments,
            triangles@ == frustum_triangles(n, pointed, capped, s as int),
        decreases segments - s,
    {
        let next: usize = if s + 1 == segments {
            0
        } else {
            s + 1
        };
        let (a, c): (u32, u32) = (slot(low, s), slot(low, next));
        let (b, d): (u32, u32) = (slot(high, s), slot(high, next));
        let ghost before = triangles@;
        // Side quad, counter-clockwise seen from outside; an apex leaves one
        // triangle of the two, which is the fan.
        if a != c {
            triangles.push([a, c, d]);
        }
        if b != d {
            triangles.push([a, d, b]);
        }
        // The near cap faces against the axis, the far one along it.
        triangles.push([low_center, c, a]);
        if let Some(center) = high_center {
            triangles.push([center, b, d]);
        }
        assert(triangles@ =~= before + frustum_segment(n, pointed, capped, s as int));
        s += 1;
    }
    Mesh { vertices, triangles }
}

/// Where each triangle of a frustum stands in the list.
proof fn lemma_frustum_triangle(n: int, pointed: bool, capped: bool, segments: int)
    requires
        capped == !pointed,
        segments >= 0,
    ensures
        frustum_triangles(n, pointed, capped, segments).len() == (if pointed {
            2 * segments
        } else {
            4 * segments
        }),
        forall|t: int|
            #![trigger frustum_triangles(n, pointed, capped, segments)[t]]
            0 <= t < frustum_triangles(n, pointed, capped, segments).len()
                ==> frustum_triangles(n, pointed, capped, segments)[t] == (if pointed {
                frustum_segment(n, pointed, capped, t / 2)[t % 2]
            } else {
                frustum_segment(n, pointed, capped, t / 4)[t % 4]
            }),
    decreases segments,
{
    if segments > 0 {
        lemma_frustum_triangle(n, pointed, capped, segments - 1);
    }
}

/// A frustum is closed, whether it ends in a disc or in a point.
pub proof fn law_a_frustum_is_closed(n: int, pointed: bool)
    requires
        n >= 3,
        2 * n + 2 <= u32::MAX,
    ensures
        closed(frustum_triangles(n, pointed, !pointed, n)),
        in_range(
            frustum_triangles(n, pointed, !pointed, n),
            frustum_points(n, pointed, !pointed).len() as int,
        ),
{
    let triangles = frustum_triangles(n, pointed, !pointed, n);
    lemma_frustum_triangle(n, pointed, !pointed, n);
    if pointed {
        let number = |at: Node|
            if at.0 == 0 {
                n + 1
            } else if at.0 == 2 {
                n
            } else {
                at.1
            };
        let facets: Seq<Facet> = Seq::new(
            (2 * n) as nat,
            |t: int|
                if t % 2 == 0 {
                    (1int, t / 2, false)
                } else {
                    (0int, t / 2, true)
                },
        );
        assert forall|facet: Facet| #[trigger]
            is_facet(n, 1, facet) implies facets.contains(facet) by {
            let t = 2 * facet.1 + (if facet.0 == 0 {
                1int
            } else {
                0int
            });
            assert(facets[t] == facet);
        }
        lemma_stitching_is_closed(n, 1, number, false, triangles, facets);
    } else {
        let number = |at: Node|
            if at.0 == 0 {
                2 * n
            } else if at.0 == 3 {
                2 * n + 1
            } else if at.0 == 1 {
                at.1
            } else {
                n + at.1
            };
        let facets: Seq<Facet> = Seq::new(
            (4 * n) as nat,
            |t: int|
                if t % 4 == 0 {
                    (1int, t / 4, false)
                } else if t % 4 == 1 {
                    (1int, t / 4, true)
                } else if t % 4 == 2 {
                    (0int, t / 4, true)
                } else {
                    (2int, t / 4, false)
                },
        );
        assert forall|facet: Facet| #[trigger]
            is_facet(n, 2, facet) implies facets.contains(facet) by {
            let t = 4 * facet.1 + (if facet.0 == 0 {
                2int
            } else if facet.0 == 2 {
                3int
            } else if facet.2 {
                1int
            } else {
                0int
            });
            assert(facets[t] == facet);
        }
        lemma_stitching_is_closed(n, 2, number, false, triangles, facets);
    }
}

/// A frustum that ends in a disc has the cylinder's own vertices, each once, and
/// as many triangles.
pub proof fn law_a_frustum_with_two_discs_has_the_cylinders_vertices(n: int, at: SweptPoint)
    requires
        n >= 3,
        2 * n + 2 <= u32::MAX,
    ensures
        frustum_points(n, false, true).contains(at) <==> cylinder_points(n).contains(at),
        frustum_points(n, false, true).len() == cylinder_points(n).len(),
        frustum_triangles(n, false, true, n).len() == cylinder_triangles(n, n).len(),
{
    let round = frustum_points(n, false, true);
    let plain = cylinder_points(n);
    lemma_frustum_triangle(n, false, true, n);
    if round.contains(at) {
        let v = choose|v: int| 0 <= v < round.len() && round[v] == at;
        if v < n {
            assert(at == ring_points(0, n)[v]);
            assert(plain[2 * v] == at);
        } else if v < 2 * n {
            assert(at == ring_points(1, n)[v - n]);
            assert(plain[2 * (v - n) + 1] == at);
        } else {
            assert(plain[v] == at);
        }
    }
    if plain.contains(at) {
        let v = choose|v: int| 0 <= v < plain.len() && plain[v] == at;
        if v >= 2 * n {
            assert(round[v] == at);
        } else if v % 2 == 0 {
            assert(round[v / 2] == ring_points(0, n)[v / 2]);
        } else {
            assert(round[n + v / 2] == ring_points(1, n)[v / 2]);
        }
    }
}

/// True when an arrowhead has anything to draw.
pub open spec fn cone_drawn(
    height: Scalar,
    radius: Scalar,
    segments: usize,
    axis_length: Scalar,
) -> bool {
    !not_positive(height) && !not_positive(radius) && segments >= 3 && !not_positive(axis_length)
}

/// The vertices of an arrowhead: the rim of its base, the base's centre, the
/// apex.
pub open spec fn cone_points(n: int) -> Seq<SweptPoint> {
    ring_points(0, n) + seq![SweptPoint::Hub { ring: 0 }, SweptPoint::Hub { ring: 1 }]
}

/// The triangles of an arrowhead: to each segment the side's and the base's.
pub open spec fn cone_triangles(n: int, segments: int) -> Seq<[u32; 3]> {
    Seq::new(
        (2 * segments) as nat,
        |t: int|
            {
                let s = t / 2;
                let next = next_on(n, s);
                if t % 2 == 0 {
                    [s as u32, next as u32, (n + 1) as u32]
                } else {
                    [n as u32, next as u32, s as u32]
                }
            },
    )
}

/// Cone with its base disc at one end and its apex `height` along an axis.
///
/// The **arrowhead** the overlays are drawn with - a load vector's head, the
/// tip of a gizmo arrow - and not the configuration's own cone, which is
/// [`frustum`] above.
pub fn cone(height: Scalar, radius: Scalar, segments: usize, axis_length: Scalar) -> (mesh: Mesh<
    SweptPoint,
>)
    requires
        cone_drawn(height, radius, segments, axis_length) ==> segments + 2 <= u32::MAX,
    ensures
        cone_drawn(height, radius, segments, axis_length) ==> mesh.vertices@ == cone_points(
            segments as int,
        ) && mesh.triangles@ == cone_triangles(segments as int, segments as int),
        !cone_drawn(height, radius, segments, axis_length) ==> mesh.vertices@.len() == 0
            && mesh.triangles@.len() == 0,
{
    let zero = Scalar { bits: 0 };
    if height.le(zero) || radius.le(zero) || segments < 3 || axis_length.le(zero) {
        return Mesh::empty();
    }
    let mut vertices: Vec<SweptPoint> = Vec::new();
    let base = push_ring(&mut vertices, 0, false, segments);
    let center: u32 = vertices.len() as u32;
    vertices.push(SweptPoint::Hub { ring: 0 });
    let apex: u32 = vertices.len() as u32;
    vertices.push(SweptPoint::Hub { ring: 1 });
    assert(vertices@ =~= cone_points(segments as int));

    let mut triangles: Vec<[u32; 3]> = Vec::new();
    let mut s: usize = 0;
    while s < segments
        invariant
            segments >= 3,
            segments + 2 <= u32::MAX,
            center == segments,
            apex == segments + 1,
            s <= segments,
            triangles@ == cone_triangles(segments as int, s as int),
        decreases segments - s,
    {
        let a: u32 = s as u32;
        let b: u32 = if s + 1 == segments {
            0
        } else {
            s as u32 + 1
        };
        triangles.push([a, b, apex]);
        triangles.push([center, b, a]);
        assert(triangles@ =~= cone_triangles(segments as int, s + 1));
        s += 1;
    }
    Mesh { vertices, triangles }
}

/// An arrowhead is closed, at every number of segments.
pub proof fn law_an_arrowhead_is_closed(n: int)
    requires
        n >= 3,
        n + 2 <= u32::MAX,
    ensures
        closed(cone_triangles(n, n)),
        in_range(cone_triangles(n, n), n + 2),
{
    let triangles = cone_triangles(n, n);
    let number = |at: Node|
        if at.0 == 0 {
            n
        } else if at.0 == 2 {
            n + 1
        } else {
            at.1
        };
    let facets: Seq<Facet> = Seq::new(
        (2 * n) as nat,
        |t: int|
            if t % 2 == 0 {
                (1int, t / 2, false)
            } else {
                (0int, t / 2, true)
            },
    );
    assert forall|facet: Facet| #[trigger] is_facet(n, 1, facet) implies facets.contains(facet) by {
        let t = 2 * facet.1 + (if facet.0 == 0 {
            1int
        } else {
            0int
        });
        assert(facets[t] == facet);
    }
    lemma_stitching_is_closed(n, 1, number, false, triangles, facets);
}

/// The first pole and the first rings of a sweep.
pub open spec fn swept_rings(n: int, rings: int) -> Seq<SweptPoint>
    decreases rings,
{
    if rings <= 0 {
        seq![SweptPoint::Hub { ring: 0 }]
    } else {
        swept_rings(n, rings - 1) + ring_points(rings, n)
    }
}

/// The vertices of a sweep: a pole, its rings, the other pole.
pub open spec fn swept_points(n: int, rings: int) -> Seq<SweptPoint> {
    swept_rings(n, rings) + seq![SweptPoint::Hub { ring: (rings + 1) as usize }]
}

proof fn lemma_swept_rings_len(n: int, rings: int)
    requires
        n >= 0,
        rings >= 0,
    ensures
        swept_rings(n, rings).len() == 1 + rings * n,
    decreases rings,
{
    if rings > 0 {
        lemma_swept_rings_len(n, rings - 1);
        assert(rings * n == (rings - 1) * n + n) by (nonlinear_arith);
    } else {
        assert(rings * n == 0) by (nonlinear_arith)
            requires
                rings == 0,
        ;
    }
}

/// Part of a sum of rings is no more than the whole.
proof fn lemma_rings_fit(n: int, some: int, rings: int)
    requires
        n >= 0,
        0 <= some <= rings,
    ensures
        0 <= some * n <= rings * n,
{
    assert(0 <= some * n <= rings * n) by (nonlinear_arith)
        requires
            n >= 0,
            0 <= some <= rings,
    ;
}

/// True when a sphere has anything to draw.
pub open spec fn sphere_drawn(radius: Scalar, segments: usize, rings: usize) -> bool {
    !not_positive(radius) && segments >= 3 && rings >= 2
}

/// The vertices and triangles of a sphere.
pub open spec fn sphere_mesh(radius: Scalar, segments: usize, rings: usize) -> (
    Seq<SweptPoint>,
    Seq<[u32; 3]>,
) {
    if sphere_drawn(radius, segments, rings) {
        (
            swept_points(segments as int, rings - 1),
            swept_triangles(segments as int, rings - 1, true, true),
        )
    } else {
        (seq![], seq![])
    }
}

/// The vertex `j` round ring `i` of a sweep between two poles.
fn swept_index(segments: usize, rings: usize, i: usize, j: usize) -> (number: u32)
    requires
        rings >= 1,
        segments >= 1,
        i <= rings + 1,
        j < segments,
        2 + rings * segments <= u32::MAX,
        rings < usize::MAX,
    ensures
        number == swept_number(
            segments as int,
            rings as int,
            node(rings as int, i as int, j as int),
        ),
{
    proof {
        lemma_swept_number(
            segments as int,
            rings as int,
            node(rings as int, i as int, j as int),
        );
        if 1 <= i <= rings {
            lemma_rings_fit(segments as int, i - 1, rings as int);
            assert((i - 1) * segments + j < rings * segments) by {
                lemma_rings_fit(segments as int, i as int, rings as int);
                assert(i * segments == (i - 1) * segments + segments) by (nonlinear_arith);
            }
        }
        lemma_rings_fit(segments as int, rings as int, rings as int);
    }
    if i == 0 {
        0
    } else if i > rings {
        (1 + rings * segments) as u32
    } else {
        (1 + (i - 1) * segments + j) as u32
    }
}

/// Latitude/longitude sphere. Ring zero is the north pole, the last ring the
/// south pole.
pub fn sphere(radius: Scalar, segments: usize, rings: usize) -> (mesh: Mesh<SweptPoint>)
    requires
        sphere_drawn(radius, segments, rings) ==> 2 + (rings - 1) * segments <= u32::MAX,
    ensures
        (mesh.vertices@, mesh.triangles@) == sphere_mesh(radius, segments, rings),
{
    if radius.le(Scalar { bits: 0 }) || segments < 3 || rings < 2 {
        return Mesh::empty();
    }
    let ghost n = segments as int;
    let ghost m = rings - 1;
    let mut vertices: Vec<SweptPoint> = Vec::new();
    vertices.push(SweptPoint::Hub { ring: 0 });
    assert(vertices@ =~= swept_rings(n, 0));
    let mut i: usize = 1;
    while i < rings
        invariant
            n == segments,
            m == rings - 1,
            rings >= 2,
            2 + m * n <= u32::MAX,
            1 <= i <= rings,
            vertices@ == swept_rings(n, i - 1),
        decreases rings - i,
    {
        proof {
            lemma_swept_rings_len(n, i - 1);
            lemma_rings_fit(n, i - 1, m);
        }
        let ring = push_ring(&mut vertices, i, false, segments);
        i += 1;
    }
    vertices.push(SweptPoint::Hub { ring: rings });
    assert(vertices@ =~= swept_points(n, m));

    let mut triangles: Vec<[u32; 3]> = Vec::new();
    let mut i: usize = 0;
    let ghost write = |f: Facet| written(n, m, true, f);
    assert(triangles@ =~= sweep_facets(n, m, 0, true).map_values(write));
    while i < rings
        invariant
            n == segments,
            m == rings - 1,
            rings >= 2,
            segments >= 3,
            2 + m * n <= u32::MAX,
            i <= rings,
            write == (|f: Facet| written(n, m, true, f)),
            triangles@ == sweep_facets(n, m, i as int, true).map_values(write),
        decreases rings - i,
    {
        let mut j: usize = 0;
        let ghost before = sweep_facets(n, m, i as int, true);
        assert(triangles@ =~= (before + band_facets(n, m, i as int, 0, true)).map_values(write));
        while j < segments
            invariant
                n == segments,
                m == rings - 1,
                rings >= 2,
                segments >= 3,
                2 + m * n <= u32::MAX,
                i < rings,
                j <= segments,
                write == (|f: Facet| written(n, m, true, f)),
                triangles@ == (before + band_facets(n, m, i as int, j as int, true)).map_values(
                    write,
                ),
            decreases segments - j,
        {
            let next: usize = if j + 1 == segments {
                0
            } else {
                j + 1
            };
            let a: u32 = swept_index(segments, rings - 1, i, j);
            let b: u32 = swept_index(segments, rings - 1, i + 1, j);
            let c: u32 = swept_index(segments, rings - 1, i + 1, next);
            let d: u32 = swept_index(segments, rings - 1, i, next);
            let ghost so_far = before + band_facets(n, m, i as int, j as int, true);
            let ghost added = segment_facets(n, m, i as int, j as int, true);
            if b != c {
                triangles.push([a, b, c]);
            }
            if a != d {
                triangles.push([a, c, d]);
            }
            proof {
                assert(b != c <==> i < m);
                assert(a != d <==> i > 0);
                assert(added.map_values(write) =~= (if i < m {
                    seq![[a, b, c]]
                } else {
                    seq![]
                }) + (if i > 0 {
                    seq![[a, c, d]]
                } else {
                    seq![]
                }));
                assert(before + band_facets(n, m, i as int, j + 1, true) =~= so_far + added);
                assert((so_far + added).map_values(write) =~= so_far.map_values(write)
                    + added.map_values(write));
            }
            j += 1;
        }
        i += 1;
    }
    Mesh { vertices, triangles }
}

/// Ellipsoid: the latitude/longitude sphere above, scaled by the radii along
/// its own axes and then turned about its centre.
///
/// The unit sphere is what is tessellated, so the ellipsoid inherits its
/// topology exactly - closed, and one quad band per ring.
pub fn ellipsoid(radii: [Scalar; 3], segments: usize, rings: usize) -> (mesh: Mesh<SweptPoint>)
    requires
        ellipsoid_drawn(radii, segments, rings) ==> 2 + (rings - 1) * segments <= u32::MAX,
    ensures
        (mesh.vertices@, mesh.triangles@) == ellipsoid_mesh(radii, segments, rings),
{
    let zero = Scalar { bits: 0 };
    if radii[0].le(zero) || radii[1].le(zero) || radii[2].le(zero) {
        return Mesh::empty();
    }
    sphere(Scalar { bits: ONE_BITS }, segments, rings)
}

/// True when an ellipsoid has anything to draw.
pub open spec fn ellipsoid_drawn(radii: [Scalar; 3], segments: usize, rings: usize) -> bool {
    &&& !not_positive(radii[0]) && !not_positive(radii[1]) && !not_positive(radii[2])
    &&& segments >= 3
    &&& rings >= 2
}

/// The vertices and triangles of an ellipsoid: the unit sphere's, which are put
/// where the radii stretch them to.
pub open spec fn ellipsoid_mesh(radii: [Scalar; 3], segments: usize, rings: usize) -> (
    Seq<SweptPoint>,
    Seq<[u32; 3]>,
) {
    if not_positive(radii[0]) || not_positive(radii[1]) || not_positive(radii[2]) {
        (seq![], seq![])
    } else {
        sphere_mesh(Scalar { bits: ONE_BITS }, segments, rings)
    }
}

/// An ellipsoid has no triangles exactly where one of its radii is nothing or less
/// or its resolution is too low for a sphere, and otherwise it has the unit
/// sphere's own triangles over as many vertices, and is closed.
pub proof fn law_an_ellipsoid_is_the_sphere_stretched(
    radii: [Scalar; 3],
    segments: usize,
    rings: usize,
)
    requires
        ellipsoid_drawn(radii, segments, rings) ==> 2 + (rings - 1) * segments <= u32::MAX,
    ensures
        (ellipsoid_mesh(radii, segments, rings).1.len() == 0) == !ellipsoid_drawn(
            radii,
            segments,
            rings,
        ),
        ellipsoid_drawn(radii, segments, rings) ==> {
            let mesh = ellipsoid_mesh(radii, segments, rings);
            &&& mesh == sphere_mesh(Scalar { bits: ONE_BITS }, segments, rings)
            &&& mesh.0.len() == (rings - 1) * segments + 2
            &&& mesh.1.len() == 2 * segments * (rings - 1)
            &&& closed(mesh.1)
            &&& in_range(mesh.1, mesh.0.len() as int)
        },
{
    if ellipsoid_drawn(radii, segments, rings) {
        law_a_sphere_is_closed(segments as int, rings as int);
        assert(2 * segments * (rings - 1) > 0) by (nonlinear_arith)
            requires
                segments >= 3,
                rings >= 2,
        ;
    }
}

/// A sphere, and with it every ellipsoid, is closed at every resolution.
pub proof fn law_a_sphere_is_closed(n: int, rings: int)
    requires
        n >= 3,
        rings >= 2,
        2 + (rings - 1) * n <= u32::MAX,
    ensures
        closed(swept_triangles(n, rings - 1, true, true)),
        in_range(swept_triangles(n, rings - 1, true, true), 2 + (rings - 1) * n),
        swept_points(n, rings - 1).len() == 2 + (rings - 1) * n,
        swept_triangles(n, rings - 1, true, true).len() == 2 * n * (rings - 1),
{
    lemma_sweep_is_closed(n, rings - 1, true, true);
    lemma_swept_rings_len(n, rings - 1);
    lemma_swept_triangle_count(n, rings - 1, true, true);
}

/// The centre line of a tube.
#[derive(Clone, Copy, Debug, PartialEq, Eq, Structural)]
pub enum TubeLine {
    /// The arc through both ends and the bend.
    Arc,
    /// The straight line between the ends.
    Straight,
    /// No line: both ends are one point.
    Ball,
}

/// Which line a tube follows: the arc its bend makes, where it makes one, and
/// otherwise the line between its ends, if that has any length.
pub fn tube_line(bends: bool, length: Scalar) -> (line: TubeLine)
    ensures
        line == (if bends {
            TubeLine::Arc
        } else if not_positive(length) {
            TubeLine::Ball
        } else {
            TubeLine::Straight
        }),
        line == TubeLine::Arc <==> bends,
        line == TubeLine::Ball <==> !bends && length.at_most(Scalar { bits: 0 }),
{
    if bends {
        TubeLine::Arc
    } else if length.le(Scalar { bits: 0 }) {
        TubeLine::Ball
    } else {
        TubeLine::Straight
    }
}

/// What one ring of a tube is.
#[derive(Clone, Copy, Debug, PartialEq, Eq, Structural)]
pub enum TubeRing {
    /// The pole the first cap closes on.
    FirstPole,
    /// A ring of the first cap, `step` rings from its pole.
    FirstCap {
        /// Rings from the pole.
        step: usize,
    },
    /// A ring of the barrel.
    Barrel {
        /// Number of the sample of the centre line it goes round.
        sample: usize,
    },
    /// A ring of the last cap, `step` rings from the barrel.
    LastCap {
        /// Rings from the barrel.
        step: usize,
    },
    /// The pole the last cap closes on.
    LastPole,
}

/// Samples of the centre line: its two ends, or those and what the arc needs
/// between them.
pub open spec fn tube_samples(line: TubeLine, arc_segments: int) -> int {
    if line == TubeLine::Arc {
        arc_segments + 1
    } else {
        2
    }
}

/// Rings a tube has between its poles.
pub open spec fn tube_ring_count(line: TubeLine, arc_segments: int, cap_rings: int) -> int {
    2 * (cap_rings - 1) + tube_samples(line, arc_segments)
}

/// Every ring of a tube in order along the sweep.
pub open spec fn tube_sweep(line: TubeLine, arc_segments: int, cap_rings: int) -> Seq<TubeRing> {
    seq![TubeRing::FirstPole] + Seq::new(
        (cap_rings - 1) as nat,
        |j: int| TubeRing::FirstCap { step: (j + 1) as usize },
    ) + Seq::new(
        tube_samples(line, arc_segments) as nat,
        |i: int| TubeRing::Barrel { sample: i as usize },
    ) + Seq::new((cap_rings - 1) as nat, |j: int| TubeRing::LastCap { step: (j + 1) as usize })
        + seq![TubeRing::LastPole]
}

/// Every ring of a tube in order along the sweep: the poles, the rings of the
/// caps, and one round each sample of the centre line.
pub fn tube_rings(line: TubeLine, arc_segments: usize, cap_rings: usize) -> (rings: Vec<TubeRing>)
    requires
        cap_rings >= 1,
        line == TubeLine::Arc ==> arc_segments < usize::MAX,
    ensures
        rings@ == tube_sweep(line, arc_segments as int, cap_rings as int),
{
    let mut rings: Vec<TubeRing> = Vec::new();
    rings.push(TubeRing::FirstPole);
    let mut j: usize = 1;
    let ghost pole = rings@;
    while j < cap_rings
        invariant
            1 <= j <= cap_rings,
            rings@ == pole + Seq::new(
                (j - 1) as nat,
                |j: int| TubeRing::FirstCap { step: (j + 1) as usize },
            ),
        decreases cap_rings - j,
    {
        rings.push(TubeRing::FirstCap { step: j });
        assert(rings@ =~= pole + Seq::new(
            j as nat,
            |j: int| TubeRing::FirstCap { step: (j + 1) as usize },
        ));
        j += 1;
    }
    let samples: usize = if line == TubeLine::Arc {
        arc_segments + 1
    } else {
        2
    };
    let ghost cap = rings@;
    let mut i: usize = 0;
    assert(rings@ =~= cap + Seq::new(0, |i: int| TubeRing::Barrel { sample: i as usize }));
    while i < samples
        invariant
            i <= samples,
            rings@ == cap + Seq::new(i as nat, |i: int| TubeRing::Barrel { sample: i as usize }),
        decreases samples - i,
    {
        rings.push(TubeRing::Barrel { sample: i });
        assert(rings@ =~= cap + Seq::new(
            (i + 1) as nat,
            |i: int| TubeRing::Barrel { sample: i as usize },
        ));
        i += 1;
    }
    let ghost barrel = rings@;
    let mut j: usize = 1;
    assert(rings@ =~= barrel + Seq::new(
        0,
        |j: int| TubeRing::LastCap { step: (j + 1) as usize },
    ));
    while j < cap_rings
        invariant
            1 <= j <= cap_rings,
            rings@ == barrel + Seq::new(
                (j - 1) as nat,
                |j: int| TubeRing::LastCap { step: (j + 1) as usize },
            ),
        decreases cap_rings - j,
    {
        rings.push(TubeRing::LastCap { step: j });
        assert(rings@ =~= barrel + Seq::new(
            j as nat,
            |j: int| TubeRing::LastCap { step: (j + 1) as usize },
        ));
        j += 1;
    }
    rings.push(TubeRing::LastPole);
    assert(rings@ =~= tube_sweep(line, arc_segments as int, cap_rings as int));
    rings
}

/// True when a tube has anything to draw.
pub open spec fn tube_drawn(
    radius: Scalar,
    segments: usize,
    arc_segments: usize,
    cap_rings: usize,
) -> bool {
    !not_positive(radius) && segments >= 3 && arc_segments >= 1 && cap_rings >= 1
}

/// Vertices a tube's overlay needs, poles included.
pub open spec fn tube_vertex_count(
    line: TubeLine,
    segments: int,
    arc_segments: int,
    cap_rings: int,
) -> int {
    if line == TubeLine::Ball {
        2 + (2 * cap_rings - 1) * segments
    } else {
        2 + tube_ring_count(line, arc_segments, cap_rings) * segments
    }
}

/// Where a ring of a sweep stands among the vertices, and how many it has.
spec fn swept_slot(n: int, rings: int, r: int, ring: (u32, usize)) -> bool {
    &&& ring.0 == swept_number(n, rings, node(rings, r, 0))
    &&& ring.1 == (if r == 0 || r == rings + 1 {
        1
    } else {
        n
    })
}

/// Tube: everything within `radius` of its centre line.
///
/// One closed surface rather than a barrel with two spheres dropped on the ends:
/// the rings of the caps are swept in the same frame the barrel's are, so one
/// rule stitches the whole thing. A tube of no length is the ball its two caps
/// make, and a sphere of two caps' worth of rings is what that is.
pub fn tube(
    line: TubeLine,
    radius: Scalar,
    segments: usize,
    arc_segments: usize,
    cap_rings: usize,
) -> (mesh: Mesh<SweptPoint>)
    requires
        tube_drawn(radius, segments, arc_segments, cap_rings) ==> tube_vertex_count(
            line,
            segments as int,
            arc_segments as int,
            cap_rings as int,
        ) <= u32::MAX,
    ensures
        !tube_drawn(radius, segments, arc_segments, cap_rings) ==> mesh.vertices@.len() == 0
            && mesh.triangles@.len() == 0,
        tube_drawn(radius, segments, arc_segments, cap_rings) && line == TubeLine::Ball
            ==> mesh.vertices@ == swept_points(segments as int, 2 * cap_rings - 1)
            && mesh.triangles@ == swept_triangles(segments as int, 2 * cap_rings - 1, true, true),
        tube_drawn(radius, segments, arc_segments, cap_rings) && line != TubeLine::Ball
            ==> mesh.vertices@ == swept_points(
            segments as int,
            tube_ring_count(line, arc_segments as int, cap_rings as int),
        ) && mesh.triangles@ == swept_triangles(
            segments as int,
            tube_ring_count(line, arc_segments as int, cap_rings as int),
            false,
            false,
        ),
{
    if radius.le(Scalar { bits: 0 }) || segments < 3 || arc_segments < 1 || cap_rings < 1 {
        return Mesh::empty();
    }
    let ghost n = segments as int;
    if line == TubeLine::Ball {
        proof {
            assert(2 * cap_rings - 1 <= (2 * cap_rings - 1) * n) by (nonlinear_arith)
                requires
                    cap_rings >= 1,
                    n >= 3,
            ;
        }
        return sphere(radius, segments, 2 * cap_rings);
    }
    let ghost m = tube_ring_count(line, arc_segments as int, cap_rings as int);
    proof {
        assert(m <= m * n) by (nonlinear_arith)
            requires
                m >= 1,
                n >= 3,
        ;
    }
    let places = tube_rings(line, arc_segments, cap_rings);
    assert(places@.len() == m + 2);
    let mut vertices: Vec<SweptPoint> = Vec::new();
    let mut rings: Vec<(u32, usize)> = Vec::new();
    let mut r: usize = 0;
    while r < places.len()
        invariant
            n == segments,
            n >= 3,
            m >= 1,
            m + 2 <= usize::MAX,
            2 + m * n <= u32::MAX,
            places@.len() == m + 2,
            forall|r: int|
                #![trigger places@[r]]
                0 <= r < m + 2 ==> ((places@[r] == TubeRing::FirstPole || places@[r]
                    == TubeRing::LastPole) <==> (r == 0 || r == m + 1)),
            r <= places@.len(),
            rings@.len() == r,
            vertices@ == (if r == 0 {
                seq![]
            } else if r <= m + 1 {
                swept_rings(n, r - 1)
            } else {
                swept_points(n, m)
            }),
            forall|k: int| 0 <= k < r ==> swept_slot(n, m, k, #[trigger] rings@[k]),
        decreases places@.len() - r,
    {
        let pole: bool = places[r] == TubeRing::FirstPole || places[r] == TubeRing::LastPole;
        proof {
            if r > 0 {
                lemma_swept_rings_len(n, r - 1);
                lemma_rings_fit(n, r - 1, m);
            }
        }
        let ghost before = vertices@;
        let ring = push_ring(&mut vertices, r, pole, segments);
        rings.push(ring);
        proof {
            if r == 0 {
                assert(vertices@ =~= swept_rings(n, 0));
            } else if r <= m {
                assert(vertices@ =~= swept_rings(n, r as int));
            } else {
                assert(vertices@ =~= swept_points(n, m));
            }
            assert(swept_slot(n, m, r as int, ring));
        }
        r += 1;
    }

    // Every ring is parameterized the same way round and they are in order
    // along the sweep, so one rule stitches the barrel and both caps; a pole is
    // the ring of one point that turns its own band into a fan.
    let mut triangles: Vec<[u32; 3]> = Vec::new();
    let ghost write = |f: Facet| written(n, m, false, f);
    let mut band: usize = 0;
    assert(triangles@ =~= sweep_facets(n, m, 0, false).map_values(write));
    while band + 1 < rings.len()
        invariant
            n == segments,
            n >= 3,
            m >= 1,
            2 + m * n <= u32::MAX,
            rings@.len() == m + 2,
            m + 2 <= usize::MAX,
            forall|k: int| 0 <= k < m + 2 ==> swept_slot(n, m, k, #[trigger] rings@[k]),
            band <= m + 1,
            write == (|f: Facet| written(n, m, false, f)),
            triangles@ == sweep_facets(n, m, band as int, false).map_values(write),
        decreases rings@.len() - band,
    {
        let mut s: usize = 0;
        let ghost before = sweep_facets(n, m, band as int, false);
        assert(triangles@ =~= (before + band_facets(n, m, band as int, 0, false)).map_values(
            write,
        ));
        while s < segments
            invariant
                n == segments,
                n >= 3,
                m >= 1,
                2 + m * n <= u32::MAX,
                rings@.len() == m + 2,
                forall|k: int| 0 <= k < m + 2 ==> swept_slot(n, m, k, #[trigger] rings@[k]),
                band <= m,
                band + 1 <= usize::MAX,
                s <= segments,
                write == (|f: Facet| written(n, m, false, f)),
                triangles@ == (before + band_facets(n, m, band as int, s as int, false)).map_values(
                    write,
                ),
            decreases segments - s,
        {
            let next: usize = if s + 1 == segments {
                0
            } else {
                s + 1
            };
            proof {
                lemma_swept_number(n, m, node(m, band as int, s as int));
                lemma_swept_number(n, m, node(m, band as int, next as int));
                lemma_swept_number(n, m, node(m, band + 1, s as int));
                lemma_swept_number(n, m, node(m, band + 1, next as int));
                assert(swept_slot(n, m, band as int, rings@[band as int]));
                assert(swept_slot(n, m, band + 1, rings@[band + 1]));
            }
            let (lower, lower_next): (u32, u32) = (slot(rings[band], s), slot(rings[band], next));
            let (upper, upper_next): (u32, u32) = (
                slot(rings[band + 1], s),
                slot(rings[band + 1], next),
            );
            let ghost so_far = before + band_facets(n, m, band as int, s as int, false);
            let ghost added = segment_facets(n, m, band as int, s as int, false);
            if lower != lower_next {
                triangles.push([lower, lower_next, upper_next]);
            }
            if upper_next != upper {
                triangles.push([lower, upper_next, upper]);
            }
            proof {
                assert(lower != lower_next <==> band > 0);
                assert(upper_next != upper <==> band < m);
                assert(added.map_values(write) =~= (if band > 0 {
                    seq![[lower, lower_next, upper_next]]
                } else {
                    seq![]
                }) + (if band < m {
                    seq![[lower, upper_next, upper]]
                } else {
                    seq![]
                }));
                assert(before + band_facets(n, m, band as int, s + 1, false) =~= so_far + added);
                assert((so_far + added).map_values(write) =~= so_far.map_values(write)
                    + added.map_values(write));
            }
            s += 1;
        }
        band += 1;
    }
    Mesh { vertices, triangles }
}

/// A tube is closed, straight or bent or a ball, at every resolution.
pub proof fn law_a_tube_is_closed(line: TubeLine, n: int, arc_segments: int, cap_rings: int)
    requires
        n >= 3,
        arc_segments >= 1,
        cap_rings >= 1,
        tube_vertex_count(line, n, arc_segments, cap_rings) <= u32::MAX,
    ensures
        ({
            let ball = line == TubeLine::Ball;
            let rings = if ball {
                2 * cap_rings - 1
            } else {
                tube_ring_count(line, arc_segments, cap_rings)
            };
            &&& closed(swept_triangles(n, rings, ball, ball))
            &&& in_range(
                swept_triangles(n, rings, ball, ball),
                tube_vertex_count(line, n, arc_segments, cap_rings),
            )
            &&& swept_points(n, rings).len() == tube_vertex_count(
                line,
                n,
                arc_segments,
                cap_rings,
            )
        }),
{
    let ball = line == TubeLine::Ball;
    let rings = if ball {
        2 * cap_rings - 1
    } else {
        tube_ring_count(line, arc_segments, cap_rings)
    };
    lemma_sweep_is_closed(n, rings, ball, ball);
    lemma_swept_rings_len(n, rings);
}

} // verus!
