//! From an indexed mesh to shaded triangles: which triangles are drawn, and
//! which normal every corner of them carries.

use vstd::prelude::*;

use crate::mesh::{in_range, Mesh};
use crate::scalar::{Scalar, ONE_BITS};
use crate::scene::{empty_block, higher_of, lower_of, union_of, Aabb, LayerMesh};
use crate::shapes::Vec3;
use crate::tessellate::not_positive;

verus! {

/// Which normal a layer's triangles carry.
///
/// The geometry is the same either way - a triangle soup with three vertices
/// per triangle - so the choice costs no vertices and no memory, only which
/// direction each of them is given.
#[derive(Clone, Copy, Debug, PartialEq, Eq, Structural)]
pub enum Shading {
    /// One normal per triangle: every facet reads as a facet. What a
    /// voxelization wants, because its facets are the answer.
    Flat,
    /// Area weighted average of the normals of the triangles meeting at each
    /// vertex. What makes an isosurface read as the curved solid it
    /// approximates.
    Smooth,
    /// Smooth across the facets of a curved surface and sharp across a real
    /// edge: the normals meeting at a vertex are averaged only with the ones
    /// within the crease angle of their own facet.
    Rounded,
}

/// Where the normal of one drawn corner comes from.
#[derive(Clone, Copy, Debug, PartialEq, Eq, Structural)]
pub enum NormalOf {
    /// The normal of the triangle itself.
    Face {
        /// Number of the source triangle.
        triangle: usize,
    },
    /// The normal averaged at the source vertex.
    Vertex {
        /// Number of the source vertex.
        vertex: usize,
    },
    /// The normal averaged for this corner of this triangle.
    Corner {
        /// Number of the source triangle.
        triangle: usize,
        /// Which corner of it.
        slot: usize,
    },
    /// The normal of the triangle as it is drawn.
    Drawn {
        /// Number of the drawn triangle.
        triangle: usize,
    },
}

/// One drawn corner: which source vertex it is, and whose normal it carries.
#[derive(Clone, Copy, Debug, PartialEq, Eq, Structural)]
pub struct ShadedCorner {
    /// Number of the source vertex.
    pub vertex: usize,
    /// Whose normal the corner carries.
    pub normal: NormalOf,
}

/// What has been computed about a mesh that is to be shaded.
#[derive(Debug)]
pub struct Measures {
    /// Twice the area of every triangle.
    pub areas: Vec<Scalar>,
    /// Length of the normal averaged at every vertex; for smooth shading.
    pub smooth: Vec<Scalar>,
    /// Length of the normal averaged at every corner, three to a triangle; for
    /// rounded shading.
    pub creased: Vec<Scalar>,
}

/// A point with three finite coordinates.
pub open spec fn finite_point(p: Vec3) -> bool {
    p[0].finite() && p[1].finite() && p[2].finite()
}

/// A block and a point it has to reach.
pub open spec fn grown(block: Aabb, p: Vec3) -> Aabb {
    union_of(block, Aabb { min: p, max: p })
}

/// The measures have an entry for everything the shading looks up.
pub open spec fn measured(source: &Mesh<Vec3>, shading: Shading, measures: &Measures) -> bool {
    &&& measures.areas@.len() >= source.triangles@.len()
    &&& shading == Shading::Smooth ==> measures.smooth@.len() >= source.vertices@.len()
    &&& shading == Shading::Rounded ==> measures.creased@.len() >= 3 * source.triangles@.len()
}

/// A triangle that carries area and has no coordinate that is not finite.
pub open spec fn kept(source: &Mesh<Vec3>, measures: &Measures, t: int) -> bool {
    let triangle = source.triangles@[t];
    &&& finite_point(source.vertices@[triangle[0] as int])
    &&& finite_point(source.vertices@[triangle[1] as int])
    &&& finite_point(source.vertices@[triangle[2] as int])
    &&& !not_positive(measures.areas@[t])
}

/// Whose normal a corner carries: the averaged one where that has a direction,
/// and the face's where it has none or the shading asks for no other.
pub open spec fn normal_for(
    source: &Mesh<Vec3>,
    shading: Shading,
    measures: &Measures,
    t: int,
    slot: int,
) -> NormalOf {
    let vertex = source.triangles@[t][slot] as int;
    let zero = Scalar { bits: 0 };
    if shading == Shading::Rounded && zero.below(measures.creased@[3 * t + slot]) {
        NormalOf::Corner { triangle: t as usize, slot: slot as usize }
    } else if shading == Shading::Smooth && zero.below(measures.smooth@[vertex]) {
        NormalOf::Vertex { vertex: vertex as usize }
    } else {
        NormalOf::Face { triangle: t as usize }
    }
}

/// One drawn corner of a triangle.
pub open spec fn shaded_corner(
    source: &Mesh<Vec3>,
    shading: Shading,
    measures: &Measures,
    t: int,
    slot: int,
) -> ShadedCorner {
    ShadedCorner {
        vertex: source.triangles@[t][slot] as usize,
        normal: normal_for(source, shading, measures, t, slot),
    }
}

/// The drawn corners of the first triangles.
pub open spec fn shaded_corners(
    source: &Mesh<Vec3>,
    shading: Shading,
    measures: &Measures,
    triangles: int,
) -> Seq<ShadedCorner>
    decreases triangles,
{
    if triangles <= 0 {
        seq![]
    } else {
        let before = shaded_corners(source, shading, measures, triangles - 1);
        let t = triangles - 1;
        if kept(source, measures, t) {
            before + seq![
                shaded_corner(source, shading, measures, t, 0),
                shaded_corner(source, shading, measures, t, 1),
                shaded_corner(source, shading, measures, t, 2),
            ]
        } else {
            before
        }
    }
}

/// The bounds of what is drawn of the first triangles.
pub open spec fn shaded_bounds(source: &Mesh<Vec3>, measures: &Measures, triangles: int) -> Aabb
    decreases triangles,
{
    if triangles <= 0 {
        empty_block()
    } else {
        let before = shaded_bounds(source, measures, triangles - 1);
        let triangle = source.triangles@[triangles - 1];
        if kept(source, measures, triangles - 1) {
            grown(
                grown(
                    grown(before, source.vertices@[triangle[0] as int]),
                    source.vertices@[triangle[1] as int],
                ),
                source.vertices@[triangle[2] as int],
            )
        } else {
            before
        }
    }
}

/// Whether a point, or a normal, has three finite coordinates.
pub fn is_finite_point(p: &Vec3) -> (answer: bool)
    ensures
        answer == finite_point(*p),
{
    p[0].is_finite() && p[1].is_finite() && p[2].is_finite()
}

/// True when a triangle, or a normal, of this size has a direction at all.
pub fn has_area(size: Scalar) -> (answer: bool)
    ensures
        answer == !not_positive(size),
{
    !size.le(Scalar { bits: 0 })
}

/// Whose normal one corner carries.
fn normal_of_corner(
    source: &Mesh<Vec3>,
    shading: Shading,
    measures: &Measures,
    triangle: usize,
    slot: usize,
) -> (normal: NormalOf)
    requires
        triangle < source.triangles@.len(),
        slot < 3,
        in_range(source.triangles@, source.vertices@.len() as int),
        measured(source, shading, measures),
    ensures
        normal == normal_for(source, shading, measures, triangle as int, slot as int),
{
    let zero = Scalar { bits: 0 };
    match shading {
        Shading::Rounded => {
            assert(measures.creased.len() == measures.creased@.len());
            if zero.lt(measures.creased[3 * triangle + slot]) {
                return NormalOf::Corner { triangle, slot };
            }
        },
        Shading::Smooth => {
            let vertex: usize = source.triangles[triangle][slot] as usize;
            if zero.lt(measures.smooth[vertex]) {
                return NormalOf::Vertex { vertex };
            }
        },
        Shading::Flat => {},
    }
    NormalOf::Face { triangle }
}

impl LayerMesh<ShadedCorner> {
    /// Expand an indexed mesh into shaded triangles, dropping triangles that
    /// carry no area or a non-finite coordinate.
    pub fn from_mesh(source: &Mesh<Vec3>, shading: Shading, measures: &Measures) -> (layer: LayerMesh<
        ShadedCorner,
    >)
        requires
            in_range(source.triangles@, source.vertices@.len() as int),
            measured(source, shading, measures),
        ensures
            layer.vertices@ == shaded_corners(
                source,
                shading,
                measures,
                source.triangles@.len() as int,
            ),
            layer.bounds == shaded_bounds(source, measures, source.triangles@.len() as int),
    {
        let mut vertices: Vec<ShadedCorner> = Vec::new();
        let mut bounds = Aabb::empty();
        let mut t: usize = 0;
        while t < source.triangles.len()
            invariant
                t <= source.triangles@.len(),
                in_range(source.triangles@, source.vertices@.len() as int),
                measured(source, shading, measures),
                vertices@ == shaded_corners(source, shading, measures, t as int),
                bounds == shaded_bounds(source, measures, t as int),
            decreases source.triangles@.len() - t,
        {
            let triangle: [u32; 3] = source.triangles[t];
            assert(source.triangles@[t as int] == triangle);
            let a: Vec3 = source.vertices[triangle[0] as usize];
            let b: Vec3 = source.vertices[triangle[1] as usize];
            let c: Vec3 = source.vertices[triangle[2] as usize];
            if is_finite_point(&a) && is_finite_point(&b) && is_finite_point(&c) && has_area(
                measures.areas[t],
            ) {
                let ghost before = vertices@;
                bounds = bounds.union(&Aabb { min: a, max: a });
                bounds = bounds.union(&Aabb { min: b, max: b });
                bounds = bounds.union(&Aabb { min: c, max: c });
                vertices.push(
                    ShadedCorner {
                        vertex: triangle[0] as usize,
                        normal: normal_of_corner(source, shading, measures, t, 0),
                    },
                );
                vertices.push(
                    ShadedCorner {
                        vertex: triangle[1] as usize,
                        normal: normal_of_corner(source, shading, measures, t, 1),
                    },
                );
                vertices.push(
                    ShadedCorner {
                        vertex: triangle[2] as usize,
                        normal: normal_of_corner(source, shading, measures, t, 2),
                    },
                );
                assert(vertices@ =~= before + seq![
                    shaded_corner(source, shading, measures, t as int, 0),
                    shaded_corner(source, shading, measures, t as int, 1),
                    shaded_corner(source, shading, measures, t as int, 2),
                ]);
            }
            t += 1;
        }
        LayerMesh { vertices, bounds }
    }
}

/// How a surface is shaded does not change what is drawn of it: the same source
/// vertices in the same order, and the same bounds.
pub proof fn law_shading_changes_normals_alone(
    source: &Mesh<Vec3>,
    a: Shading,
    b: Shading,
    measures: &Measures,
    triangles: int,
)
    ensures
        shaded_corners(source, a, measures, triangles).len() == shaded_corners(
            source,
            b,
            measures,
            triangles,
        ).len(),
        forall|v: int|
            0 <= v < shaded_corners(source, a, measures, triangles).len()
                ==> (#[trigger] shaded_corners(source, a, measures, triangles)[v]).vertex
                == shaded_corners(source, b, measures, triangles)[v].vertex,
    decreases triangles,
{
    if triangles > 0 {
        law_shading_changes_normals_alone(source, a, b, measures, triangles - 1);
    }
}

/// The triangles that are drawn, among the first, in order.
pub open spec fn kept_triangles(source: &Mesh<Vec3>, measures: &Measures, triangles: int) -> Seq<int>
    decreases triangles,
{
    if triangles <= 0 {
        seq![]
    } else {
        let before = kept_triangles(source, measures, triangles - 1);
        if kept(source, measures, triangles - 1) {
            before.push(triangles - 1)
        } else {
            before
        }
    }
}

/// What is drawn of a mesh are its triangles with three finite corners and an area,
/// every one of them once and in the mesh's own order, three corners to each.
pub proof fn law_the_drawn_triangles_are_the_kept_ones(
    source: &Mesh<Vec3>,
    shading: Shading,
    measures: &Measures,
    triangles: int,
)
    requires
        triangles >= 0,
    ensures
        ({
            let drawn = kept_triangles(source, measures, triangles);
            let corners = shaded_corners(source, shading, measures, triangles);
            &&& corners.len() == 3 * drawn.len()
            &&& forall|i: int|
                0 <= i < drawn.len() ==> {
                    &&& 0 <= (#[trigger] drawn[i]) < triangles
                    &&& kept(source, measures, drawn[i])
                    &&& corners[3 * i] == shaded_corner(source, shading, measures, drawn[i], 0)
                    &&& corners[3 * i + 1] == shaded_corner(source, shading, measures, drawn[i], 1)
                    &&& corners[3 * i + 2] == shaded_corner(source, shading, measures, drawn[i], 2)
                }
            &&& forall|i: int, j: int|
                #![trigger drawn[i], drawn[j]]
                0 <= i < j < drawn.len() ==> drawn[i] < drawn[j]
            &&& forall|t: int|
                0 <= t < triangles ==> (#[trigger] kept(source, measures, t) <==> drawn.contains(t))
        }),
    decreases triangles,
{
    if triangles > 0 {
        law_the_drawn_triangles_are_the_kept_ones(source, shading, measures, triangles - 1);
        let before = kept_triangles(source, measures, triangles - 1);
        let drawn = kept_triangles(source, measures, triangles);
        if kept(source, measures, triangles - 1) {
            assert(drawn[before.len() as int] == triangles - 1);
        }
        assert forall|t: int| 0 <= t < triangles implies (#[trigger] kept(source, measures, t)
            <==> drawn.contains(t)) by {
            if t < triangles - 1 {
                if before.contains(t) {
                    let i = choose|i: int| 0 <= i < before.len() && before[i] == t;
                    assert(drawn[i] == t);
                }
                if drawn.contains(t) {
                    let i = choose|i: int| 0 <= i < drawn.len() && drawn[i] == t;
                    assert(before[i] == t);
                }
            } else if drawn.contains(t) && !kept(source, measures, t) {
                let i = choose|i: int| 0 <= i < drawn.len() && drawn[i] == t;
                assert(before[i] == t);
            }
        }
    }
}

/// Where drawn corners are.
pub open spec fn places(source: &Mesh<Vec3>, corners: Seq<ShadedCorner>) -> Seq<Vec3> {
    corners.map_values(|corner: ShadedCorner| source.vertices@[corner.vertex as int])
}

/// Two sides hold every point along an axis, and each of them is reached by one;
/// without any point they are the sides of the block that has nothing in it.
pub open spec fn tight_along(points: Seq<Vec3>, d: int, low: Scalar, high: Scalar) -> bool {
    &&& points.len() == 0 ==> low == empty_block().min[d] && high == empty_block().max[d]
    &&& forall|k: int|
        0 <= k < points.len() ==> low.at_most(#[trigger] points[k][d]) && points[k][d].at_most(high)
    &&& points.len() > 0 ==> exists|k: int| 0 <= k < points.len() && #[trigger] points[k][d] == low
    &&& points.len() > 0 ==> exists|k: int| 0 <= k < points.len() && #[trigger] points[k][d] == high
}

/// A block is the tightest one around some points.
pub open spec fn tight(points: Seq<Vec3>, block: Aabb) -> bool {
    forall|d: int|
        0 <= d < 3 ==> tight_along(points, d, #[trigger] block.min[d], block.max[d])
}

/// Two sides stay tight when they are moved out to one more point.
proof fn lemma_tight_along(points: Seq<Vec3>, d: int, low: Scalar, high: Scalar, p: Vec3)
    requires
        0 <= d < 3,
        tight_along(points, d, low, high),
        p[d].finite(),
    ensures
        tight_along(points.push(p), d, lower_of(low, p[d]), higher_of(high, p[d])),
{
    let more = points.push(p);
    let least = lower_of(low, p[d]);
    let most = higher_of(high, p[d]);
    assert(more[points.len() as int][d] == p[d]);
    assert(!low.nan() && !high.nan()) by {
        if points.len() > 0 {
            assert(low.at_most(points[0][d]) && points[0][d].at_most(high));
        }
    }
    assert forall|k: int| 0 <= k < more.len() implies least.at_most(#[trigger] more[k][d])
        && more[k][d].at_most(most) by {
        if k < points.len() {
            assert(more[k] == points[k]);
            assert(low.at_most(points[k][d]) && points[k][d].at_most(high));
        }
    }
    if points.len() > 0 {
        let at_low = choose|k: int| 0 <= k < points.len() && #[trigger] points[k][d] == low;
        let at_high = choose|k: int| 0 <= k < points.len() && #[trigger] points[k][d] == high;
        assert(more[at_low][d] == low && more[at_high][d] == high);
    }
}

/// A block stays tight when it is grown to one more point.
proof fn lemma_tight(points: Seq<Vec3>, block: Aabb, p: Vec3)
    requires
        tight(points, block),
        finite_point(p),
    ensures
        tight(points.push(p), grown(block, p)),
{
    assert forall|d: int| 0 <= d < 3 implies tight_along(
        points.push(p),
        d,
        #[trigger] grown(block, p).min[d],
        grown(block, p).max[d],
    ) by {
        assert(tight_along(points, d, block.min[d], block.max[d]));
        lemma_tight_along(points, d, block.min[d], block.max[d], p);
        assert(d == 0 || d == 1 || d == 2);
    }
}

/// The bounds of what is drawn are its tightest block: every drawn corner is in it,
/// and each of its sides is reached by one. Where nothing is drawn it is the block
/// that has nothing in it.
pub proof fn law_the_bounds_are_the_tight_block(
    source: &Mesh<Vec3>,
    shading: Shading,
    measures: &Measures,
    triangles: int,
)
    ensures
        tight(
            places(source, shaded_corners(source, shading, measures, triangles)),
            shaded_bounds(source, measures, triangles),
        ),
    decreases triangles,
{
    let corners = shaded_corners(source, shading, measures, triangles);
    if triangles > 0 {
        law_the_bounds_are_the_tight_block(source, shading, measures, triangles - 1);
        let t = triangles - 1;
        if kept(source, measures, t) {
            let triangle = source.triangles@[t];
            let before = places(source, shaded_corners(source, shading, measures, t));
            let block = shaded_bounds(source, measures, t);
            let a = source.vertices@[triangle[0] as int];
            let b = source.vertices@[triangle[1] as int];
            let c = source.vertices@[triangle[2] as int];
            lemma_tight(before, block, a);
            lemma_tight(before.push(a), grown(block, a), b);
            lemma_tight(before.push(a).push(b), grown(grown(block, a), b), c);
            assert(places(source, corners) =~= before.push(a).push(b).push(c));
        }
    } else {
        assert(places(source, corners).len() == 0);
    }
}

/// One corner of a layer whose triangles are given normals of their own.
pub open spec fn facetted_corner(
    corners: Seq<ShadedCorner>,
    lengths: Seq<Scalar>,
    v: int,
) -> ShadedCorner {
    if 3 * (v / 3) + 3 <= corners.len() && !not_positive(lengths[v / 3]) {
        ShadedCorner {
            normal: NormalOf::Drawn { triangle: (v / 3) as usize },
            ..corners[v]
        }
    } else {
        corners[v]
    }
}

/// The corners of a layer whose triangles are given normals of their own.
pub open spec fn facetted(corners: Seq<ShadedCorner>, lengths: Seq<Scalar>) -> Seq<ShadedCorner> {
    Seq::new(corners.len(), |v: int| facetted_corner(corners, lengths, v))
}

impl LayerMesh<ShadedCorner> {
    /// The same layer with one normal per triangle, `lengths` being those of the
    /// normals of its triangles as they are drawn.
    ///
    /// What lets the side panel switch a smooth surface back to the facetted look
    /// without keeping a second copy of it. A triangle too thin to give a normal
    /// at all keeps the normals it already had.
    pub fn flat_shaded(&self, lengths: &Vec<Scalar>) -> (flat: LayerMesh<ShadedCorner>)
        requires
            lengths@.len() >= self.vertices@.len() / 3,
        ensures
            flat.vertices@ == facetted(self.vertices@, lengths@),
            flat.bounds == self.bounds,
    {
        let total: usize = self.vertices.len();
        let whole: usize = total / 3;
        let mut vertices: Vec<ShadedCorner> = Vec::new();
        let mut v: usize = 0;
        while v < total
            invariant
                v <= total,
                total == self.vertices@.len(),
                whole == total / 3,
                lengths@.len() >= whole,
                vertices@ == facetted(self.vertices@, lengths@).take(v as int),
            decreases total - v,
        {
            let triangle: usize = v / 3;
            let corner: ShadedCorner = self.vertices[v];
            let given = if triangle < whole && has_area(lengths[triangle]) {
                ShadedCorner { vertex: corner.vertex, normal: NormalOf::Drawn { triangle } }
            } else {
                corner
            };
            assert(given == facetted_corner(self.vertices@, lengths@, v as int));
            vertices.push(given);
            v += 1;
            assert(vertices@ =~= facetted(self.vertices@, lengths@).take(v as int));
        }
        assert(vertices@ =~= facetted(self.vertices@, lengths@));
        LayerMesh { vertices, bounds: self.bounds }
    }
}

/// Facetting a layer moves nothing, and facetting it once more changes nothing.
pub proof fn law_facetting_moves_nothing(corners: Seq<ShadedCorner>, lengths: Seq<Scalar>)
    ensures
        facetted(corners, lengths).len() == corners.len(),
        forall|v: int|
            0 <= v < corners.len() ==> (#[trigger] facetted(corners, lengths)[v]).vertex
                == corners[v].vertex,
        facetted(facetted(corners, lengths), lengths) == facetted(corners, lengths),
{
    assert(facetted(facetted(corners, lengths), lengths) =~= facetted(corners, lengths));
}

/// The triangles that meet at a vertex, among the first, in order. A triangle
/// that has the vertex twice is there twice.
pub open spec fn meeting_at(triangles: Seq<[u32; 3]>, vertex: int, count: int) -> Seq<u32>
    decreases count,
{
    if count <= 0 {
        seq![]
    } else {
        meeting_at(triangles, vertex, count - 1) + corners_at(
            triangles[count - 1],
            vertex,
            count - 1,
            3,
        )
    }
}

/// A triangle's number, once for each of its first corners at a vertex.
pub open spec fn corners_at(triangle: [u32; 3], vertex: int, t: int, corners: int) -> Seq<u32>
    decreases corners,
{
    if corners <= 0 {
        seq![]
    } else {
        corners_at(triangle, vertex, t, corners - 1) + (if triangle[corners - 1] == vertex {
            seq![t as u32]
        } else {
            seq![]
        })
    }
}

/// Which triangles meet at each vertex.
pub fn meeting(triangles: &Vec<[u32; 3]>, vertices: usize) -> (adjacency: Vec<Vec<u32>>)
    requires
        in_range(triangles@, vertices as int),
        triangles@.len() <= u32::MAX,
    ensures
        adjacency@.len() == vertices,
        forall|v: int|
            0 <= v < vertices ==> (#[trigger] adjacency@[v])@ == meeting_at(
                triangles@,
                v,
                triangles@.len() as int,
            ),
{
    let mut adjacency: Vec<Vec<u32>> = Vec::new();
    let mut v: usize = 0;
    while v < vertices
        invariant
            v <= vertices,
            adjacency@.len() == v,
            forall|w: int| 0 <= w < v ==> (#[trigger] adjacency@[w])@ == Seq::<u32>::empty(),
        decreases vertices - v,
    {
        adjacency.push(Vec::new());
        v += 1;
    }
    let mut t: usize = 0;
    while t < triangles.len()
        invariant
            t <= triangles@.len(),
            triangles@.len() <= u32::MAX,
            in_range(triangles@, vertices as int),
            adjacency@.len() == vertices,
            forall|w: int|
                0 <= w < vertices ==> (#[trigger] adjacency@[w])@ == meeting_at(
                    triangles@,
                    w,
                    t as int,
                ),
        decreases triangles@.len() - t,
    {
        let triangle: [u32; 3] = triangles[t];
        let mut slot: usize = 0;
        assert(triangles@[t as int] == triangle);
        while slot < 3
            invariant
                slot <= 3,
                t < triangles@.len(),
                triangles@.len() <= u32::MAX,
                triangle[0] < vertices && triangle[1] < vertices && triangle[2] < vertices,
                adjacency@.len() == vertices,
                forall|w: int|
                    0 <= w < vertices ==> (#[trigger] adjacency@[w])@ == meeting_at(
                        triangles@,
                        w,
                        t as int,
                    ) + corners_at(triangle, w, t as int, slot as int),
            decreases 3 - slot,
        {
            let vertex: usize = triangle[slot] as usize;
            let ghost before = adjacency@;
            let mut list: Vec<u32> = Vec::new();
            core::mem::swap(&mut list, &mut adjacency[vertex]);
            list.push(t as u32);
            core::mem::swap(&mut list, &mut adjacency[vertex]);
            proof {
                assert forall|w: int| 0 <= w < vertices implies (#[trigger] adjacency@[w])@
                    == meeting_at(triangles@, w, t as int) + corners_at(
                    triangle,
                    w,
                    t as int,
                    slot + 1,
                ) by {
                    if w == vertex {
                        assert(adjacency@[w]@ =~= before[w]@.push(t as u32));
                        assert(before[w]@.push(t as u32) =~= meeting_at(triangles@, w, t as int)
                            + corners_at(triangle, w, t as int, slot + 1));
                    } else {
                        assert(adjacency@[w] == before[w]);
                        assert(corners_at(triangle, w, t as int, slot + 1) =~= corners_at(
                            triangle,
                            w,
                            t as int,
                            slot as int,
                        ));
                    }
                }
            }
            slot += 1;
        }
        t += 1;
    }
    adjacency
}

/// The triangles of a list that count towards a creased normal: those that carry
/// area and whose facet is within the crease angle.
pub open spec fn contributing(
    others: Seq<u32>,
    weights: Seq<Scalar>,
    alignments: Seq<Scalar>,
    threshold: Scalar,
) -> Seq<u32>
    decreases others.len(),
{
    if others.len() == 0 {
        seq![]
    } else {
        let last = others.last();
        let before = contributing(others.drop_last(), weights, alignments, threshold);
        if !not_positive(weights[last as int]) && !alignments[others.len() - 1].below(threshold) {
            before.push(last)
        } else {
            before
        }
    }
}

/// Which of the triangles meeting at a corner its normal is averaged over.
///
/// `alignments` has, for each of `others`, the cosine between its facet and the
/// corner's own; one below `threshold` is across a crease.
pub fn contributors(
    others: &Vec<u32>,
    weights: &Vec<Scalar>,
    alignments: &Vec<Scalar>,
    threshold: Scalar,
) -> (chosen: Vec<u32>)
    requires
        alignments@.len() >= others@.len(),
        forall|k: int| 0 <= k < others@.len() ==> #[trigger] others@[k] < weights@.len(),
    ensures
        chosen@ == contributing(others@, weights@, alignments@, threshold),
{
    let mut chosen: Vec<u32> = Vec::new();
    let mut k: usize = 0;
    while k < others.len()
        invariant
            k <= others@.len(),
            alignments@.len() >= others@.len(),
            forall|k: int| 0 <= k < others@.len() ==> #[trigger] others@[k] < weights@.len(),
            chosen@ == contributing(others@.take(k as int), weights@, alignments@, threshold),
        decreases others@.len() - k,
    {
        let other: u32 = others[k];
        assert(others@.take(k + 1).drop_last() =~= others@.take(k as int));
        if has_area(weights[other as usize]) && !alignments[k].lt(threshold) {
            chosen.push(other);
        }
        k += 1;
    }
    assert(others@.take(k as int) =~= others@);
    chosen
}

/// The triangles one corner's normal is averaged over: none for a triangle
/// without area, whose corners have no normal of their own.
pub open spec fn crease_of(
    triangles: Seq<[u32; 3]>,
    weights: Seq<Scalar>,
    alignments: Seq<Vec<Scalar>>,
    threshold: Scalar,
    corner: int,
) -> Seq<u32> {
    let t = corner / 3;
    if not_positive(weights[t]) {
        seq![]
    } else {
        contributing(
            meeting_at(triangles, triangles[t][corner % 3] as int, triangles.len() as int),
            weights,
            alignments[corner]@,
            threshold,
        )
    }
}

/// The alignments have, for every corner, an entry for each triangle that meets
/// there.
pub open spec fn aligned(triangles: Seq<[u32; 3]>, alignments: Seq<Vec<Scalar>>) -> bool {
    &&& alignments.len() == 3 * triangles.len()
    &&& forall|corner: int|
        0 <= corner < alignments.len() ==> (#[trigger] alignments[corner])@.len() >= meeting_at(
            triangles,
            triangles[corner / 3][corner % 3] as int,
            triangles.len() as int,
        ).len()
}

/// Which triangles the normal of every corner is averaged over, three corners to
/// a triangle in triangle order.
///
/// The triangles meeting at a vertex contribute to a corner's normal when their
/// own facet lies within the crease angle of that corner's facet. A tessellated
/// barrel's facets are a few degrees apart and all contribute; the cap on the
/// other side of the rim is a right angle away and does not.
pub fn crease_normals(
    triangles: &Vec<[u32; 3]>,
    vertices: usize,
    weights: &Vec<Scalar>,
    alignments: &Vec<Vec<Scalar>>,
    threshold: Scalar,
) -> (lists: Vec<Vec<u32>>)
    requires
        in_range(triangles@, vertices as int),
        triangles@.len() <= u32::MAX,
        weights@.len() >= triangles@.len(),
        aligned(triangles@, alignments@),
    ensures
        lists@.len() == 3 * triangles@.len(),
        forall|corner: int|
            0 <= corner < lists@.len() ==> (#[trigger] lists@[corner])@ == crease_of(
                triangles@,
                weights@,
                alignments@,
                threshold,
                corner,
            ),
{
    let adjacency = meeting(triangles, vertices);
    let mut lists: Vec<Vec<u32>> = Vec::new();
    let mut corner: usize = 0;
    while corner < alignments.len()
        invariant
            corner <= alignments@.len(),
            in_range(triangles@, vertices as int),
            triangles@.len() <= u32::MAX,
            weights@.len() >= triangles@.len(),
            aligned(triangles@, alignments@),
            adjacency@.len() == vertices,
            forall|v: int|
                0 <= v < vertices ==> (#[trigger] adjacency@[v])@ == meeting_at(
                    triangles@,
                    v,
                    triangles@.len() as int,
                ),
            lists@.len() == corner,
            forall|c: int|
                0 <= c < corner ==> (#[trigger] lists@[c])@ == crease_of(
                    triangles@,
                    weights@,
                    alignments@,
                    threshold,
                    c,
                ),
        decreases alignments@.len() - corner,
    {
        let t: usize = corner / 3;
        let triangle: [u32; 3] = triangles[t];
        assert(triangles@[t as int] == triangle);
        let vertex: usize = triangle[corner % 3] as usize;
        if has_area(weights[t]) {
            proof {
                assert(adjacency@[vertex as int]@ == meeting_at(
                    triangles@,
                    vertex as int,
                    triangles@.len() as int,
                ));
                lemma_meeting_in_range(triangles@, vertex as int, triangles@.len() as int);
                assert(alignments@[corner as int]@.len() >= adjacency@[vertex as int]@.len());
            }
            lists.push(
                contributors(&adjacency[vertex], weights, &alignments[corner], threshold),
            );
        } else {
            lists.push(Vec::new());
            assert(lists@[corner as int]@ =~= seq![]);
        }
        corner += 1;
    }
    lists
}

/// The triangles that meet at a vertex are among those that were looked at.
proof fn lemma_meeting_in_range(triangles: Seq<[u32; 3]>, vertex: int, count: int)
    requires
        0 <= count <= triangles.len(),
        count <= u32::MAX,
    ensures
        forall|k: int|
            0 <= k < meeting_at(triangles, vertex, count).len() ==> (#[trigger] meeting_at(
                triangles,
                vertex,
                count,
            )[k]) < count,
    decreases count,
{
    if count > 0 {
        lemma_meeting_in_range(triangles, vertex, count - 1);
        let here = corners_at(triangles[count - 1], vertex, count - 1, 3);
        reveal_with_fuel(corners_at, 4);
        assert forall|k: int|
            0 <= k < meeting_at(triangles, vertex, count).len() implies (#[trigger] meeting_at(
            triangles,
            vertex,
            count,
        )[k]) < count by {
            let before = meeting_at(triangles, vertex, count - 1);
            if k < before.len() {
                assert(before[k] < count - 1);
            } else {
                assert(here[k - before.len()] == (count - 1) as u32);
            }
        }
    }
}

/// A fraction brought onto the colour ramp: clamped between nothing and one, and
/// nothing where it is not a number.
pub open spec fn on_ramp(fraction: Scalar) -> Scalar {
    if fraction.nan() || fraction.below(Scalar { bits: 0 }) {
        Scalar { bits: 0 }
    } else if (Scalar { bits: ONE_BITS }).below(fraction) {
        Scalar { bits: ONE_BITS }
    } else {
        fraction
    }
}

/// A fraction brought onto the stress colour ramp.
pub fn ramp_fraction(fraction: Scalar) -> (clamped: Scalar)
    ensures
        clamped == on_ramp(fraction),
{
    if fraction.is_nan() || fraction.lt(Scalar { bits: 0 }) {
        Scalar { bits: 0 }
    } else if (Scalar { bits: ONE_BITS }).lt(fraction) {
        Scalar { bits: ONE_BITS }
    } else {
        fraction
    }
}

/// Whatever the fraction, it is brought onto the ramp: everything at or above one
/// is at the hot end, infinity included, and everything at or below nothing, with
/// what is not a number, at the cold end.
pub proof fn law_the_ramp_clamps(fraction: Scalar)
    ensures
        (Scalar { bits: 0 }).at_most(on_ramp(fraction)),
        on_ramp(fraction).at_most(Scalar { bits: ONE_BITS }),
        (Scalar { bits: ONE_BITS }).at_most(fraction) ==> on_ramp(fraction) == (Scalar {
            bits: ONE_BITS,
        }),
        fraction.nan() || fraction.at_most(Scalar { bits: 0 }) ==> on_ramp(fraction).equals(
            Scalar { bits: 0 },
        ),
{
}

/// The two anchors of a ramp a position lies between: the one it has passed and
/// the one after it, the last one standing in for both past the end.
pub fn ramp_anchors(passed: usize, anchors: usize) -> (pair: (usize, usize))
    requires
        anchors >= 1,
    ensures
        pair.0 == (if passed < anchors - 1 {
            passed as int
        } else {
            anchors - 1
        }),
        pair.1 == (if pair.0 + 1 < anchors - 1 {
            pair.0 + 1
        } else {
            anchors - 1
        }),
        pair.0 <= pair.1 < anchors,
        passed + 1 < anchors ==> pair.0 == passed && pair.1 == passed + 1,
        passed + 1 >= anchors ==> pair.0 == pair.1,
{
    let lower: usize = if passed < anchors - 1 {
        passed
    } else {
        anchors - 1
    };
    let upper: usize = if lower + 1 < anchors - 1 {
        lower + 1
    } else {
        anchors - 1
    };
    (lower, upper)
}

/// True when a surface can be coloured against a reference stress at all.
pub fn stress_shaded(surface_is_empty: bool, reference_mpa: Scalar) -> (answer: bool)
    ensures
        answer == (!surface_is_empty && (Scalar { bits: 0 }).below(reference_mpa)),
        answer <==> !surface_is_empty && 0 < reference_mpa.bits <= 0x7ff0_0000_0000_0000,
{
    !(surface_is_empty || reference_mpa.le(Scalar { bits: 0 }) || reference_mpa.is_nan())
}

} // verus!
