//! What holds of the drawn solids and of their shading, stated of the sizes, the
//! angles and the corners they are made from.

use vstd::prelude::*;

use crate::indicators::{
    arc_drawn, arc_tubes, arc_view, arrow_view, dimension_line_drawn, dimension_line_view, ArcSizes,
    ArrowSizes, PiecePoint,
};
use crate::mesh::{appended, Mesh};
use crate::scalar::Scalar;
use crate::shading::{
    contributing, corners_at, crease_of, facetted, kept, kept_triangles,
    law_the_drawn_triangles_are_the_kept_ones, meeting_at, on_ramp, shaded_corners, Measures,
    NormalOf, Shading, ShadedCorner,
};
use crate::shapes::{
    anchored, drawn_as, line_of, measurable, overlay_triangles, tube_rings_of, Anchor, Measured,
    Overlay, Shape, Vec3,
};
use crate::spindle::{
    corner, is_facet, lemma_sweep_facets, lemma_swept_number, lemma_swept_triangle_count, next_on,
    sweep_facets, swept_triangles, written,
};
use crate::tessellate::{
    box_corners, box_triangles, box_vertices, cone_drawn, cone_points, cone_triangles, corner_order,
    cylinder_drawn, cylinder_points, cylinder_triangles, ellipsoid_drawn, ellipsoid_mesh,
    frustum_drawn, frustum_points, frustum_segment, frustum_triangles, not_positive, prism_points,
    prism_triangles, sphere_drawn, sphere_mesh, swept_points, swept_rings, tube_drawn,
    tube_ring_count, tube_sweep, PrismPoint, SweptPoint, TubeLine, TubeRing,
};

verus! {

/// A size draws something unless it is zero or a number below it: what is no number
/// is not turned away.
pub proof fn law_a_size_is_zero_or_less_by_its_bits(size: Scalar)
    ensures
        not_positive(size) <==> size.bits == 0 || 0x8000_0000_0000_0000 <= size.bits
            <= 0xfff0_0000_0000_0000,
        !size.nan() ==> (not_positive(size) <==> !(Scalar { bits: 0 }).below(size)),
        size.nan() ==> !not_positive(size),
{
}

/// A turn about any one axis turns the box, whatever the other two angles are: its
/// vertices are then the turned corners. With every angle zero, of either sign, they
/// are its own.
pub proof fn law_a_turn_about_any_axis_turns_the_box<T>(
    min: [T; 3],
    max: [T; 3],
    rotation_deg: [Scalar; 3],
    turned: [[T; 3]; 8],
    d: int,
)
    requires
        0 <= d < 3,
    ensures
        !rotation_deg[d].equals(Scalar { bits: 0 }) ==> forall|k: int|
            0 <= k < 8 ==> box_vertices(min, max, rotation_deg, turned)[#[trigger] corner_order()[k]]
                == turned[k],
        rotation_deg[0].equals(Scalar { bits: 0 }) && rotation_deg[1].equals(Scalar { bits: 0 })
            && rotation_deg[2].equals(Scalar { bits: 0 }) ==> forall|v: int|
            0 <= v < 8 ==> (#[trigger] box_vertices(min, max, rotation_deg, turned)[v])
                == box_corners(min, max)[v],
{
    if rotation_deg[0].equals(Scalar { bits: 0 }) && rotation_deg[1].equals(Scalar { bits: 0 })
        && rotation_deg[2].equals(Scalar { bits: 0 }) {
        assert forall|e: int| 0 <= e < 3 implies (#[trigger] rotation_deg[e]).equals(
            Scalar { bits: 0 },
        ) by {
            assert(e == 0 || e == 1 || e == 2);
        }
    }
}

/// Every corner of a box is on its lowest or its highest side along each axis, the
/// first four on the lowest along the third, and a corner and the one above it differ
/// along that axis alone. Each of the twelve triangles lies in one side of the box and
/// goes anticlockwise round what points out of it.
pub proof fn law_a_box_faces_outwards(min: [int; 3], max: [int; 3], t: int)
    requires
        min[0] < max[0],
        min[1] < max[1],
        min[2] < max[2],
        0 <= t < 12,
    ensures
        ({
            let corners = box_corners(min, max);
            let triangle = box_triangles()[t];
            let a = corners[triangle[0] as int];
            let b = corners[triangle[1] as int];
            let c = corners[triangle[2] as int];
            let u = [b[0] - a[0], b[1] - a[1], b[2] - a[2]];
            let w = [c[0] - a[0], c[1] - a[1], c[2] - a[2]];
            let nx = u[1] * w[2] - u[2] * w[1];
            let ny = u[2] * w[0] - u[0] * w[2];
            let nz = u[0] * w[1] - u[1] * w[0];
            ||| a[0] == max[0] && b[0] == max[0] && c[0] == max[0] && nx > 0 && ny == 0 && nz == 0
            ||| a[0] == min[0] && b[0] == min[0] && c[0] == min[0] && nx < 0 && ny == 0 && nz == 0
            ||| a[1] == max[1] && b[1] == max[1] && c[1] == max[1] && ny > 0 && nx == 0 && nz == 0
            ||| a[1] == min[1] && b[1] == min[1] && c[1] == min[1] && ny < 0 && nx == 0 && nz == 0
            ||| a[2] == max[2] && b[2] == max[2] && c[2] == max[2] && nz > 0 && nx == 0 && ny == 0
            ||| a[2] == min[2] && b[2] == min[2] && c[2] == min[2] && nz < 0 && nx == 0 && ny == 0
        }),
{
    let sx = max[0] - min[0];
    let sy = max[1] - min[1];
    let sz = max[2] - min[2];
    let corners = box_corners(min, max);
    let triangle = box_triangles()[t];
    let a = corners[triangle[0] as int];
    let b = corners[triangle[1] as int];
    let c = corners[triangle[2] as int];
    let u = [b[0] - a[0], b[1] - a[1], b[2] - a[2]];
    let w = [c[0] - a[0], c[1] - a[1], c[2] - a[2]];
    assert(t == 0 || t == 1 || t == 2 || t == 3 || t == 4 || t == 5 || t == 6 || t == 7 || t == 8
        || t == 9 || t == 10 || t == 11);
    assert(u[0] == 0 || u[0] == sx || u[0] == -sx);
    assert(u[1] == 0 || u[1] == sy || u[1] == -sy);
    assert(u[2] == 0 || u[2] == sz || u[2] == -sz);
    assert(w[0] == 0 || w[0] == sx || w[0] == -sx);
    assert(w[1] == 0 || w[1] == sy || w[1] == -sy);
    assert(w[2] == 0 || w[2] == sz || w[2] == -sz);
    lemma_sides(u[1], sy, w[2], sz);
    lemma_sides(w[1], sy, u[2], sz);
    lemma_sides(u[2], sz, w[0], sx);
    lemma_sides(w[2], sz, u[0], sx);
    lemma_sides(u[0], sx, w[1], sy);
    lemma_sides(w[0], sx, u[1], sy);
}

/// The product of two sides of a box, either of them walked forth, back or not at all.
proof fn lemma_sides(p: int, s: int, q: int, r: int)
    requires
        s > 0,
        r > 0,
        p == 0 || p == s || p == -s,
        q == 0 || q == r || q == -r,
    ensures
        s * r > 0,
        q * p == p * q,
        p == 0 || q == 0 ==> p * q == 0,
        p == s && q == r || p == -s && q == -r ==> p * q == s * r,
        p == s && q == -r || p == -s && q == r ==> p * q == -(s * r),
{
    assert(s * r > 0) by (nonlinear_arith)
        requires
            s > 0,
            r > 0,
    ;
    assert(q * p == p * q) by (nonlinear_arith);
    assert(p == 0 || q == 0 ==> p * q == 0) by (nonlinear_arith);
    assert((-s) * (-r) == s * r && (-s) * r == -(s * r) && s * (-r) == -(s * r))
        by (nonlinear_arith);
}

/// The prism has every corner of its triangle twice, behind and in front; the front
/// cap goes round as the triangle does and the back cap the other way; and every other
/// triangle has an edge of one cap and a corner of the other.
pub proof fn law_a_prism_has_its_triangle_in_front_and_behind(t: int)
    requires
        0 <= t < 8,
    ensures
        ({
            let points = prism_points();
            let triangle = prism_triangles()[t];
            let a = points[triangle[0] as int];
            let b = points[triangle[1] as int];
            let c = points[triangle[2] as int];
            let onward = |p: PrismPoint, q: PrismPoint| q.corner == (p.corner + 1) % 3;
            &&& a.front && b.front && c.front ==> onward(a, b) && onward(b, c) && onward(c, a)
            &&& !a.front && !b.front && !c.front ==> onward(b, a) && onward(c, b) && onward(a, c)
            &&& t < 2 <==> a.front == b.front && b.front == c.front
            &&& a.corner < 3 && b.corner < 3 && c.corner < 3
        }),
        forall|corner: usize, front: bool|
            corner < 3 ==> #[trigger] prism_points().contains(PrismPoint { corner, front }),
        prism_points().len() == 6,
{
    let points = prism_points();
    assert(points[0] == (PrismPoint { corner: 0, front: false }));
    assert(points[1] == (PrismPoint { corner: 1, front: false }));
    assert(points[2] == (PrismPoint { corner: 2, front: false }));
    assert(points[3] == (PrismPoint { corner: 0, front: true }));
    assert(points[4] == (PrismPoint { corner: 1, front: true }));
    assert(points[5] == (PrismPoint { corner: 2, front: true }));
    assert forall|corner: usize, front: bool| corner < 3 implies #[trigger] prism_points().contains(
        PrismPoint { corner, front },
    ) by {
        let at = if front {
            corner + 3
        } else {
            corner as int
        };
        assert(points[at] == (PrismPoint { corner, front }));
    }
}

/// Solids of sizes above zero, at a resolution that goes round, are all drawn.
pub proof fn law_positive_sizes_are_drawn(
    a: Scalar,
    b: Scalar,
    c: Scalar,
    segments: usize,
    rings: usize,
    arc_segments: usize,
)
    requires
        (Scalar { bits: 0 }).below(a),
        (Scalar { bits: 0 }).below(b),
        (Scalar { bits: 0 }).below(c),
        segments >= 3,
    ensures
        cylinder_drawn(a, b, segments),
        frustum_drawn(a, b, c, segments),
        frustum_drawn(a, b, Scalar { bits: 0 }, segments),
        cone_drawn(a, b, segments, c),
        rings >= 2 ==> sphere_drawn(a, segments, rings),
        rings >= 2 ==> ellipsoid_drawn([a, b, c], segments, rings),
        rings >= 1 && arc_segments >= 1 ==> tube_drawn(a, segments, arc_segments, rings),
{
}

/// A solid with a size that is zero or below it is not drawn, nor one of too few
/// segments or rings to go round.
pub proof fn law_sizes_of_nothing_are_not_drawn(
    nothing: Scalar,
    a: Scalar,
    b: Scalar,
    segments: usize,
    rings: usize,
    arc_segments: usize,
)
    requires
        nothing.at_most(Scalar { bits: 0 }),
    ensures
        !cylinder_drawn(nothing, a, segments),
        !cylinder_drawn(a, nothing, segments),
        !frustum_drawn(nothing, a, b, segments),
        !frustum_drawn(a, nothing, b, segments),
        nothing.below(Scalar { bits: 0 }) ==> !frustum_drawn(a, b, nothing, segments),
        !cone_drawn(nothing, a, segments, b),
        !cone_drawn(a, nothing, segments, b),
        !cone_drawn(a, b, segments, nothing),
        !sphere_drawn(nothing, segments, rings),
        !ellipsoid_drawn([nothing, a, b], segments, rings),
        !ellipsoid_drawn([a, nothing, b], segments, rings),
        !ellipsoid_drawn([a, b, nothing], segments, rings),
        !tube_drawn(nothing, segments, arc_segments, rings),
        segments < 3 ==> !cylinder_drawn(a, b, segments) && !frustum_drawn(a, b, a, segments)
            && !cone_drawn(a, b, segments, a) && !sphere_drawn(a, segments, rings)
            && !ellipsoid_drawn([a, b, a], segments, rings) && !tube_drawn(
            a,
            segments,
            arc_segments,
            rings,
        ),
        rings < 2 ==> !sphere_drawn(a, segments, rings) && !ellipsoid_drawn(
            [a, b, a],
            segments,
            rings,
        ),
        rings < 1 || arc_segments < 1 ==> !tube_drawn(a, segments, arc_segments, rings),
{
}

/// An ellipsoid has what the unit sphere has, whichever three radii above zero it is
/// stretched to, and nothing where one of them is not.
pub proof fn law_an_ellipsoid_takes_its_triangles_from_the_unit_sphere(
    radii: [Scalar; 3],
    segments: usize,
    rings: usize,
    d: int,
)
    requires
        0 <= d < 3,
    ensures
        (Scalar { bits: 0 }).below(radii[0]) && (Scalar { bits: 0 }).below(radii[1]) && (Scalar {
            bits: 0,
        }).below(radii[2]) ==> ellipsoid_mesh(radii, segments, rings) == sphere_mesh(
            Scalar { bits: 0x3ff0_0000_0000_0000 },
            segments,
            rings,
        ),
        radii[d].at_most(Scalar { bits: 0 }) ==> ellipsoid_mesh(radii, segments, rings).1.len()
            == 0 && ellipsoid_mesh(radii, segments, rings).0.len() == 0,
{
    assert(d == 0 || d == 1 || d == 2);
}

/// The rings of a tube, along it: a pole, the steps of the first cap counted from that
/// pole, one ring round every sample of the line, the steps of the last cap counted from
/// the barrel, and a pole. A straight line has its two ends to sample, an arc one sample
/// more than it has pieces.
pub proof fn law_a_tube_goes_from_pole_to_pole(
    line: TubeLine,
    arc_segments: int,
    cap_rings: int,
    i: int,
)
    requires
        1 <= arc_segments < usize::MAX,
        1 <= cap_rings <= usize::MAX,
    ensures
        ({
            let rings = tube_sweep(line, arc_segments, cap_rings);
            let samples = if line == TubeLine::Arc {
                arc_segments + 1
            } else {
                2
            };
            &&& rings.len() == 2 * cap_rings + samples
            &&& rings.len() == tube_ring_count(line, arc_segments, cap_rings) + 2
            &&& rings[0] == TubeRing::FirstPole
            &&& rings[rings.len() - 1] == TubeRing::LastPole
            &&& 1 <= i < cap_rings ==> rings[i] == (TubeRing::FirstCap { step: i as usize })
            &&& 0 <= i < samples ==> rings[cap_rings + i] == (TubeRing::Barrel {
                sample: i as usize,
            })
            &&& 1 <= i < cap_rings ==> rings[cap_rings + samples + i - 1] == (TubeRing::LastCap {
                step: i as usize,
            })
        }),
{
}

/// The vertices of a ring go round it in order, and each pole is one vertex.
pub proof fn law_a_sweep_numbers_its_points_ring_by_ring(n: int, rings: int, r: int, s: int)
    requires
        1 <= n <= usize::MAX,
        0 <= rings < usize::MAX,
    ensures
        swept_points(n, rings).len() == 2 + rings * n,
        swept_points(n, rings)[0] == (SweptPoint::Hub { ring: 0 }),
        swept_points(n, rings)[1 + rings * n] == (SweptPoint::Hub { ring: (rings + 1) as usize }),
        1 <= r <= rings && 0 <= s < n ==> swept_points(n, rings)[1 + (r - 1) * n + s] == (
        SweptPoint::Rim { ring: r as usize, s: s as usize }),
{
    lemma_rings(n, rings, r, s);
    if 1 <= r <= rings && 0 <= s < n {
        assert(0 <= (r - 1) * n && (r - 1) * n + n <= rings * n) by (nonlinear_arith)
            requires
                1 <= r <= rings,
                n >= 1,
        ;
    }
    assert(rings * n >= 0) by (nonlinear_arith)
        requires
            rings >= 0,
            n >= 1,
    ;
}

/// The same of the rings without the last pole.
proof fn lemma_rings(n: int, rings: int, r: int, s: int)
    requires
        1 <= n <= usize::MAX,
        0 <= rings < usize::MAX,
    ensures
        swept_rings(n, rings).len() == 1 + rings * n,
        swept_rings(n, rings)[0] == (SweptPoint::Hub { ring: 0 }),
        1 <= r <= rings && 0 <= s < n ==> swept_rings(n, rings)[1 + (r - 1) * n
            + s] == (SweptPoint::Rim { ring: r as usize, s: s as usize }),
    decreases rings,
{
    if rings > 0 {
        lemma_rings(n, rings - 1, r, s);
        assert((rings - 1) * n + n == rings * n && (rings - 1) * n >= 0) by (nonlinear_arith)
            requires
                rings >= 1,
                n >= 1,
        ;
        if 1 <= r <= rings - 1 && 0 <= s < n {
            assert(0 <= (r - 1) * n && (r - 1) * n + n <= (rings - 1) * n) by (nonlinear_arith)
                requires
                    1 <= r <= rings - 1,
                    n >= 1,
            ;
        }
    } else {
        assert(rings * n == 0) by (nonlinear_arith)
            requires
                rings == 0,
        ;
    }
}

/// The barrel of a cylinder has its two rims in step, a point of the first and the
/// point of the second across from it, and behind them the two centres.
pub proof fn law_a_cylinder_has_two_rims_and_two_centres(n: int, s: int)
    requires
        3 <= n <= u32::MAX,
        0 <= s < n,
    ensures
        cylinder_points(n).len() == 2 * n + 2,
        cylinder_points(n)[2 * s] == (SweptPoint::Rim { ring: 0, s: s as usize }),
        cylinder_points(n)[2 * s + 1] == (SweptPoint::Rim { ring: 1, s: s as usize }),
        cylinder_points(n)[2 * n] == (SweptPoint::Hub { ring: 0 }),
        cylinder_points(n)[2 * n + 1] == (SweptPoint::Hub { ring: 1 }),
{
}

/// A cut cone has a rim where it has a disc and one point where it comes to a point,
/// and a centre for every disc it closes with.
pub proof fn law_a_cut_cone_has_a_rim_for_every_disc(n: int, s: int)
    requires
        3 <= n <= u32::MAX,
        0 <= s < n,
    ensures
        frustum_points(n, true, false).len() == n + 2,
        frustum_points(n, false, true).len() == 2 * n + 2,
        frustum_points(n, true, false)[s] == (SweptPoint::Rim { ring: 0, s: s as usize }),
        frustum_points(n, true, false)[n] == (SweptPoint::Hub { ring: 1 }),
        frustum_points(n, true, false)[n + 1] == (SweptPoint::Hub { ring: 0 }),
        frustum_points(n, false, true)[s] == (SweptPoint::Rim { ring: 0, s: s as usize }),
        frustum_points(n, false, true)[n + s] == (SweptPoint::Rim { ring: 1, s: s as usize }),
        frustum_points(n, false, true)[2 * n] == (SweptPoint::Hub { ring: 0 }),
        frustum_points(n, false, true)[2 * n + 1] == (SweptPoint::Hub { ring: 1 }),
{
}

/// An arrowhead has one rim, the centre of its base and its apex.
pub proof fn law_an_arrowhead_has_a_base_and_an_apex(n: int, s: int)
    requires
        3 <= n <= u32::MAX,
        0 <= s < n,
    ensures
        cone_points(n).len() == n + 2,
        cone_points(n)[s] == (SweptPoint::Rim { ring: 0, s: s as usize }),
        cone_points(n)[n] == (SweptPoint::Hub { ring: 0 }),
        cone_points(n)[n + 1] == (SweptPoint::Hub { ring: 1 }),
{
}

/// One point round a rim and the point that follows it, the first following the last.
pub open spec fn onward(n: int, p: SweptPoint, q: SweptPoint) -> bool {
    &&& p is Rim && q is Rim && p->Rim_ring == q->Rim_ring
    &&& q->s == p->s + 1 || (q->s == 0 && p->s + 1 == n)
}

/// How far along the sweep a point is: the rings in order, with the centre of the first
/// before it and any other centre behind its ring.
pub open spec fn along(p: SweptPoint) -> int {
    match p {
        SweptPoint::Rim { ring, s } => 2 * ring,
        SweptPoint::Hub { ring } => if ring == 0 {
            -1
        } else {
            2 * ring + 1
        },
    }
}

/// A triangle that goes round the sweep one way: its edge on a rim, where it goes onward,
/// has the third corner further along, and where it goes back has it less far along; the
/// other way for one that is turned over. It has an edge on a rim.
pub open spec fn goes_round(
    n: int,
    points: Seq<SweptPoint>,
    triangle: [u32; 3],
    over: bool,
) -> bool {
    let a = points[triangle[0] as int];
    let b = points[triangle[1] as int];
    let c = points[triangle[2] as int];
    let fits = |p: SweptPoint, q: SweptPoint, r: SweptPoint|
        {
            &&& onward(n, p, q) ==> if over {
                along(r) < along(p)
            } else {
                along(r) > along(p)
            }
            &&& onward(n, q, p) ==> if over {
                along(r) > along(p)
            } else {
                along(r) < along(p)
            }
        };
    &&& fits(a, b, c) && fits(b, c, a) && fits(c, a, b)
    &&& onward(n, a, b) || onward(n, b, a) || onward(n, b, c) || onward(n, c, b) || onward(n, c, a)
        || onward(n, a, c)
}

/// Every triangle of a cylinder goes round it the same way, side and caps, so that all of
/// them face out.
pub proof fn law_a_cylinder_goes_round_one_way(n: int, t: int)
    requires
        3 <= n,
        2 * n + 2 <= u32::MAX,
        0 <= t < 4 * n,
    ensures
        goes_round(n, cylinder_points(n), cylinder_triangles(n, n)[t], false),
{
    let s = t / 4;
    let next = next_on(n, s);
    law_a_cylinder_has_two_rims_and_two_centres(n, s);
    law_a_cylinder_has_two_rims_and_two_centres(n, next);
    assert(t % 4 == 0 || t % 4 == 1 || t % 4 == 2 || t % 4 == 3);
}

/// Every triangle of an arrowhead goes round it the same way.
pub proof fn law_an_arrowhead_goes_round_one_way(n: int, t: int)
    requires
        3 <= n,
        n + 2 <= u32::MAX,
        0 <= t < 2 * n,
    ensures
        goes_round(n, cone_points(n), cone_triangles(n, n)[t], false),
{
    let s = t / 2;
    let next = next_on(n, s);
    law_an_arrowhead_has_a_base_and_an_apex(n, s);
    law_an_arrowhead_has_a_base_and_an_apex(n, next);
    assert(t % 2 == 0 || t % 2 == 1);
}

/// Every triangle of a cut cone goes round it the same way, whether it ends in a point or
/// in a disc.
pub proof fn law_a_cut_cone_goes_round_one_way(n: int, pointed: bool, segments: int, t: int)
    requires
        3 <= n,
        2 * n + 2 <= u32::MAX,
        0 <= segments <= n,
        0 <= t < frustum_triangles(n, pointed, !pointed, segments).len(),
    ensures
        goes_round(
            n,
            frustum_points(n, pointed, !pointed),
            frustum_triangles(n, pointed, !pointed, segments)[t],
            false,
        ),
    decreases segments,
{
    if segments > 0 {
        let before = frustum_triangles(n, pointed, !pointed, segments - 1);
        let s = segments - 1;
        let own = frustum_segment(n, pointed, !pointed, s);
        if t < before.len() {
            law_a_cut_cone_goes_round_one_way(n, pointed, segments - 1, t);
        } else {
            let next = next_on(n, s);
            law_a_cut_cone_has_a_rim_for_every_disc(n, s);
            law_a_cut_cone_has_a_rim_for_every_disc(n, next);
            let j = t - before.len();
            assert(own.len() <= 4);
            assert(j == 0 || j == 1 || j == 2 || j == 3);
            assert(frustum_triangles(n, pointed, !pointed, segments)[t] == own[j]);
        }
    }
}

/// Every triangle of a swept surface goes round it the same way, and the other way where
/// it is turned over, at the poles as between the rings.
pub proof fn law_a_sweep_goes_round_one_way(
    n: int,
    rings: int,
    flipped: bool,
    next_first: bool,
    t: int,
)
    requires
        3 <= n,
        1 <= rings,
        2 + rings * n <= u32::MAX,
        0 <= t < swept_triangles(n, rings, flipped, next_first).len(),
    ensures
        goes_round(
            n,
            swept_points(n, rings),
            swept_triangles(n, rings, flipped, next_first)[t],
            flipped,
        ),
{
    let facets = sweep_facets(n, rings, rings + 1, next_first);
    let facet = facets[t];
    lemma_sweep_facets(n, rings, rings + 1, next_first);
    assert(facets.contains(facet));
    assert(is_facet(n, rings, facet));
    assert(rings <= rings * n && n <= rings * n) by (nonlinear_arith)
        requires
            rings >= 1,
            n >= 3,
    ;
    let a = corner(n, rings, facet, 0);
    let b = corner(n, rings, facet, 1);
    let c = corner(n, rings, facet, 2);
    lemma_swept_number(n, rings, a);
    lemma_swept_number(n, rings, b);
    lemma_swept_number(n, rings, c);
    law_a_sweep_numbers_its_points_ring_by_ring(n, rings, a.0, a.1);
    law_a_sweep_numbers_its_points_ring_by_ring(n, rings, b.0, b.1);
    law_a_sweep_numbers_its_points_ring_by_ring(n, rings, c.0, c.1);
    assert(swept_triangles(n, rings, flipped, next_first)[t] == written(n, rings, flipped, facet));
}

/// A tube follows the arc of its bend, else the line between its ends, and is a ball where
/// those are one point; it has a ring at every sample of its line and as many again in its
/// caps as their steps, but for the poles.
pub proof fn law_a_tube_follows_its_line(measured: Measured)
    ensures
        measured.bends ==> line_of(measured) == TubeLine::Arc && tube_rings_of(measured) == 2 * 7
            + 25,
        !measured.bends && (Scalar { bits: 0 }).below(measured.length) ==> line_of(measured)
            == TubeLine::Straight && tube_rings_of(measured) == 2 * 7 + 2,
        !measured.bends && measured.length.at_most(Scalar { bits: 0 }) ==> line_of(measured)
            == TubeLine::Ball && tube_rings_of(measured) == 2 * 7 + 1,
{
}

/// A component of a direction counts where it is neither infinite nor no number.
pub proof fn law_a_finite_component_counts(axis: Vec3, d: int)
    requires
        0 <= d < 3,
    ensures
        measurable(axis, d) <==> axis[d].magnitude() < 0x7ff0_0000_0000_0000,
{
}

/// A shape whose sizes are above zero is drawn with triangles, and one that has a size
/// of nothing with none.
pub proof fn law_a_shape_is_drawn_where_it_has_size(
    shape: Shape,
    measured: Measured,
    overlay: Overlay,
)
    requires
        drawn_as(shape, measured, overlay),
    ensures
        ({
            let zero = Scalar { bits: 0 };
            let drawn = overlay_triangles(overlay).0.len() > 0;
            match shape {
                Shape::Box { min, max, rotation_deg } => drawn,
                Shape::Cylinder { p1, p2, radius } => {
                    &&& zero.below(measured.length) && zero.below(radius) ==> drawn
                    &&& measured.length.at_most(zero) || radius.at_most(zero) ==> !drawn
                },
                Shape::Sphere { center, radius } => {
                    &&& zero.below(radius) ==> drawn
                    &&& radius.at_most(zero) ==> !drawn
                },
                Shape::Ellipsoid { center, radii, rotation_deg } => {
                    &&& zero.below(radii[0]) && zero.below(radii[1]) && zero.below(radii[2])
                        ==> drawn
                    &&& radii[0].at_most(zero) || radii[1].at_most(zero) || radii[2].at_most(zero)
                        ==> !drawn
                },
                Shape::Tube { p1, p2, bend, radius } => {
                    &&& zero.below(radius) ==> drawn
                    &&& radius.at_most(zero) ==> !drawn
                },
                Shape::Cone { p1, p2, radius1, radius2 } => {
                    &&& zero.below(measured.length) && zero.below(radius1) && zero.at_most(radius2)
                        ==> drawn
                    &&& measured.length.at_most(zero) || radius1.at_most(zero) || radius2.below(zero)
                        ==> !drawn
                },
                Shape::Triangle { a, b, c, thickness } => {
                    &&& measured.has_normal && zero.below(thickness) ==> drawn
                    &&& !measured.has_normal || thickness.at_most(zero) ==> !drawn
                },
            }
        }),
{
    lemma_swept_triangle_count(32, 15, true, true);
    lemma_swept_triangle_count(32, tube_rings_of(measured), false, false);
    lemma_swept_triangle_count(32, tube_rings_of(measured), true, true);
    if let Shape::Cone { p1, p2, radius1, radius2 } = shape {
        let pointed = not_positive(radius2);
        let capped = (Scalar { bits: 0 }).below(radius2);
        assert(frustum_segment(32, pointed, capped, 31).len() > 0);
        assert(frustum_triangles(32, pointed, capped, 32).len() > 0);
    }
}

/// The surface of a sphere and of a swept solid is one without a hole: four triangles fewer
/// than twice its vertices.
pub proof fn law_a_sphere_has_no_hole(radius: Scalar, segments: usize, rings: usize, flipped: bool)
    requires
        segments >= 3,
        rings >= 2,
    ensures
        swept_triangles(segments as int, rings - 1, flipped, flipped).len() == 2 * swept_points(
            segments as int,
            rings - 1,
        ).len() - 4,
        (Scalar { bits: 0 }).below(radius) ==> sphere_mesh(radius, segments, rings).1.len() == 2
            * sphere_mesh(radius, segments, rings).0.len() - 4,
        (Scalar { bits: 0 }).below(radius) ==> sphere_mesh(radius, segments, rings).0.len() == 2 + (
        rings - 1) * segments,
        radius.at_most(Scalar { bits: 0 }) ==> sphere_mesh(radius, segments, rings).0.len() == 0
            && sphere_mesh(radius, segments, rings).1.len() == 0,
{
    lemma_swept_triangle_count(segments as int, rings - 1, flipped, flipped);
    lemma_swept_triangle_count(segments as int, rings - 1, true, true);
    law_a_sweep_numbers_its_points_ring_by_ring(segments as int, rings - 1, 1, 0);
    let n = segments as int;
    let r = rings - 1;
    assert(2 * (2 + r * n) - 4 == 2 * n * r) by (nonlinear_arith);
}

/// The overlay of a shape that is drawn is one surface without a hole: four triangles fewer
/// than twice its vertices, of which it has as many as its kind is drawn with.
pub proof fn law_an_overlay_has_no_hole(shape: Shape, measured: Measured, overlay: Overlay)
    requires
        drawn_as(shape, measured, overlay),
        overlay_triangles(overlay).0.len() > 0,
    ensures
        ({
            let (triangles, vertices) = overlay_triangles(overlay);
            &&& !(shape is Cone) ==> triangles.len() == 2 * vertices - 4
            &&& shape is Box ==> vertices == 8
            &&& shape is Cylinder ==> vertices == 66
            &&& shape is Sphere || shape is Ellipsoid ==> vertices == 2 + 15 * 32
            &&& shape is Tube ==> vertices == 2 + tube_rings_of(measured) * 32
            &&& shape is Triangle ==> vertices == 6
        }),
{
    let rings = tube_rings_of(measured);
    lemma_swept_triangle_count(32, 15, true, true);
    lemma_swept_triangle_count(32, rings, false, false);
    lemma_swept_triangle_count(32, rings, true, true);
    law_a_sweep_numbers_its_points_ring_by_ring(32, 15, 1, 0);
    law_a_sweep_numbers_its_points_ring_by_ring(32, rings, 1, 0);
    law_a_cylinder_has_two_rims_and_two_centres(32, 0);
}

/// The handle of a shape is held by its own points: halfway between two ends or two
/// corners, at a centre, at the mean of three corners, and on a bent line halfway along
/// the arc.
pub proof fn law_a_shape_is_anchored_by_its_own_points(
    p: Vec3,
    q: Vec3,
    r: Vec3,
    angles: Vec3,
    bend: Option<Vec3>,
    size: Scalar,
    other: Scalar,
    bends: bool,
)
    ensures
        anchored(Shape::Box { min: p, max: q, rotation_deg: angles }, bends) == Anchor::Between(p, q),
        anchored(Shape::Cylinder { p1: p, p2: q, radius: size }, bends) == Anchor::Between(p, q),
        anchored(Shape::Cone { p1: p, p2: q, radius1: size, radius2: other }, bends)
            == Anchor::Between(p, q),
        anchored(Shape::Sphere { center: p, radius: size }, bends) == Anchor::At(p),
        anchored(Shape::Ellipsoid { center: p, radii: q, rotation_deg: angles }, bends)
            == Anchor::At(p),
        anchored(Shape::Triangle { a: p, b: q, c: r, thickness: size }, bends) == Anchor::Mean(
            p,
            q,
            r,
        ),
        anchored(Shape::Tube { p1: p, p2: q, bend, radius: size }, true) == Anchor::MidArc(
            p,
            q,
            bend,
        ),
        anchored(Shape::Tube { p1: p, p2: q, bend, radius: size }, false) == Anchor::Between(p, q),
{
}

/// Appending a mesh keeps the triangles that are there and adds the others one for one,
/// each corner further on by the vertices that were there before.
pub proof fn law_appending_shifts_every_corner(
    target: Seq<[u32; 3]>,
    source: Seq<[u32; 3]>,
    offset: int,
    t: int,
    corner: int,
)
    requires
        0 <= offset,
        0 <= corner < 3,
        0 <= t < source.len() ==> source[t][corner] + offset <= u32::MAX,
    ensures
        appended(target, source, offset).len() == target.len() + source.len(),
        0 <= t < target.len() ==> appended(target, source, offset)[t] == target[t],
        0 <= t < source.len() ==> appended(target, source, offset)[target.len() + t][corner]
            == source[t][corner] + offset,
{
    assert(corner == 0 || corner == 1 || corner == 2);
}

/// A triangle is drawn exactly where none of its nine coordinates is infinite or no
/// number and its area is not zero or less.
pub proof fn law_a_triangle_is_drawn_where_its_numbers_are(
    source: &Mesh<Vec3>,
    measures: &Measures,
    triangles: int,
    t: int,
)
    requires
        0 <= t < triangles,
    ensures
        kept_triangles(source, measures, triangles).contains(t) <==> {
            &&& !measures.areas@[t].at_most(Scalar { bits: 0 })
            &&& forall|corner: int, d: int|
                0 <= corner < 3 && 0 <= d < 3
                    ==> (#[trigger] source.vertices@[source.triangles@[t][corner] as int][d]).finite()
        },
{
    law_the_drawn_triangles_are_the_kept_ones(source, Shading::Flat, measures, triangles);
    assert(kept(source, measures, t) <==> kept_triangles(source, measures, triangles).contains(t));
    let triangle = source.triangles@[t];
    if forall|corner: int, d: int|
        0 <= corner < 3 && 0 <= d < 3
            ==> (#[trigger] source.vertices@[source.triangles@[t][corner] as int][d]).finite() {
        assert(source.vertices@[triangle[0] as int][0].finite());
        assert(source.vertices@[triangle[0] as int][1].finite());
        assert(source.vertices@[triangle[0] as int][2].finite());
        assert(source.vertices@[triangle[1] as int][0].finite());
        assert(source.vertices@[triangle[1] as int][1].finite());
        assert(source.vertices@[triangle[1] as int][2].finite());
        assert(source.vertices@[triangle[2] as int][0].finite());
        assert(source.vertices@[triangle[2] as int][1].finite());
        assert(source.vertices@[triangle[2] as int][2].finite());
    }
    if kept(source, measures, t) {
        assert forall|corner: int, d: int| 0 <= corner < 3 && 0 <= d < 3 implies (
        #[trigger] source.vertices@[source.triangles@[t][corner] as int][d]).finite() by {
            assert(corner == 0 || corner == 1 || corner == 2);
            assert(d == 0 || d == 1 || d == 2);
        }
    }
}

/// A drawn corner is the corner of its source triangle, and its normal is that
/// triangle's own unless the shading averages and the average has a length: then it is
/// its vertex's where the shading is smooth and the corner's where it is rounded.
pub proof fn law_a_corner_has_the_normal_its_shading_asks_for(
    source: &Mesh<Vec3>,
    measures: &Measures,
    triangles: int,
    i: int,
    slot: int,
)
    requires
        0 <= i < kept_triangles(source, measures, triangles).len(),
        0 <= slot < 3,
        triangles <= source.triangles@.len(),
        source.triangles@.len() <= usize::MAX,
    ensures
        ({
            let zero = Scalar { bits: 0 };
            let t = kept_triangles(source, measures, triangles)[i];
            let vertex = source.triangles@[t][slot] as int;
            let flat = shaded_corners(source, Shading::Flat, measures, triangles)[3 * i + slot];
            let smooth = shaded_corners(source, Shading::Smooth, measures, triangles)[3 * i + slot];
            let rounded = shaded_corners(source, Shading::Rounded, measures, triangles)[3 * i + slot];
            &&& flat.vertex == vertex && smooth.vertex == vertex && rounded.vertex == vertex
            &&& flat.normal == (NormalOf::Face { triangle: t as usize })
            &&& zero.below(measures.smooth@[vertex]) ==> smooth.normal == (NormalOf::Vertex {
                vertex: vertex as usize,
            })
            &&& !zero.below(measures.smooth@[vertex]) ==> smooth.normal == flat.normal
            &&& zero.below(measures.creased@[3 * t + slot]) ==> rounded.normal == (
            NormalOf::Corner { triangle: t as usize, slot: slot as usize })
            &&& !zero.below(measures.creased@[3 * t + slot]) ==> rounded.normal == flat.normal
        }),
{
    if triangles <= 0 {
        assert(kept_triangles(source, measures, triangles).len() == 0);
    } else {
        law_the_drawn_triangles_are_the_kept_ones(source, Shading::Flat, measures, triangles);
        law_the_drawn_triangles_are_the_kept_ones(source, Shading::Smooth, measures, triangles);
        law_the_drawn_triangles_are_the_kept_ones(source, Shading::Rounded, measures, triangles);
        assert(slot == 0 || slot == 1 || slot == 2);
    }
}

/// A facetted layer gives the three corners of a triangle one normal, that of the
/// triangle as it is drawn, where that has a length; where it has none, and where the
/// corners do not make up a triangle, they keep theirs.
pub proof fn law_a_facet_has_one_normal(
    corners: Seq<ShadedCorner>,
    lengths: Seq<Scalar>,
    t: int,
    slot: int,
)
    requires
        0 <= t,
        0 <= slot < 3,
        3 * t + slot < corners.len() <= usize::MAX,
    ensures
        ({
            let given = facetted(corners, lengths)[3 * t + slot];
            &&& 3 * t + 3 <= corners.len() && !lengths[t].at_most(Scalar { bits: 0 })
                ==> given.normal == (NormalOf::Drawn { triangle: t as usize })
            &&& 3 * t + 3 > corners.len() || lengths[t].at_most(Scalar { bits: 0 })
                ==> given.normal == corners[3 * t + slot].normal
            &&& given.vertex == corners[3 * t + slot].vertex
        }),
{
    assert((3 * t + slot) / 3 == t);
}

/// Whatever meets at a vertex is listed in the order of the triangles, each as often as
/// it has that vertex, and nothing else is.
pub proof fn law_the_triangles_at_a_vertex_are_those_that_have_it(
    triangles: Seq<[u32; 3]>,
    vertex: int,
    count: int,
    t: u32,
)
    requires
        0 <= count <= triangles.len(),
        count <= u32::MAX,
    ensures
        ({
            let here = meeting_at(triangles, vertex, count);
            let once = |slot: int|
                if triangles[t as int][slot] == vertex {
                    1int
                } else {
                    0
                };
            &&& here.to_multiset().count(t) == (if t < count {
                once(0) + once(1) + once(2)
            } else {
                0
            })
            &&& forall|i: int, j: int|
                #![trigger here[i], here[j]]
                0 <= i < j < here.len() ==> here[i] <= here[j]
        }),
        forall|i: int|
            0 <= i < meeting_at(triangles, vertex, count).len()
                ==> #[trigger] meeting_at(triangles, vertex, count)[i] < count,
    decreases count,
{
    broadcast use vstd::seq_lib::group_to_multiset_ensures;

    let here = meeting_at(triangles, vertex, count);
    if count == 0 {
        assert(here =~= Seq::<u32>::empty());
    } else {
        law_the_triangles_at_a_vertex_are_those_that_have_it(triangles, vertex, count - 1, t);
        let before = meeting_at(triangles, vertex, count - 1);
        let last = triangles[count - 1];
        let added = corners_at(last, vertex, count - 1, 3);
        let one = corners_at(last, vertex, count - 1, 1);
        let two = corners_at(last, vertex, count - 1, 2);
        let none = corners_at(last, vertex, count - 1, 0);
        assert(none =~= Seq::<u32>::empty());
        let mark = (count - 1) as u32;
        assert(one =~= none.push(mark) || one =~= none);
        assert(two =~= one.push(mark) || two =~= one);
        assert(added =~= two.push(mark) || added =~= two);
        assert(last[0] == vertex ==> one =~= none.push(mark));
        assert(last[1] == vertex ==> two =~= one.push(mark));
        assert(last[2] == vertex ==> added =~= two.push(mark));
        assert(last[0] != vertex ==> one =~= none);
        assert(last[1] != vertex ==> two =~= one);
        assert(last[2] != vertex ==> added =~= two);
        vstd::seq_lib::lemma_multiset_commutative(before, added);
        assert(here.to_multiset() =~= before.to_multiset().add(added.to_multiset()));
        assert forall|i: int| 0 <= i < added.len() implies #[trigger] added[i] == mark by {}
    }
}

/// What shares the normal of a corner is, of what meets there, exactly what has a
/// direction and is turned no further away than the threshold allows.
pub proof fn law_a_corner_is_averaged_with_what_is_aligned(
    others: Seq<u32>,
    weights: Seq<Scalar>,
    alignments: Seq<Scalar>,
    threshold: Scalar,
    i: int,
)
    ensures
        contributing(others, weights, alignments, threshold).len() <= others.len(),
        0 <= i < others.len() && !weights[others[i] as int].at_most(Scalar { bits: 0 })
            && !alignments[i].below(threshold) ==> contributing(
            others,
            weights,
            alignments,
            threshold,
        ).contains(others[i]),
        0 <= i < contributing(others, weights, alignments, threshold).len() ==> exists|j: int|
            0 <= j < others.len() && contributing(others, weights, alignments, threshold)[i]
                == #[trigger] others[j] && !weights[others[j] as int].at_most(Scalar { bits: 0 })
                && !alignments[j].below(threshold),
    decreases others.len(),
{
    if others.len() > 0 {
        let shorter = others.drop_last();
        let given = contributing(others, weights, alignments, threshold);
        let before = contributing(shorter, weights, alignments, threshold);
        law_a_corner_is_averaged_with_what_is_aligned(shorter, weights, alignments, threshold, i);
        if 0 <= i < shorter.len() && before.contains(shorter[i]) {
            let k = choose|k: int| 0 <= k < before.len() && before[k] == shorter[i];
            assert(given[k] == others[i]);
        }
        if 0 <= i < given.len() {
            if i < before.len() {
                assert(exists|j: int|
                    0 <= j < shorter.len() && before[i] == #[trigger] shorter[j]
                        && !weights[shorter[j] as int].at_most(Scalar { bits: 0 })
                        && !alignments[j].below(threshold));
                let j = choose|j: int|
                    0 <= j < shorter.len() && before[i] == #[trigger] shorter[j]
                        && !weights[shorter[j] as int].at_most(Scalar { bits: 0 })
                        && !alignments[j].below(threshold);
                assert(given[i] == others[j]);
            } else {
                assert(given[i] == others[others.len() - 1]);
            }
        }
        if i == others.len() - 1 && given.len() > before.len() {
            assert(given[before.len() as int] == others[i]);
        }
    }
}

/// Where every triangle has a direction and nothing is turned too far away, a corner is
/// averaged with all that meets there; a triangle without a direction averages nothing.
pub proof fn law_a_corner_without_creases_is_averaged_with_all(
    triangles: Seq<[u32; 3]>,
    weights: Seq<Scalar>,
    alignments: Seq<Vec<Scalar>>,
    threshold: Scalar,
    t: int,
    slot: int,
)
    requires
        0 <= slot < 3,
        0 <= t,
    ensures
        weights[t].at_most(Scalar { bits: 0 }) ==> crease_of(
            triangles,
            weights,
            alignments,
            threshold,
            3 * t + slot,
        ).len() == 0,
        (forall|u: int| !(#[trigger] weights[u]).at_most(Scalar { bits: 0 })) && (forall|i: int|
            !(#[trigger] alignments[3 * t + slot]@[i]).below(threshold)) ==> crease_of(
            triangles,
            weights,
            alignments,
            threshold,
            3 * t + slot,
        ) == meeting_at(triangles, triangles[t][slot] as int, triangles.len() as int),
{
    assert((3 * t + slot) / 3 == t && (3 * t + slot) % 3 == slot);
    if (forall|u: int| !(#[trigger] weights[u]).at_most(Scalar { bits: 0 })) && (forall|i: int|
        !(#[trigger] alignments[3 * t + slot]@[i]).below(threshold)) {
        lemma_all_contribute(
            meeting_at(triangles, triangles[t][slot] as int, triangles.len() as int),
            weights,
            alignments[3 * t + slot]@,
            threshold,
        );
    }
}

/// With nothing to leave out, everything contributes.
proof fn lemma_all_contribute(
    others: Seq<u32>,
    weights: Seq<Scalar>,
    alignments: Seq<Scalar>,
    threshold: Scalar,
)
    requires
        forall|u: int| !(#[trigger] weights[u]).at_most(Scalar { bits: 0 }),
        forall|i: int| !(#[trigger] alignments[i]).below(threshold),
    ensures
        contributing(others, weights, alignments, threshold) == others,
    decreases others.len(),
{
    if others.len() > 0 {
        lemma_all_contribute(others.drop_last(), weights, alignments, threshold);
        assert(contributing(others, weights, alignments, threshold) =~= others);
    } else {
        assert(contributing(others, weights, alignments, threshold) =~= others);
    }
}

/// An arrow of sizes above zero is a shaft, piece zero, and a head on it, piece one, each
/// with all of its vertices; one without a length or a direction is nothing.
pub proof fn law_an_arrow_is_a_shaft_and_a_head(
    length: Scalar,
    direction_length: Scalar,
    sizes: ArrowSizes,
    v: int,
)
    ensures
        length.at_most(Scalar { bits: 0 }) || direction_length.at_most(Scalar { bits: 0 })
            ==> arrow_view(length, direction_length, sizes).0.len() == 0 && arrow_view(
            length,
            direction_length,
            sizes,
        ).1.len() == 0,
        ({
            let zero = Scalar { bits: 0 };
            zero.below(length) && zero.below(direction_length) && zero.below(sizes.shaft_length)
                && zero.below(sizes.shaft_radius) && zero.below(sizes.head_length) && zero.below(
                sizes.head_radius,
            ) && zero.below(sizes.axis_length) ==> {
                let points = arrow_view(length, direction_length, sizes).0;
                &&& points.len() == 66 + 34
                &&& 0 <= v < 66 ==> points[v] == (PiecePoint {
                    piece: 0,
                    point: cylinder_points(32)[v],
                })
                &&& 0 <= v < 34 ==> points[66 + v] == (PiecePoint {
                    piece: 1,
                    point: cone_points(32)[v],
                })
            }
        }),
{
}

/// An arc of sizes above zero is one tube for every piece of it, in order, and a head.
pub proof fn law_an_arc_is_its_tubes_and_a_head(
    lengths: Seq<Scalar>,
    sizes: ArcSizes,
    segments: int,
    s: int,
    v: int,
)
    requires
        0 <= segments <= lengths.len(),
        segments <= usize::MAX,
        forall|i: int| 0 <= i < segments ==> (Scalar { bits: 0 }).below(#[trigger] lengths[i]),
        (Scalar { bits: 0 }).below(sizes.tube_radius),
        (Scalar { bits: 0 }).below(sizes.head_length),
        (Scalar { bits: 0 }).below(sizes.head_radius),
        (Scalar { bits: 0 }).below(sizes.axis_length),
    ensures
        arc_view(lengths, sizes, segments).0.len() == 26 * segments + 34,
        0 <= s < segments && 0 <= v < 26 ==> arc_view(lengths, sizes, segments).0[26 * s + v] == (
        PiecePoint { piece: s as usize, point: cylinder_points(12)[v] }),
        0 <= v < 34 ==> arc_view(lengths, sizes, segments).0[26 * segments + v] == (PiecePoint {
            piece: segments as usize,
            point: cone_points(32)[v],
        }),
{
    lemma_arc_tubes(lengths, sizes.tube_radius, segments, s, v);
}

/// The same of the tubes without the head.
proof fn lemma_arc_tubes(lengths: Seq<Scalar>, radius: Scalar, segments: int, s: int, v: int)
    requires
        0 <= segments <= lengths.len(),
        segments <= usize::MAX,
        forall|i: int| 0 <= i < segments ==> (Scalar { bits: 0 }).below(#[trigger] lengths[i]),
        (Scalar { bits: 0 }).below(radius),
    ensures
        arc_tubes(lengths, radius, segments).0.len() == 26 * segments,
        0 <= s < segments && 0 <= v < 26 ==> arc_tubes(lengths, radius, segments).0[26 * s + v] == (
        PiecePoint { piece: s as usize, point: cylinder_points(12)[v] }),
    decreases segments,
{
    if segments > 0 {
        lemma_arc_tubes(lengths, radius, segments - 1, s, v);
        assert((Scalar { bits: 0 }).below(lengths[segments - 1]));
    }
}

/// An arc is drawn exactly where it has a radius and an axis, turns at all, whichever
/// way, and is made of two pieces or more.
pub proof fn law_an_arc_turns_either_way(
    radius: Scalar,
    sweep: Scalar,
    segments: usize,
    axis_length: Scalar,
)
    ensures
        (Scalar { bits: 0 }).below(radius) && (Scalar { bits: 0 }).below(axis_length) && segments >= 2
            ==> (arc_drawn(radius, sweep, segments, axis_length) <==> sweep.nan() || sweep.below(
            Scalar { bits: 0 },
        ) || (Scalar { bits: 0 }).below(sweep)),
        arc_drawn(radius, sweep, segments, axis_length) ==> segments >= 2 && !radius.at_most(
            Scalar { bits: 0 },
        ) && !axis_length.at_most(Scalar { bits: 0 }) && !sweep.equals(Scalar { bits: 0 }),
{
}

/// A dimension line is drawn where it is longer than its two heads and has thickness,
/// and is then a line and a head at each end.
pub proof fn law_a_dimension_line_has_a_head_at_each_end(
    span: Scalar,
    shortest: Scalar,
    sizes: ArcSizes,
    v: int,
)
    ensures
        ({
            let zero = Scalar { bits: 0 };
            &&& shortest.below(span) && zero.below(sizes.tube_radius) && zero.below(
                sizes.head_radius,
            ) ==> dimension_line_drawn(span, shortest, sizes.tube_radius, sizes.head_radius)
            &&& span.at_most(shortest) || sizes.tube_radius.at_most(zero)
                || sizes.head_radius.at_most(zero) ==> !dimension_line_drawn(
                span,
                shortest,
                sizes.tube_radius,
                sizes.head_radius,
            )
            &&& zero.below(span) && zero.below(sizes.tube_radius) && zero.below(sizes.head_radius)
                && zero.below(sizes.head_length) && zero.below(sizes.axis_length) ==> {
                let points = dimension_line_view(span, sizes).0;
                &&& points.len() == 26 + 34 + 34
                &&& 0 <= v < 26 ==> points[v] == (PiecePoint {
                    piece: 0,
                    point: cylinder_points(12)[v],
                })
                &&& 0 <= v < 34 ==> points[26 + v] == (PiecePoint {
                    piece: 1,
                    point: cone_points(32)[v],
                })
                &&& 0 <= v < 34 ==> points[60 + v] == (PiecePoint {
                    piece: 2,
                    point: cone_points(32)[v],
                })
            }
        }),
{
}

/// A fraction that is on the ramp already is left alone.
pub proof fn law_a_fraction_on_the_ramp_stays(fraction: Scalar)
    requires
        (Scalar { bits: 0 }).at_most(fraction),
        fraction.at_most(Scalar { bits: 0x3ff0_0000_0000_0000 }),
    ensures
        on_ramp(fraction) == fraction,
{
}

/// Of two fractions the larger is no further down the ramp, and two that are on it
/// apart stay apart.
pub proof fn law_the_ramp_keeps_the_order(a: Scalar, b: Scalar)
    ensures
        a.at_most(b) ==> on_ramp(a).at_most(on_ramp(b)),
        (Scalar { bits: 0 }).at_most(a) && a.below(b) && b.at_most(
            Scalar { bits: 0x3ff0_0000_0000_0000 },
        ) ==> on_ramp(a).below(on_ramp(b)),
        on_ramp(on_ramp(a)) == on_ramp(a),
{
}

} // verus!
