//! The configuration's shapes, and how the viewer draws and anchors each.

use vstd::prelude::*;

use crate::constants::{
    VIEW_CYLINDER_SEGMENTS, VIEW_SPHERE_RINGS, VIEW_SPHERE_SEGMENTS, VIEW_TUBE_ARC_SEGMENTS,
    VIEW_TUBE_CAP_RINGS,
};
use crate::mesh::{closed, in_range, Mesh};
use crate::scalar::{Scalar, INFINITY_BITS, ONE_BITS};
use crate::spindle::swept_triangles;
use crate::tessellate::{
    box_triangles, box_vertices, cylinder_drawn, cylinder_points, cylinder_triangles,
    ellipsoid_drawn, frustum_drawn, frustum_points, frustum_triangles, not_positive, prism_points,
    prism_triangles, sphere_drawn, swept_points, tube_drawn, tube_ring_count,
};
use crate::tessellate::{
    law_a_box_is_closed, law_a_cylinder_is_closed, law_a_frustum_is_closed, law_a_prism_is_closed,
    law_a_sphere_is_closed, law_a_tube_is_closed,
};
use crate::tessellate::{
    cylinder, ellipsoid, frustum, rotated_box_mesh, sphere, triangle_prism, tube, tube_line,
    PrismPoint, SweptPoint, TubeLine,
};

verus! {

/// A point or a direction in millimetres.
pub type Vec3 = [Scalar; 3];

/// A signed distance primitive of the configuration.
#[derive(Clone, Copy, Debug)]
pub enum Shape {
    /// A box, turned about its own centre.
    Box {
        /// Lowest corner before the turn.
        min: Vec3,
        /// Highest corner before the turn.
        max: Vec3,
        /// Turn about each axis, in degrees.
        rotation_deg: Vec3,
    },
    /// A cylinder between two points.
    Cylinder {
        /// Centre of the first cap.
        p1: Vec3,
        /// Centre of the second cap.
        p2: Vec3,
        /// Radius.
        radius: Scalar,
    },
    /// A sphere.
    Sphere {
        /// Centre.
        center: Vec3,
        /// Radius.
        radius: Scalar,
    },
    /// An ellipsoid, turned about its own centre.
    Ellipsoid {
        /// Centre.
        center: Vec3,
        /// Radius along each of its own axes.
        radii: Vec3,
        /// Turn about each axis, in degrees.
        rotation_deg: Vec3,
    },
    /// Everything within a radius of a line, which may bend.
    Tube {
        /// First end of the line.
        p1: Vec3,
        /// Last end of the line.
        p2: Vec3,
        /// A point the line bends through.
        bend: Option<Vec3>,
        /// Radius.
        radius: Scalar,
    },
    /// A cone cut off between two discs, the second of which may be a point.
    Cone {
        /// Centre of the first disc.
        p1: Vec3,
        /// Centre of the second disc.
        p2: Vec3,
        /// Radius of the first disc.
        radius1: Scalar,
        /// Radius of the second disc.
        radius2: Scalar,
    },
    /// A triangle, extruded symmetrically about its own plane.
    Triangle {
        /// First corner.
        a: Vec3,
        /// Second corner.
        b: Vec3,
        /// Third corner.
        c: Vec3,
        /// Thickness of the extrusion.
        thickness: Scalar,
    },
}

/// What has been computed about a shape.
#[derive(Clone, Copy, Debug)]
pub struct Measured {
    /// Length of the line between the shape's two ends.
    pub length: Scalar,
    /// True when a tube's bend makes an arc of its line.
    pub bends: bool,
    /// True when a triangle's corners span a plane.
    pub has_normal: bool,
    /// The corners of a box where its turn puts them, counted by an (x, y, z) bit
    /// mask; of no account where it is not turned.
    pub turned: [Vec3; 8],
}

/// The overlay of one shape, its vertices placed or named.
#[derive(Debug)]
pub enum Overlay {
    /// A mesh whose vertices are points already.
    Placed(Mesh<Vec3>),
    /// A mesh of named points of a swept solid.
    Swept(Mesh<SweptPoint>),
    /// A mesh of named points of a prism.
    Prism(Mesh<PrismPoint>),
}

/// The vertices and triangles a mesh has, given whether it has any.
pub open spec fn mesh_is<P>(
    mesh: Mesh<P>,
    drawn: bool,
    vertices: Seq<P>,
    triangles: Seq<[u32; 3]>,
) -> bool {
    if drawn {
        mesh.vertices@ == vertices && mesh.triangles@ == triangles
    } else {
        mesh.vertices@.len() == 0 && mesh.triangles@.len() == 0
    }
}

/// The line a tube with these measures follows.
pub open spec fn line_of(measured: Measured) -> TubeLine {
    if measured.bends {
        TubeLine::Arc
    } else if not_positive(measured.length) {
        TubeLine::Ball
    } else {
        TubeLine::Straight
    }
}

/// Each shape drawn as what it is, at the viewer's standard resolution.
pub open spec fn drawn_as(shape: Shape, measured: Measured, overlay: Overlay) -> bool {
    match shape {
        Shape::Box { min, max, rotation_deg } => overlay matches Overlay::Placed(mesh) && mesh_is(
            mesh,
            true,
            box_vertices(min, max, rotation_deg, measured.turned),
            box_triangles(),
        ),
        Shape::Cylinder { radius, .. } => overlay matches Overlay::Swept(mesh) && mesh_is(
            mesh,
            cylinder_drawn(measured.length, radius, VIEW_CYLINDER_SEGMENTS),
            cylinder_points(VIEW_CYLINDER_SEGMENTS as int),
            cylinder_triangles(VIEW_CYLINDER_SEGMENTS as int, VIEW_CYLINDER_SEGMENTS as int),
        ),
        Shape::Sphere { radius, .. } => overlay matches Overlay::Swept(mesh) && mesh_is(
            mesh,
            sphere_drawn(radius, VIEW_SPHERE_SEGMENTS, VIEW_SPHERE_RINGS),
            swept_points(VIEW_SPHERE_SEGMENTS as int, VIEW_SPHERE_RINGS - 1),
            swept_triangles(VIEW_SPHERE_SEGMENTS as int, VIEW_SPHERE_RINGS - 1, true, true),
        ),
        Shape::Ellipsoid { radii, .. } => overlay matches Overlay::Swept(mesh) && mesh_is(
            mesh,
            ellipsoid_drawn(radii, VIEW_SPHERE_SEGMENTS, VIEW_SPHERE_RINGS),
            swept_points(VIEW_SPHERE_SEGMENTS as int, VIEW_SPHERE_RINGS - 1),
            swept_triangles(VIEW_SPHERE_SEGMENTS as int, VIEW_SPHERE_RINGS - 1, true, true),
        ),
        Shape::Tube { radius, .. } => overlay matches Overlay::Swept(mesh) && mesh_is(
            mesh,
            tube_drawn(
                radius,
                VIEW_CYLINDER_SEGMENTS,
                VIEW_TUBE_ARC_SEGMENTS,
                VIEW_TUBE_CAP_RINGS,
            ),
            swept_points(VIEW_CYLINDER_SEGMENTS as int, tube_rings_of(measured)),
            swept_triangles(
                VIEW_CYLINDER_SEGMENTS as int,
                tube_rings_of(measured),
                line_of(measured) == TubeLine::Ball,
                line_of(measured) == TubeLine::Ball,
            ),
        ),
        Shape::Cone { radius1, radius2, .. } => overlay matches Overlay::Swept(mesh) && mesh_is(
            mesh,
            frustum_drawn(measured.length, radius1, radius2, VIEW_CYLINDER_SEGMENTS),
            frustum_points(
                VIEW_CYLINDER_SEGMENTS as int,
                not_positive(radius2),
                Scalar { bits: 0 }.below(radius2),
            ),
            frustum_triangles(
                VIEW_CYLINDER_SEGMENTS as int,
                not_positive(radius2),
                Scalar { bits: 0 }.below(radius2),
                VIEW_CYLINDER_SEGMENTS as int,
            ),
        ),
        Shape::Triangle { thickness, .. } => overlay matches Overlay::Prism(mesh) && mesh_is(
            mesh,
            measured.has_normal && !not_positive(thickness),
            prism_points(),
            prism_triangles(),
        ),
    }
}

/// Rings between the poles of the viewer's tube.
pub open spec fn tube_rings_of(measured: Measured) -> int {
    if line_of(measured) == TubeLine::Ball {
        2 * VIEW_TUBE_CAP_RINGS - 1
    } else {
        tube_ring_count(
            line_of(measured),
            VIEW_TUBE_ARC_SEGMENTS as int,
            VIEW_TUBE_CAP_RINGS as int,
        )
    }
}

/// Tessellate a signed distance primitive at the viewer's standard resolution.
pub fn shape(primitive: &Shape, measured: &Measured) -> (overlay: Overlay)
    ensures
        drawn_as(*primitive, *measured, overlay),
{
    match *primitive {
        Shape::Box { min, max, rotation_deg } => Overlay::Placed(
            rotated_box_mesh(min, max, rotation_deg, measured.turned),
        ),
        Shape::Cylinder { p1: _, p2: _, radius } => Overlay::Swept(
            cylinder(measured.length, radius, VIEW_CYLINDER_SEGMENTS),
        ),
        Shape::Sphere { center: _, radius } => Overlay::Swept(
            sphere(radius, VIEW_SPHERE_SEGMENTS, VIEW_SPHERE_RINGS),
        ),
        // The counts a sphere gets: it is the same surface, stretched.
        Shape::Ellipsoid { center: _, radii, rotation_deg: _ } => Overlay::Swept(
            ellipsoid(radii, VIEW_SPHERE_SEGMENTS, VIEW_SPHERE_RINGS),
        ),
        // The cylinder's count around it, because it is the same barrel, and
        // half a sphere's rings per cap, because that is what a cap is.
        Shape::Tube { p1: _, p2: _, bend: _, radius } => Overlay::Swept(
            tube(
                tube_line(measured.bends, measured.length),
                radius,
                VIEW_CYLINDER_SEGMENTS,
                VIEW_TUBE_ARC_SEGMENTS,
                VIEW_TUBE_CAP_RINGS,
            ),
        ),
        // The cylinder's count around it, because it is the same barrel with a
        // radius per end.
        Shape::Cone { p1: _, p2: _, radius1, radius2 } => Overlay::Swept(
            frustum(measured.length, radius1, radius2, VIEW_CYLINDER_SEGMENTS),
        ),
        // Flat faces all the way round: eight triangles, and no count to pick.
        Shape::Triangle { a: _, b: _, c: _, thickness } => Overlay::Prism(
            triangle_prism(measured.has_normal, thickness),
        ),
    }
}

/// The triangles of an overlay, and how many vertices they may name.
pub open spec fn overlay_triangles(overlay: Overlay) -> (Seq<[u32; 3]>, int) {
    match overlay {
        Overlay::Placed(mesh) => (mesh.triangles@, mesh.vertices@.len() as int),
        Overlay::Swept(mesh) => (mesh.triangles@, mesh.vertices@.len() as int),
        Overlay::Prism(mesh) => (mesh.triangles@, mesh.vertices@.len() as int),
    }
}

/// Every overlay is a closed, consistently wound surface whose triangles name
/// its own vertices. A cone whose second radius is not a number is the exception:
/// it gets a second rim and no cap on it.
pub proof fn law_every_overlay_is_closed(shape: Shape, measured: Measured, overlay: Overlay)
    requires
        drawn_as(shape, measured, overlay),
        shape matches Shape::Cone { radius2, .. } ==> !radius2.nan(),
    ensures
        closed(overlay_triangles(overlay).0),
        in_range(overlay_triangles(overlay).0, overlay_triangles(overlay).1),
{
    match shape {
        Shape::Box { .. } => {
            law_a_box_is_closed();
        },
        Shape::Cylinder { .. } => {
            law_a_cylinder_is_closed(VIEW_CYLINDER_SEGMENTS as int);
        },
        Shape::Sphere { .. } | Shape::Ellipsoid { .. } => {
            law_a_sphere_is_closed(VIEW_SPHERE_SEGMENTS as int, VIEW_SPHERE_RINGS as int);
        },
        Shape::Tube { .. } => {
            law_a_tube_is_closed(
                line_of(measured),
                VIEW_CYLINDER_SEGMENTS as int,
                VIEW_TUBE_ARC_SEGMENTS as int,
                VIEW_TUBE_CAP_RINGS as int,
            );
        },
        Shape::Cone { radius2, .. } => {
            law_a_frustum_is_closed(VIEW_CYLINDER_SEGMENTS as int, not_positive(radius2));
        },
        Shape::Triangle { .. } => {
            law_a_prism_is_closed();
        },
    }
}

/// Where a load indicator is anchored, as points the caller averages.
#[derive(Clone, Copy, Debug)]
pub enum Anchor {
    /// At a point.
    At(Vec3),
    /// Halfway between two points.
    Between(Vec3, Vec3),
    /// At the mean of three points.
    Mean(Vec3, Vec3, Vec3),
    /// Halfway along the arc of a bent tube.
    MidArc(Vec3, Vec3, Option<Vec3>),
}

/// The geometric centre of a shape.
pub open spec fn anchored(shape: Shape, bends: bool) -> Anchor {
    match shape {
        Shape::Box { min, max, .. } => Anchor::Between(min, max),
        Shape::Cylinder { p1, p2, .. } => Anchor::Between(p1, p2),
        Shape::Sphere { center, .. } => Anchor::At(center),
        Shape::Ellipsoid { center, .. } => Anchor::At(center),
        Shape::Tube { p1, p2, bend, .. } => if bends {
            Anchor::MidArc(p1, p2, bend)
        } else {
            Anchor::Between(p1, p2)
        },
        Shape::Cone { p1, p2, .. } => Anchor::Between(p1, p2),
        Shape::Triangle { a, b, c, .. } => Anchor::Mean(a, b, c),
    }
}

/// Geometric centre of a primitive, where a load indicator is anchored. `bends`
/// says that a tube's bend makes an arc of its line.
pub fn centroid(shape: &Shape, bends: bool) -> (anchor: Anchor)
    ensures
        anchor == anchored(*shape, bends),
{
    match *shape {
        // The centre is the point a box turns about, so it is where it is
        // whatever rotation the box carries.
        Shape::Box { min, max, rotation_deg: _ } => Anchor::Between(min, max),
        Shape::Cylinder { p1, p2, radius: _ } => Anchor::Between(p1, p2),
        Shape::Sphere { center, radius: _ } => Anchor::At(center),
        // As with a box, the centre is the point it turns about.
        Shape::Ellipsoid { center, radii: _, rotation_deg: _ } => Anchor::At(center),
        // The middle of the *curve*, which on a bent tube is not the middle of
        // the line between its ends: an indicator hangs off the tube rather
        // than off the chord it spans.
        Shape::Tube { p1, p2, bend, radius: _ } => if bends {
            Anchor::MidArc(p1, p2, bend)
        } else {
            Anchor::Between(p1, p2)
        },
        // The middle of the axis, which is the cylinder's answer and the point
        // the gizmo anchors a cone on. Deliberately not the centre of *mass*,
        // which a taper pulls towards the wide end.
        Shape::Cone { p1, p2, radius1: _, radius2: _ } => Anchor::Between(p1, p2),
        // The centroid of the face, which the symmetric extrusion makes the
        // centroid of the prism as well.
        Shape::Triangle { a, b, c, thickness: _ } => Anchor::Mean(a, b, c),
    }
}

/// The component `d` can be told to be the smallest: it is a number, and finite.
pub open spec fn measurable(axis: Vec3, d: int) -> bool {
    axis[d].finite()
}

/// Which cardinal axis is least aligned with a direction, the first of them
/// where several are: crossing with it never collapses.
pub fn least_aligned(axis: Vec3) -> (smallest: usize)
    ensures
        smallest < 3,
        (forall|d: int| 0 <= d < 3 ==> !#[trigger] measurable(axis, d)) ==> smallest == 0,
        (exists|d: int| 0 <= d < 3 && #[trigger] measurable(axis, d)) ==> {
            &&& measurable(axis, smallest as int)
            &&& forall|d: int|
                0 <= d < 3 && #[trigger] measurable(axis, d) ==> axis[smallest as int].magnitude()
                    <= axis[d].magnitude()
            &&& forall|d: int|
                0 <= d < smallest && #[trigger] measurable(axis, d)
                    ==> axis[smallest as int].magnitude() < axis[d].magnitude()
        },
{
    let mut smallest: usize = 0;
    let mut value: Scalar = Scalar { bits: INFINITY_BITS };
    let mut d: usize = 0;
    while d < 3
        invariant
            d <= 3,
            smallest < 3,
            (forall|e: int| 0 <= e < d ==> !#[trigger] measurable(axis, e)) ==> smallest == 0
                && value.bits == INFINITY_BITS,
            (exists|e: int| 0 <= e < d && #[trigger] measurable(axis, e)) ==> {
                &&& measurable(axis, smallest as int)
                &&& smallest < d
                &&& value.bits == axis[smallest as int].magnitude()
                &&& forall|e: int|
                    0 <= e < d && #[trigger] measurable(axis, e) ==> axis[smallest as int].magnitude()
                        <= axis[e].magnitude()
                &&& forall|e: int|
                    0 <= e < smallest && #[trigger] measurable(axis, e)
                        ==> axis[smallest as int].magnitude() < axis[e].magnitude()
            },
        decreases 3 - d,
    {
        let size = axis[d].abs();
        let ghost before = smallest;
        assert(measurable(axis, d as int) == axis[d as int].finite());
        if size.lt(value) {
            smallest = d;
            value = size;
        }
        d += 1;
    }
    smallest
}

} // verus!
