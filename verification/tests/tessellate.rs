//! The solids of the viewer, with their vertices put at their coordinates: what
//! is closed, what encloses which volume, and what draws nothing.

use std::collections::HashMap;
use std::f64::consts::{PI, TAU};

use growforge::constants::{
    VIEW_ARC_TUBE_SEGMENTS, VIEW_CYLINDER_SEGMENTS, VIEW_SPHERE_RINGS, VIEW_SPHERE_SEGMENTS,
    VIEW_TORQUE_ARC_SEGMENTS, VIEW_TUBE_ARC_SEGMENTS, VIEW_TUBE_CAP_RINGS,
};
use growforge::indicators::{self, ArcSizes, ArrowSizes, PiecePoint};
use growforge::mesh::Mesh;
use growforge::scalar::Scalar;
use growforge::setup;
use growforge::shapes::{self, least_aligned, Anchor, Measured, Overlay, Shape};
use growforge::tessellate::{
    self, tube_line, tube_rings, PrismPoint, SweptPoint, TubeLine, TubeRing,
};

/// A point or a direction in millimetres.
type Point = [f64; 3];

/// A number, as the library carries it.
fn scalar(value: f64) -> Scalar {
    Scalar {
        bits: value.to_bits(),
    }
}

/// A number the library carries.
fn number(value: Scalar) -> f64 {
    f64::from_bits(value.bits)
}

/// A point, as the library carries it.
fn carried(point: Point) -> [Scalar; 3] {
    point.map(scalar)
}

/// A point the library carries.
fn point(carried: [Scalar; 3]) -> Point {
    carried.map(number)
}

fn sum(a: Point, b: Point) -> Point {
    [a[0] + b[0], a[1] + b[1], a[2] + b[2]]
}

fn difference(a: Point, b: Point) -> Point {
    [a[0] - b[0], a[1] - b[1], a[2] - b[2]]
}

fn scale(a: Point, by: f64) -> Point {
    a.map(|c| c * by)
}

fn inner(a: Point, b: Point) -> f64 {
    a[0] * b[0] + a[1] * b[1] + a[2] * b[2]
}

fn cross(a: Point, b: Point) -> Point {
    [
        a[1] * b[2] - a[2] * b[1],
        a[2] * b[0] - a[0] * b[2],
        a[0] * b[1] - a[1] * b[0],
    ]
}

fn length(a: Point) -> f64 {
    inner(a, a).sqrt()
}

fn normalize(v: Point) -> Point {
    let len = length(v);
    if len > 0.0 {
        scale(v, 1.0 / len)
    } else {
        v
    }
}

/// Two unit vectors that make a right-handed frame with an axis. Only the choice
/// of the axis to cross with is a decision, and it is the library's; the rest is
/// floating point.
fn basis(axis: Point) -> (Point, Point) {
    let axis = normalize(axis);
    let mut helper = [0.0; 3];
    helper[least_aligned(carried(axis))] = 1.0;
    let u = normalize(cross(helper, axis));
    let v = cross(axis, u);
    (u, v)
}

/// The matrix of a turn about the three axes in order, in degrees.
fn rotation_matrix(degrees: Point) -> [Point; 3] {
    let (sx, cx) = degrees[0].to_radians().sin_cos();
    let (sy, cy) = degrees[1].to_radians().sin_cos();
    let (sz, cz) = degrees[2].to_radians().sin_cos();
    [
        [cz * cy, cz * sy * sx - sz * cx, cz * sy * cx + sz * sx],
        [sz * cy, sz * sy * sx + cz * cx, sz * sy * cx - cz * sx],
        [-sy, cy * sx, cy * cx],
    ]
}

fn rotate(matrix: &[Point; 3], v: Point) -> Point {
    [inner(matrix[0], v), inner(matrix[1], v), inner(matrix[2], v)]
}

/// The corners of a box turned about its centre, counted by an (x, y, z) bit mask.
fn turned_corners(min: Point, max: Point, degrees: Point) -> [Point; 8] {
    let matrix = rotation_matrix(degrees);
    let center = scale(sum(min, max), 0.5);
    let mut corners = [[0.0; 3]; 8];
    for (mask, corner) in corners.iter_mut().enumerate() {
        let plain = [
            if mask & 1 == 0 { min[0] } else { max[0] },
            if mask & 2 == 0 { min[1] } else { max[1] },
            if mask & 4 == 0 { min[2] } else { max[2] },
        ];
        *corner = sum(center, rotate(&matrix, difference(plain, center)));
    }
    corners
}

/// The unit normal of a triangle, where its corners span a plane.
fn triangle_normal(a: Point, b: Point, c: Point) -> Option<Point> {
    let raw = cross(difference(b, a), difference(c, a));
    let len = length(raw);
    (len > 0.0).then(|| scale(raw, 1.0 / len))
}

/// The arc a bent tube follows.
struct Arc {
    center: Point,
    radius: f64,
    /// From the centre to the first end.
    start: Point,
    /// Which way the arc leaves it.
    turn: Point,
    /// Normal of the plane it lies in.
    normal: Point,
    /// Angle it spans.
    span: f64,
}

impl Arc {
    fn point(&self, angle: f64) -> Point {
        let (sin, cos) = angle.sin_cos();
        sum(
            self.center,
            scale(sum(scale(self.start, cos), scale(self.turn, sin)), self.radius),
        )
    }
}

/// The arc from one end of a tube through its bend to the other, where the three
/// points make one.
fn tube_arc(p1: Point, p2: Point, bend: Option<Point>) -> Option<Arc> {
    let bend = bend?;
    let (ab, ac) = (difference(bend, p1), difference(p2, p1));
    let raw = cross(ab, ac);
    let size = inner(raw, raw);
    if size.sqrt() <= 1e-9 * (inner(ab, ab) + inner(ac, ac)) {
        return None;
    }
    let to_center = scale(
        sum(
            scale(cross(raw, ab), inner(ac, ac)),
            scale(cross(ac, raw), inner(ab, ab)),
        ),
        0.5 / size,
    );
    let center = sum(p1, to_center);
    let radius = length(to_center);
    let normal = scale(raw, 1.0 / size.sqrt());
    let start = scale(to_center, -1.0 / radius);
    let turn = cross(normal, start);
    let end = difference(p2, center);
    let span = inner(end, turn).atan2(inner(end, start)).rem_euclid(TAU);
    Some(Arc {
        center,
        radius,
        start,
        turn,
        normal,
        span,
    })
}

/// The point `s` segments round a ring.
fn on_ring(center: Point, radius: f64, frame: (Point, Point), s: usize, segments: usize) -> Point {
    let (sin, cos) = (TAU * s as f64 / segments as f64).sin_cos();
    let (u, v) = frame;
    sum(center, scale(sum(scale(u, cos), scale(v, sin)), radius))
}

/// A vertex of a cylinder or a frustum.
fn on_barrel(p1: Point, p2: Point, radii: [f64; 2], segments: usize, at: SweptPoint) -> Point {
    let ends = [p1, p2];
    match at {
        SweptPoint::Rim { ring, s } => on_ring(
            ends[ring],
            radii[ring],
            basis(difference(p2, p1)),
            s,
            segments,
        ),
        SweptPoint::Hub { ring } => ends[ring],
    }
}

/// A vertex of an arrowhead.
fn on_head(
    base: Point,
    axis: Point,
    height: f64,
    radius: f64,
    segments: usize,
    at: SweptPoint,
) -> Point {
    match at {
        SweptPoint::Rim { s, .. } => on_ring(base, radius, basis(axis), s, segments),
        SweptPoint::Hub { ring: 0 } => base,
        SweptPoint::Hub { .. } => sum(base, scale(normalize(axis), height)),
    }
}

/// A vertex of the unit sphere.
fn on_unit_sphere(segments: usize, rings: usize, at: SweptPoint) -> Point {
    match at {
        SweptPoint::Hub { ring: 0 } => [0.0, 0.0, 1.0],
        SweptPoint::Hub { .. } => [0.0, 0.0, -1.0],
        SweptPoint::Rim { ring, s } => {
            let (sin_polar, cos_polar) = (PI * ring as f64 / rings as f64).sin_cos();
            let (sin_az, cos_az) = (TAU * s as f64 / segments as f64).sin_cos();
            [sin_polar * cos_az, sin_polar * sin_az, cos_polar]
        }
    }
}

/// The centre line of a tube, sampled.
struct CentreLine {
    line: TubeLine,
    centres: Vec<Point>,
    tangents: Vec<Point>,
    /// Perpendicular to every tangent.
    plane: Point,
}

/// Sample the line a tube follows.
fn centre_line(p1: Point, p2: Point, bend: Option<Point>, arc_segments: usize) -> CentreLine {
    let axis = difference(p2, p1);
    let arc = tube_arc(p1, p2, bend);
    let line = tube_line(arc.is_some(), scalar(length(axis)));
    match arc {
        Some(arc) => {
            let angles: Vec<f64> = (0..=arc_segments)
                .map(|i| arc.span * i as f64 / arc_segments as f64)
                .collect();
            CentreLine {
                line,
                centres: angles.iter().map(|a| arc.point(*a)).collect(),
                tangents: angles
                    .iter()
                    .map(|a| {
                        let (sin, cos) = a.sin_cos();
                        normalize(sum(scale(arc.start, -sin), scale(arc.turn, cos)))
                    })
                    .collect(),
                plane: arc.normal,
            }
        }
        None => {
            let unit = normalize(axis);
            CentreLine {
                line,
                centres: vec![p1, p2],
                tangents: vec![unit, unit],
                plane: basis(axis).0,
            }
        }
    }
}

/// A vertex of a tube.
fn on_tube(
    line: &CentreLine,
    rings: &[TubeRing],
    radius: f64,
    segments: usize,
    cap_rings: usize,
    at: SweptPoint,
) -> Point {
    if line.line == TubeLine::Ball {
        let unit = on_unit_sphere(segments, 2 * cap_rings, at);
        return sum(line.centres[0], scale(unit, radius));
    }
    let last = line.centres.len() - 1;
    let (ring, s) = match at {
        SweptPoint::Rim { ring, s } => (ring, s),
        SweptPoint::Hub { ring } => (ring, 0),
    };
    let (sample, alpha) = match rings[ring] {
        TubeRing::FirstPole => return sum(line.centres[0], scale(line.tangents[0], -radius)),
        TubeRing::LastPole => return sum(line.centres[last], scale(line.tangents[last], radius)),
        TubeRing::FirstCap { step } => (0, 0.5 * PI * (1.0 - step as f64 / cap_rings as f64)),
        TubeRing::Barrel { sample } => (sample, 0.0),
        TubeRing::LastCap { step } => (last, -0.5 * PI * (step as f64 / cap_rings as f64)),
    };
    let tangent = line.tangents[sample];
    let side = cross(tangent, line.plane);
    let (sin_alpha, cos_alpha) = alpha.sin_cos();
    sum(
        on_ring(
            line.centres[sample],
            radius * cos_alpha,
            (line.plane, side),
            s,
            segments,
        ),
        scale(tangent, -radius * sin_alpha),
    )
}

/// A vertex of a prism.
fn on_prism(corners: [Point; 3], normal: Point, thickness: f64, at: PrismPoint) -> Point {
    let offset = scale(normal, 0.5 * thickness);
    if at.front {
        sum(corners[at.corner], offset)
    } else {
        difference(corners[at.corner], offset)
    }
}

/// A mesh with every vertex at its coordinates.
fn placed<P: Copy>(mesh: &Mesh<P>, place: impl Fn(P) -> Point) -> Mesh<Point> {
    Mesh {
        vertices: mesh.vertices.iter().map(|v| place(*v)).collect(),
        triangles: mesh.triangles.clone(),
    }
}

/// What the library has to know about a shape that only arithmetic tells.
fn measured(shape: &Shape) -> Measured {
    let mut measures = Measured {
        length: scalar(0.0),
        bends: false,
        has_normal: false,
        turned: [[scalar(0.0); 3]; 8],
    };
    match *shape {
        Shape::Box {
            min,
            max,
            rotation_deg,
        } => {
            measures.turned =
                turned_corners(point(min), point(max), point(rotation_deg)).map(carried);
        }
        Shape::Cylinder { p1, p2, .. } | Shape::Cone { p1, p2, .. } => {
            measures.length = scalar(length(difference(point(p2), point(p1))));
        }
        Shape::Tube { p1, p2, bend, .. } => {
            measures.length = scalar(length(difference(point(p2), point(p1))));
            measures.bends = tube_arc(point(p1), point(p2), bend.map(point)).is_some();
        }
        Shape::Triangle { a, b, c, .. } => {
            measures.has_normal = triangle_normal(point(a), point(b), point(c)).is_some();
        }
        Shape::Sphere { .. } | Shape::Ellipsoid { .. } => {}
    }
    measures
}

/// The overlay of a shape, at its coordinates.
fn tessellated(shape: &Shape) -> Mesh<Point> {
    match (shapes::shape(shape, &measured(shape)), *shape) {
        (Overlay::Placed(mesh), _) => placed(&mesh, point),
        (Overlay::Prism(mesh), Shape::Triangle { a, b, c, thickness }) => {
            let corners = [point(a), point(b), point(c)];
            let normal = triangle_normal(corners[0], corners[1], corners[2]).unwrap_or([0.0; 3]);
            placed(&mesh, |at| on_prism(corners, normal, number(thickness), at))
        }
        (Overlay::Swept(mesh), Shape::Cylinder { p1, p2, radius }) => placed(&mesh, |at| {
            let radii = [number(radius); 2];
            on_barrel(point(p1), point(p2), radii, VIEW_CYLINDER_SEGMENTS, at)
        }),
        (
            Overlay::Swept(mesh),
            Shape::Cone {
                p1,
                p2,
                radius1,
                radius2,
            },
        ) => placed(&mesh, |at| {
            let radii = [number(radius1), number(radius2)];
            on_barrel(point(p1), point(p2), radii, VIEW_CYLINDER_SEGMENTS, at)
        }),
        (Overlay::Swept(mesh), Shape::Sphere { center, radius }) => placed(&mesh, |at| {
            let unit = on_unit_sphere(VIEW_SPHERE_SEGMENTS, VIEW_SPHERE_RINGS, at);
            sum(point(center), scale(unit, number(radius)))
        }),
        (
            Overlay::Swept(mesh),
            Shape::Ellipsoid {
                center,
                radii,
                rotation_deg,
            },
        ) => {
            let matrix = rotation_matrix(point(rotation_deg));
            let radii = point(radii);
            placed(&mesh, |at| {
                let unit = on_unit_sphere(VIEW_SPHERE_SEGMENTS, VIEW_SPHERE_RINGS, at);
                let stretched = [
                    unit[0] * radii[0],
                    unit[1] * radii[1],
                    unit[2] * radii[2],
                ];
                sum(point(center), rotate(&matrix, stretched))
            })
        }
        (
            Overlay::Swept(mesh),
            Shape::Tube {
                p1,
                p2,
                bend,
                radius,
            },
        ) => {
            let line = centre_line(
                point(p1),
                point(p2),
                bend.map(point),
                VIEW_TUBE_ARC_SEGMENTS,
            );
            let rings = tube_rings(line.line, VIEW_TUBE_ARC_SEGMENTS, VIEW_TUBE_CAP_RINGS);
            placed(&mesh, |at| {
                on_tube(
                    &line,
                    &rings,
                    number(radius),
                    VIEW_CYLINDER_SEGMENTS,
                    VIEW_TUBE_CAP_RINGS,
                    at,
                )
            })
        }
        _ => Mesh::empty(),
    }
}

/// Where a load indicator is anchored.
fn anchored(anchor: Anchor) -> Point {
    match anchor {
        Anchor::At(at) => point(at),
        Anchor::Between(a, b) => scale(sum(point(a), point(b)), 0.5),
        Anchor::Mean(a, b, c) => {
            let (a, b, c) = (point(a), point(b), point(c));
            [
                (a[0] + b[0] + c[0]) / 3.0,
                (a[1] + b[1] + c[1]) / 3.0,
                (a[2] + b[2] + c[2]) / 3.0,
            ]
        }
        Anchor::MidArc(a, b, bend) => match tube_arc(point(a), point(b), bend.map(point)) {
            Some(arc) => arc.point(0.5 * arc.span),
            None => scale(sum(point(a), point(b)), 0.5),
        },
    }
}

/// Fractions of its length an arrow is drawn with.
struct ArrowStyle {
    head_length: f64,
    head_radius: f64,
    shaft_radius: f64,
}

/// The arrow of a force, its tip at a point.
fn arrow(tip: Point, direction: Point, length_mm: f64, style: &ArrowStyle) -> Mesh<Point> {
    let axis = normalize(direction);
    let head_length = length_mm * style.head_length;
    let head_radius = length_mm * style.head_radius;
    let shaft_radius = length_mm * style.shaft_radius;
    let tail = difference(tip, scale(axis, length_mm));
    let head_base = difference(tip, scale(axis, head_length));
    let mesh = indicators::arrow(
        scalar(length_mm),
        scalar(length(direction)),
        ArrowSizes {
            shaft_length: scalar(length(difference(head_base, tail))),
            shaft_radius: scalar(shaft_radius),
            head_length: scalar(head_length),
            head_radius: scalar(head_radius),
            axis_length: scalar(length(axis)),
        },
    );
    placed(&mesh, |at: PiecePoint| {
        if at.piece == 0 {
            on_barrel(
                tail,
                head_base,
                [shaft_radius; 2],
                VIEW_CYLINDER_SEGMENTS,
                at.point,
            )
        } else {
            on_head(
                head_base,
                axis,
                head_length,
                head_radius,
                VIEW_CYLINDER_SEGMENTS,
                at.point,
            )
        }
    })
}

/// Measures of an arc, in millimetres, but for its sweep in degrees.
struct ArcStyle {
    radius: f64,
    sweep_deg: f64,
    tube_radius: f64,
    head_length: f64,
    head_radius: f64,
}

/// The arc of a torque about its axis.
fn torque_arc(axis_point: Point, axis_dir: Point, sense: f64, style: &ArcStyle) -> Mesh<Point> {
    let segments = VIEW_TORQUE_ARC_SEGMENTS;
    let sweep_deg = style.sweep_deg * sense.signum();
    let (u, v) = basis(axis_dir);
    let at_angle = |s: usize| {
        let (sin, cos) = (sweep_deg.to_radians() * s as f64 / segments as f64).sin_cos();
        sum(
            axis_point,
            scale(sum(scale(u, cos), scale(v, sin)), style.radius),
        )
    };
    let points: Vec<Point> = (0..=segments).map(at_angle).collect();
    let lengths: Vec<Scalar> = points
        .windows(2)
        .map(|pair| scalar(length(difference(pair[1], pair[0]))))
        .collect();
    let along = difference(points[segments], points[segments - 1]);
    let mesh = indicators::torque_arc(
        scalar(style.radius),
        scalar(sense),
        scalar(sweep_deg),
        scalar(length(axis_dir)),
        &lengths,
        ArcSizes {
            tube_radius: scalar(style.tube_radius),
            head_length: scalar(style.head_length),
            head_radius: scalar(style.head_radius),
            axis_length: scalar(length(along)),
        },
    );
    placed(&mesh, |at: PiecePoint| {
        if at.piece < segments {
            on_barrel(
                points[at.piece],
                points[at.piece + 1],
                [style.tube_radius; 2],
                VIEW_ARC_TUBE_SEGMENTS,
                at.point,
            )
        } else {
            on_head(
                points[segments],
                along,
                style.head_length,
                style.head_radius,
                VIEW_CYLINDER_SEGMENTS,
                at.point,
            )
        }
    })
}

/// A cube about a point.
fn marker_cube(center: Point, edge: f64) -> Mesh<Point> {
    let half = 0.5 * edge;
    tessellate::box_mesh(center.map(|c| c - half), center.map(|c| c + half))
}

// What follows is on trial; what stands above puts it at its coordinates.

fn cylinder(p1: Point, p2: Point, radius: f64, segments: usize) -> Mesh<Point> {
    let mesh = tessellate::cylinder(
        scalar(length(difference(p2, p1))),
        scalar(radius),
        segments,
    );
    placed(&mesh, |at| on_barrel(p1, p2, [radius; 2], segments, at))
}

fn frustum(p1: Point, p2: Point, radius1: f64, radius2: f64, segments: usize) -> Mesh<Point> {
    let mesh = tessellate::frustum(
        scalar(length(difference(p2, p1))),
        scalar(radius1),
        scalar(radius2),
        segments,
    );
    placed(&mesh, |at| {
        on_barrel(p1, p2, [radius1, radius2], segments, at)
    })
}

fn cone(base: Point, axis: Point, height: f64, radius: f64, segments: usize) -> Mesh<Point> {
    let mesh = tessellate::cone(
        scalar(height),
        scalar(radius),
        segments,
        scalar(length(axis)),
    );
    placed(&mesh, |at| on_head(base, axis, height, radius, segments, at))
}

fn sphere(center: Point, radius: f64, segments: usize, rings: usize) -> Mesh<Point> {
    let mesh = tessellate::sphere(scalar(radius), segments, rings);
    placed(&mesh, |at| {
        sum(center, scale(on_unit_sphere(segments, rings, at), radius))
    })
}

fn ellipsoid(
    center: Point,
    radii: Point,
    rotation: Point,
    segments: usize,
    rings: usize,
) -> Mesh<Point> {
    let mesh = tessellate::ellipsoid(carried(radii), segments, rings);
    let turned = !tessellate::is_unrotated(carried(rotation));
    let matrix = rotation_matrix(rotation);
    placed(&mesh, |at| {
        let unit = on_unit_sphere(segments, rings, at);
        let stretched = [
            unit[0] * radii[0],
            unit[1] * radii[1],
            unit[2] * radii[2],
        ];
        sum(
            center,
            if turned {
                rotate(&matrix, stretched)
            } else {
                stretched
            },
        )
    })
}

fn triangle_prism(a: Point, b: Point, c: Point, thickness: f64) -> Mesh<Point> {
    let normal = triangle_normal(a, b, c);
    let mesh = tessellate::triangle_prism(normal.is_some(), scalar(thickness));
    placed(&mesh, |at| {
        on_prism([a, b, c], normal.unwrap_or([0.0; 3]), thickness, at)
    })
}

fn tube(
    p1: Point,
    p2: Point,
    bend: Option<Point>,
    radius: f64,
    segments: usize,
    arc_segments: usize,
    cap_rings: usize,
) -> Mesh<Point> {
    let line = centre_line(p1, p2, bend, arc_segments);
    let mesh = tessellate::tube(
        line.line,
        scalar(radius),
        segments,
        arc_segments,
        cap_rings,
    );
    if mesh.is_empty() {
        return Mesh::empty();
    }
    let rings = tube_rings(line.line, arc_segments, cap_rings);
    placed(&mesh, |at| {
        on_tube(&line, &rings, radius, segments, cap_rings, at)
    })
}

fn centroid(shape: &Shape) -> Point {
    anchored(shapes::centroid(shape, measured(shape).bends))
}

const ARROW: ArrowStyle = ArrowStyle {
    head_length: 0.25,
    head_radius: 0.08,
    shaft_radius: 0.03,
};

fn torque(axis_point: Point, axis: Point, radius: f64, sense: f64) -> Mesh<Point> {
    torque_arc(
        axis_point,
        axis,
        sense,
        &ArcStyle {
            radius,
            sweep_deg: 270.0,
            tube_radius: radius * 0.04,
            head_length: radius * 0.3,
            head_radius: radius * TORQUE_HEAD_RADIUS_FRACTION,
        },
    )
}

const TORQUE_HEAD_RADIUS_FRACTION: f64 = 0.1;

const MIN_TRIANGLE_AREA_MM2: f64 = 1e-12;

struct Stats {
    volume_mm3: f64,
    min: Point,
    max: Point,
}

/// A closed, consistently wound surface, or why it is not one.
fn validate(mesh: &Mesh<Point>) -> Result<Stats, String> {
    let mut edges: HashMap<(u32, u32), usize> = HashMap::new();
    for t in &mesh.triangles {
        for (from, to) in [(t[0], t[1]), (t[1], t[2]), (t[2], t[0])] {
            if from == to {
                return Err(format!("an edge from {from} to itself"));
            }
            *edges.entry((from, to)).or_insert(0) += 1;
        }
    }
    for ((from, to), count) in &edges {
        if *count != 1 {
            return Err(format!("{from} to {to} is on {count} triangles"));
        }
        if !edges.contains_key(&(*to, *from)) {
            return Err(format!("{from} to {to} is met by nothing"));
        }
    }
    let mut stats = Stats {
        volume_mm3: 0.0,
        min: [f64::INFINITY; 3],
        max: [f64::NEG_INFINITY; 3],
    };
    for t in &mesh.triangles {
        let corners = t.map(|v| mesh.vertices[v as usize]);
        stats.volume_mm3 += inner(corners[0], cross(corners[1], corners[2])) / 6.0;
        for corner in corners {
            for d in 0..3 {
                stats.min[d] = stats.min[d].min(corner[d]);
                stats.max[d] = stats.max[d].max(corner[d]);
            }
        }
    }
    if stats.volume_mm3 <= 0.0 {
        return Err(format!("it faces inwards: {}", stats.volume_mm3));
    }
    Ok(stats)
}

fn assert_sane(mesh: &Mesh<Point>, what: &str) {
    assert!(!mesh.triangles.is_empty(), "{what} produced no triangles");
    for (index, v) in mesh.vertices.iter().enumerate() {
        for d in 0..3 {
            assert!(
                v[d].is_finite(),
                "{what} vertex {index} has a non-finite coordinate {v:?}"
            );
        }
    }
    for (index, t) in mesh.triangles.iter().enumerate() {
        let [a, b, c] = t.map(|v| mesh.vertices[v as usize]);
        let area = 0.5 * length(cross(difference(b, a), difference(c, a)));
        assert!(
            area > MIN_TRIANGLE_AREA_MM2,
            "{what} triangle {index} is degenerate (area {area:e})"
        );
    }
}

/// Distance from a point to a segment.
fn to_segment(p: Point, a: Point, b: Point) -> f64 {
    let along = difference(b, a);
    let t = (inner(difference(p, a), along) / inner(along, along)).clamp(0.0, 1.0);
    length(difference(p, sum(a, scale(along, t))))
}

/// Distance from a point to the line a tube follows.
fn to_centre_line(p: Point, p1: Point, p2: Point, bend: Option<Point>) -> f64 {
    match tube_arc(p1, p2, bend) {
        None => to_segment(p, p1, p2),
        Some(arc) => {
            let from = difference(p, arc.center);
            let flat = difference(from, scale(arc.normal, inner(from, arc.normal)));
            let angle = inner(flat, arc.turn)
                .atan2(inner(flat, arc.start))
                .rem_euclid(TAU);
            if angle <= arc.span {
                length(difference(p, arc.point(angle)))
            } else {
                length(difference(p, p1)).min(length(difference(p, p2)))
            }
        }
    }
}

#[test]
fn a_box_is_a_closed_solid_of_the_right_volume() {
    let mesh = tessellate::box_mesh([0.0, 0.0, 0.0], [2.0, 3.0, 4.0]);
    assert_sane(&mesh, "box");
    assert_eq!(mesh.vertices.len(), 8);
    assert_eq!(mesh.triangles.len(), 12);
    let stats = validate(&mesh).expect("closed box");
    assert!((stats.volume_mm3 - 24.0).abs() < 1e-9);
}

#[test]
fn a_cylinder_is_closed_and_approaches_its_analytic_volume() {
    let segments = 64;
    let mesh = cylinder([0.0, 0.0, 0.0], [0.0, 0.0, 10.0], 3.0, segments);
    assert_sane(&mesh, "cylinder");
    assert_eq!(mesh.vertices.len(), 2 * segments + 2);
    assert_eq!(mesh.triangles.len(), 4 * segments);
    let stats = validate(&mesh).expect("closed cylinder");
    let expected = PI * 9.0 * 10.0;
    assert!(
        (stats.volume_mm3 - expected).abs() / expected < 0.01,
        "cylinder volume {} differs from {expected}",
        stats.volume_mm3
    );
}

#[test]
fn a_cylinder_along_every_axis_stays_closed() {
    for axis in [
        [1.0, 0.0, 0.0],
        [0.0, 1.0, 0.0],
        [0.0, 0.0, 1.0],
        [1.0, 1.0, 1.0],
    ] {
        let mesh = cylinder([0.0, 0.0, 0.0], axis, 0.4, 16);
        assert_sane(&mesh, "cylinder");
        validate(&mesh).expect("closed cylinder");
    }
}

#[test]
fn a_cone_is_closed_and_approaches_its_analytic_volume() {
    let segments = 64;
    let mesh = cone([0.0, 0.0, 0.0], [0.0, 0.0, 1.0], 6.0, 2.0, segments);
    assert_sane(&mesh, "cone");
    assert_eq!(mesh.vertices.len(), segments + 2);
    assert_eq!(mesh.triangles.len(), 2 * segments);
    let stats = validate(&mesh).expect("closed cone");
    let expected = PI * 4.0 * 6.0 / 3.0;
    assert!(
        (stats.volume_mm3 - expected).abs() / expected < 0.01,
        "cone volume {} differs from {expected}",
        stats.volume_mm3
    );
}

#[test]
fn a_frustum_is_closed_from_its_cylinder_to_its_apex() {
    let segments = 64;
    let (p1, p2) = ([0.0, 0.0, 0.0], [0.0, 0.0, 10.0]);
    let mesh = frustum(p1, p2, 4.0, 2.0, segments);
    assert_sane(&mesh, "frustum");
    assert_eq!(mesh.vertices.len(), 2 * segments + 2);
    assert_eq!(mesh.triangles.len(), 4 * segments);
    let stats = validate(&mesh).expect("closed frustum");
    // pi h (r1^2 + r1 r2 + r2^2) / 3, approached from inside as any inscribed
    // mesh is.
    let expected = PI * 10.0 * (16.0 + 8.0 + 4.0) / 3.0;
    assert!(
        (stats.volume_mm3 - expected).abs() / expected < 0.01,
        "frustum volume {} differs from {expected}",
        stats.volume_mm3
    );

    // The apex: one vertex rather than a ring of coincident ones, the cap that
    // would have closed it dropped, and still a closed solid.
    let pointed = frustum(p1, p2, 4.0, 0.0, segments);
    assert_sane(&pointed, "cone");
    assert_eq!(pointed.vertices.len(), segments + 2);
    assert_eq!(pointed.triangles.len(), 2 * segments);
    let stats = validate(&pointed).expect("closed cone");
    let expected = PI * 16.0 * 10.0 / 3.0;
    assert!(
        (stats.volume_mm3 - expected).abs() / expected < 0.01,
        "cone volume {} differs from {expected}",
        stats.volume_mm3
    );

    // Equal radii are the cylinder: the same barrel, vertex for vertex, and the
    // same closed solid. Compared as geometry rather than as indices - a frustum
    // writes its two rings one after the other, because an apex is a ring of one
    // point, where the cylinder interleaves them.
    let round = frustum(p1, p2, 3.0, 3.0, segments);
    let plain = cylinder(p1, p2, 3.0, segments);
    assert_eq!(round.vertices.len(), plain.vertices.len());
    assert_eq!(round.triangles.len(), plain.triangles.len());
    for v in &round.vertices {
        assert!(
            plain
                .vertices
                .iter()
                .any(|w| length(difference(*v, *w)) < 1e-12),
            "{v:?} is not a vertex of the cylinder"
        );
    }
    let barrel = validate(&round).expect("closed frustum");
    let reference = validate(&plain).expect("closed cylinder");
    assert!((barrel.volume_mm3 - reference.volume_mm3).abs() < 1e-9);
    assert_eq!(barrel.min, reference.min);
    assert_eq!(barrel.max, reference.max);

    // Every vertex is on the surface, whichever way it is pointed - which is what
    // makes the overlay the shape rather than an outline of it.
    for (p1, p2, radius1, radius2) in [
        ([1.0, 2.0, 3.0], [7.0, 6.0, 9.0], 3.0, 1.0),
        ([1.0, 2.0, 3.0], [7.0, 6.0, 9.0], 3.0, 0.0),
        ([0.0; 3], [4.0, 0.0, 0.0], 1.0, 2.0),
    ] {
        let shape = Shape::Cone {
            p1: carried(p1),
            p2: carried(p2),
            radius1: scalar(radius1),
            radius2: scalar(radius2),
        };
        let mesh = tessellated(&shape);
        assert_sane(&mesh, "cone");
        validate(&mesh).expect("closed cone");
        let axis = difference(p2, p1);
        for v in &mesh.vertices {
            let t = inner(difference(*v, p1), axis) / inner(axis, axis);
            let off = length(difference(*v, sum(p1, scale(axis, t))));
            let at_end = t.abs() < 1e-9 || (t - 1.0).abs() < 1e-9;
            assert!(
                at_end && off <= radius1 + t * (radius2 - radius1) + 1e-9,
                "{v:?} is off the surface of {shape:?}"
            );
        }
    }

    // Nothing to draw is an empty mesh rather than a broken one.
    for (radius1, radius2) in [(0.0, 1.0), (1.0, -1.0)] {
        assert!(frustum(p1, p2, radius1, radius2, segments)
            .triangles
            .is_empty());
    }
    assert!(frustum(p1, p1, 4.0, 2.0, segments).triangles.is_empty());
    assert!(frustum(p1, p2, 4.0, 2.0, 2).triangles.is_empty());
}

#[test]
fn a_triangular_prism_is_closed_and_faces_outward_either_way_round() {
    let (a, b, c) = ([0.0, 0.0, 0.0], [12.0, 0.0, 0.0], [0.0, 9.0, 0.0]);
    for (a, b, c) in [(a, b, c), (a, c, b)] {
        let mesh = triangle_prism(a, b, c, 4.0);
        assert_sane(&mesh, "prism");
        assert_eq!(mesh.vertices.len(), 6);
        assert_eq!(mesh.triangles.len(), 8, "two caps and a quad per edge");
        let stats = validate(&mesh).expect("closed prism");
        // Exactly its own volume: the mesh is the solid rather than an
        // approximation of it, so this is an equality and not a bound.
        assert!(
            (stats.volume_mm3 - 0.5 * 12.0 * 9.0 * 4.0).abs() < 1e-9,
            "prism volume {}",
            stats.volume_mm3
        );
        let shape = Shape::Triangle {
            a: carried(a),
            b: carried(b),
            c: carried(c),
            thickness: scalar(4.0),
        };
        for v in &mesh.vertices {
            assert!((v[2].abs() - 2.0).abs() < 1e-12, "{v:?}");
        }
        assert_eq!(tessellated(&shape).triangles, mesh.triangles);
    }

    // Turned out of the axes, and still a closed solid of its own volume.
    let (ta, tb, tc) = ([1.0, 2.0, 3.0], [7.0, 3.0, 9.0], [2.0, 9.0, 5.0]);
    let mesh = tessellated(&Shape::Triangle {
        a: carried(ta),
        b: carried(tb),
        c: carried(tc),
        thickness: scalar(3.0),
    });
    assert_sane(&mesh, "turned prism");
    let stats = validate(&mesh).expect("closed prism");
    let face = 0.5 * length(cross(difference(tb, ta), difference(tc, ta)));
    assert!((stats.volume_mm3 - face * 3.0).abs() < 1e-9);

    // A degenerate triangle draws nothing at all.
    assert!(triangle_prism(a, b, [24.0, 0.0, 0.0], 4.0)
        .triangles
        .is_empty());
    assert!(triangle_prism(a, b, c, 0.0).triangles.is_empty());
}

#[test]
fn a_cone_and_a_prism_are_anchored_where_their_handles_are() {
    let cone = Shape::Cone {
        p1: carried([0.0, 0.0, 0.0]),
        p2: carried([0.0, 0.0, 10.0]),
        radius1: scalar(4.0),
        radius2: scalar(1.0),
    };
    // The middle of the axis, which is where the gizmo anchors it - not the
    // centre of mass, which the taper would pull towards the wide end.
    assert_eq!(centroid(&cone), [0.0, 0.0, 5.0]);
    let prism = Shape::Triangle {
        a: carried([0.0, 0.0, 0.0]),
        b: carried([12.0, 0.0, 0.0]),
        c: carried([0.0, 9.0, 0.0]),
        thickness: scalar(4.0),
    };
    assert_eq!(centroid(&prism), [4.0, 3.0, 0.0]);
}

#[test]
fn a_sphere_is_closed_and_approaches_its_analytic_volume() {
    let (segments, rings) = (48, 24);
    let mesh = sphere([1.0, -2.0, 3.0], 5.0, segments, rings);
    assert_sane(&mesh, "sphere");
    assert_eq!(mesh.vertices.len(), (rings - 1) * segments + 2);
    // Two poles contribute one triangle per segment, the inner bands two.
    assert_eq!(mesh.triangles.len(), 2 * segments * (rings - 1));
    let stats = validate(&mesh).expect("closed sphere");
    let expected = 4.0 / 3.0 * PI * 125.0;
    assert!(
        (stats.volume_mm3 - expected).abs() / expected < 0.01,
        "sphere volume {} differs from {expected}",
        stats.volume_mm3
    );
}

#[test]
fn an_ellipsoid_is_the_sphere_mesh_stretched_onto_its_own_surface() {
    let (segments, rings) = (48, 24);
    let (center, radii) = ([1.0, -2.0, 3.0], [6.0, 3.0, 2.0]);
    for rotation in [[0.0; 3], [0.0, 0.0, 45.0], [15.0, -35.0, 62.0]] {
        let mesh = ellipsoid(center, radii, rotation, segments, rings);
        assert_sane(&mesh, "ellipsoid");
        assert_eq!(mesh.vertices.len(), (rings - 1) * segments + 2);
        assert_eq!(mesh.triangles.len(), 2 * segments * (rings - 1));
        let stats = validate(&mesh).expect("closed ellipsoid");
        // 4/3 pi abc, approached from inside as any inscribed mesh is.
        let expected = 4.0 / 3.0 * PI * radii[0] * radii[1] * radii[2];
        assert!(
            (stats.volume_mm3 - expected).abs() / expected < 0.01,
            "{rotation:?}: volume {} differs from {expected}",
            stats.volume_mm3
        );
        // Every vertex is on the surface, which is what makes the overlay the
        // shape rather than an outline of it.
        let matrix = rotation_matrix(rotation);
        for v in &mesh.vertices {
            let from = difference(*v, center);
            let own: Vec<f64> = (0..3)
                .map(|d| (0..3).map(|r| matrix[r][d] * from[r]).sum::<f64>() / radii[d])
                .collect();
            let size: f64 = own.iter().map(|c| c * c).sum();
            assert!(
                (size - 1.0).abs() < 1e-9,
                "{rotation:?}: {v:?} is off the surface"
            );
        }
    }
    // Equal radii are the sphere, to the vertex.
    let round = ellipsoid([0.0; 3], [4.0; 3], [0.0; 3], segments, rings);
    let sphere = sphere([0.0; 3], 4.0, segments, rings);
    assert_eq!(round.triangles, sphere.triangles);
    for (a, b) in round.vertices.iter().zip(sphere.vertices.iter()) {
        assert!(length(difference(*a, *b)) < 1e-12, "{a:?} against {b:?}");
    }
}

#[test]
fn a_tube_is_a_closed_capsule_whose_vertices_lie_on_its_own_surface() {
    let (segments, arc_segments, cap_rings) = (32, 24, 8);
    for (bend, bands) in [
        (None, 1),
        (Some([10.0, 6.0, 0.0]), arc_segments),
        (Some([10.0, 3.0, 4.0]), arc_segments),
    ] {
        let (p1, p2, radius) = ([0.0, 0.0, 0.0], [20.0, 0.0, 0.0], 2.0);
        let mesh = tube(p1, p2, bend, radius, segments, arc_segments, cap_rings);
        assert_sane(&mesh, "tube");
        // Two poles, and a ring per band boundary and per intermediate cap ring
        // either end.
        assert_eq!(
            mesh.vertices.len(),
            2 + segments * (2 * (cap_rings - 1) + bands + 1)
        );
        let stats = validate(&mesh).expect("closed tube");
        for v in &mesh.vertices {
            let off = to_centre_line(*v, p1, p2, bend) - radius;
            assert!(off.abs() < 1e-9, "{bend:?}: {v:?} is off the surface by {off}");
        }
        // A sensible volume: a barrel about the centre line plus the ball its two
        // caps make, approached from inside as any inscribed mesh is.
        let curve = match tube_arc(p1, p2, bend) {
            Some(arc) => arc.radius * arc.span,
            None => length(difference(p2, p1)),
        };
        let expected = PI * radius * radius * curve + 4.0 / 3.0 * PI * radius * radius * radius;
        assert!(
            (stats.volume_mm3 - expected).abs() / expected < 0.05,
            "{bend:?}: volume {} differs from {expected}",
            stats.volume_mm3
        );
    }
    // A straight tube is the capsule its ends describe, and one of no length at
    // all is the ball those ends share rather than nothing.
    let ball = tube(
        [1.0, 2.0, 3.0],
        [1.0, 2.0, 3.0],
        None,
        4.0,
        segments,
        1,
        cap_rings,
    );
    let stats = validate(&ball).expect("closed ball");
    let expected = 4.0 / 3.0 * PI * 64.0;
    assert!(
        (stats.volume_mm3 - expected).abs() / expected < 0.03,
        "the ball holds {} rather than {expected}",
        stats.volume_mm3
    );
    // Degenerate requests come back empty rather than as bad triangles.
    assert!(tube([0.0; 3], [1.0, 0.0, 0.0], None, 0.0, segments, 1, cap_rings).is_empty());
    assert!(tube([0.0; 3], [1.0, 0.0, 0.0], None, 1.0, 2, 1, cap_rings).is_empty());
    assert!(tube([0.0; 3], [1.0, 0.0, 0.0], None, 1.0, segments, 0, cap_rings).is_empty());
    assert!(tube([0.0; 3], [1.0, 0.0, 0.0], None, 1.0, segments, 1, 0).is_empty());
}

#[test]
fn a_bent_tube_is_centred_on_its_own_curve() {
    let straight = Shape::Tube {
        p1: carried([0.0, 0.0, 0.0]),
        p2: carried([20.0, 0.0, 0.0]),
        bend: None,
        radius: scalar(2.0),
    };
    assert_eq!(centroid(&straight), [10.0, 0.0, 0.0]);
    let (p1, p2, bend) = ([0.0, 0.0, 0.0], [20.0, 0.0, 0.0], [10.0, 8.0, 0.0]);
    let bent = Shape::Tube {
        p1: carried(p1),
        p2: carried(p2),
        bend: Some(carried(bend)),
        radius: scalar(2.0),
    };
    let middle = centroid(&bent);
    assert!(
        to_centre_line(middle, p1, p2, Some(bend)) <= 2.0,
        "the centroid is not on the tube"
    );
    assert!(
        (middle[1] - 8.0).abs() < 1e-9,
        "the apex of this arc is its bend point: {middle:?}"
    );
    // Most of a circle, where the chord's midpoint is nowhere near it.
    let (p1, p2, bend) = ([0.0, 0.0, 0.0], [2.0, 1.0, 0.0], [-6.0, 8.0, 0.0]);
    let hook = Shape::Tube {
        p1: carried(p1),
        p2: carried(p2),
        bend: Some(carried(bend)),
        radius: scalar(1.0),
    };
    assert!(to_centre_line(centroid(&hook), p1, p2, Some(bend)) <= 1.0);
    assert!(
        to_centre_line([1.0, 0.5, 0.0], p1, p2, Some(bend)) > 1.0,
        "the chord's own midpoint"
    );
}

#[test]
fn shapes_dispatch_on_their_own_variant() {
    for primitive in [
        Shape::Box {
            min: carried([0.0, 0.0, 0.0]),
            max: carried([1.0, 2.0, 3.0]),
            rotation_deg: carried([0.0; 3]),
        },
        Shape::Box {
            min: carried([0.0, 0.0, 0.0]),
            max: carried([1.0, 2.0, 3.0]),
            rotation_deg: carried([15.0, -30.0, 45.0]),
        },
        Shape::Cylinder {
            p1: carried([0.0, 0.0, 0.0]),
            p2: carried([4.0, 1.0, 2.0]),
            radius: scalar(1.5),
        },
        Shape::Sphere {
            center: carried([2.0, 2.0, 2.0]),
            radius: scalar(2.0),
        },
        Shape::Ellipsoid {
            center: carried([2.0, 2.0, 2.0]),
            radii: carried([3.0, 2.0, 1.0]),
            rotation_deg: carried([0.0; 3]),
        },
        Shape::Ellipsoid {
            center: carried([2.0, 2.0, 2.0]),
            radii: carried([3.0, 2.0, 1.0]),
            rotation_deg: carried([15.0, -30.0, 45.0]),
        },
        Shape::Tube {
            p1: carried([0.0, 0.0, 0.0]),
            p2: carried([8.0, 2.0, 1.0]),
            bend: None,
            radius: scalar(1.0),
        },
        Shape::Tube {
            p1: carried([0.0, 0.0, 0.0]),
            p2: carried([8.0, 2.0, 1.0]),
            bend: Some(carried([4.0, 4.0, 3.0])),
            radius: scalar(1.0),
        },
        Shape::Cone {
            p1: carried([0.0, 0.0, 0.0]),
            p2: carried([4.0, 1.0, 2.0]),
            radius1: scalar(1.5),
            radius2: scalar(0.5),
        },
        Shape::Cone {
            p1: carried([0.0, 0.0, 0.0]),
            p2: carried([4.0, 1.0, 2.0]),
            radius1: scalar(1.5),
            radius2: scalar(0.0),
        },
        Shape::Triangle {
            a: carried([0.0, 0.0, 0.0]),
            b: carried([4.0, 1.0, 2.0]),
            c: carried([1.0, 4.0, 0.0]),
            thickness: scalar(1.0),
        },
    ] {
        let mesh = tessellated(&primitive);
        assert_sane(&mesh, "shape");
        validate(&mesh).expect("closed shape");
        let c = centroid(&primitive);
        assert!(c.iter().all(|v| v.is_finite()));
    }
}

#[test]
fn an_arrow_ends_at_its_anchor_and_trails_back_along_the_force() {
    let tip = [10.0, 0.0, 0.0];
    let direction = [0.0, 0.0, -1.0];
    let length_mm = 20.0;
    let mesh = arrow(tip, direction, length_mm, &ARROW);
    assert_sane(&mesh, "arrow");
    // Shaft and head are each closed, so the pair validates as a solid.
    let stats = validate(&mesh).expect("closed arrow");
    // The tip sits on the anchor and the body trails away against the force, so a
    // downward load points down at the region it acts on.
    assert!(
        (stats.min[2] - tip[2]).abs() < 1e-9,
        "the arrow tip is at {}",
        stats.min[2]
    );
    assert!(
        (stats.max[2] - (tip[2] + length_mm)).abs() < 1e-9,
        "the arrow tail is at {}",
        stats.max[2]
    );
    // Nothing sticks out sideways beyond the head radius.
    let radius = length_mm * ARROW.head_radius;
    for d in [0, 1] {
        assert!(stats.max[d] - tip[d] <= radius + 1e-9);
        assert!(tip[d] - stats.min[d] <= radius + 1e-9);
    }
    // A zero length arrow is skipped rather than built degenerate.
    assert!(arrow(tip, direction, 0.0, &ARROW).is_empty());
}

#[test]
fn a_torque_arc_wraps_its_axis_and_reverses_with_the_sign() {
    let axis_point = [5.0, 5.0, 5.0];
    let axis = [0.0, 0.0, 1.0];
    let radius = 8.0;
    let positive = torque(axis_point, axis, radius, 1.0);
    let negative = torque(axis_point, axis, radius, -1.0);
    assert_sane(&positive, "torque arc");
    assert_sane(&negative, "torque arc");
    validate(&positive).expect("closed torque arc");
    let stats = validate(&positive).expect("stats");
    // The tube stays in the plane of the arc, one tube radius either side.
    let slack = radius * TORQUE_HEAD_RADIUS_FRACTION * 2.0;
    assert!((stats.max[2] - axis_point[2]).abs() < slack);
    assert!((stats.min[2] - axis_point[2]).abs() < slack);
    // The two senses mirror each other, so they cannot be identical.
    assert_eq!(positive.vertices.len(), negative.vertices.len());
    assert!(positive
        .vertices
        .iter()
        .zip(negative.vertices.iter())
        .any(|(a, b)| a != b));
}

#[test]
fn degenerate_requests_produce_empty_meshes_rather_than_bad_triangles() {
    assert!(cylinder([0.0; 3], [0.0; 3], 1.0, 16).is_empty());
    assert!(cylinder([0.0; 3], [1.0, 0.0, 0.0], 0.0, 16).is_empty());
    assert!(cylinder([0.0; 3], [1.0, 0.0, 0.0], 1.0, 2).is_empty());
    assert!(cone([0.0; 3], [0.0, 0.0, 1.0], 0.0, 1.0, 16).is_empty());
    assert!(sphere([0.0; 3], 0.0, 16, 8).is_empty());
    assert!(ellipsoid([0.0; 3], [1.0, 0.0, 1.0], [0.0; 3], 16, 8).is_empty());
    assert!(ellipsoid([0.0; 3], [1.0, -1.0, 1.0], [0.0; 3], 16, 8).is_empty());
    assert!(ellipsoid([0.0; 3], [1.0; 3], [0.0; 3], 2, 8).is_empty());
    assert!(arrow([0.0; 3], [0.0; 3], 5.0, &ARROW).is_empty());
    assert!(torque([0.0; 3], [0.0, 0.0, 1.0], 5.0, 0.0).is_empty());
}

#[test]
fn a_marker_cube_is_centred_on_its_point() {
    let mesh = marker_cube([2.0, 3.0, 4.0], 1.0);
    assert_sane(&mesh, "marker");
    let stats = validate(&mesh).expect("closed cube");
    assert!((stats.volume_mm3 - 1.0).abs() < 1e-9);
    for d in 0..3 {
        let mid = 0.5 * (stats.min[d] + stats.max[d]);
        assert!((mid - [2.0, 3.0, 4.0][d]).abs() < 1e-9);
    }
}

#[test]
fn appending_keeps_both_meshes_intact() {
    let mut target = tessellate::box_mesh([0.0; 3], [1.0, 1.0, 1.0]);
    let source = tessellate::box_mesh([5.0, 5.0, 5.0], [6.0, 6.0, 6.0]);
    tessellate::append(&mut target, &source);
    assert_eq!(target.vertices.len(), 16);
    assert_eq!(target.triangles.len(), 24);
    let stats = validate(&target).expect("two closed cubes");
    assert!((stats.volume_mm3 - 2.0).abs() < 1e-9);
}

#[test]
fn the_basis_is_orthonormal_and_right_handed() {
    for axis in [
        [1.0, 0.0, 0.0],
        [0.0, 1.0, 0.0],
        [0.0, 0.0, 1.0],
        [-3.0, 0.2, 7.0],
    ] {
        let (u, v) = basis(axis);
        let unit = normalize(axis);
        assert!((length(u) - 1.0).abs() < 1e-12);
        assert!((length(v) - 1.0).abs() < 1e-12);
        assert!(inner(u, v).abs() < 1e-12);
        assert!(inner(u, unit).abs() < 1e-12);
        let handed = cross(u, v);
        for d in 0..3 {
            assert!((handed[d] - unit[d]).abs() < 1e-12);
        }
    }
}

#[test]
fn the_least_aligned_axis_is_the_first_of_the_smallest() {
    assert_eq!(least_aligned(carried([1.0, 0.0, 0.0])), 1);
    assert_eq!(least_aligned(carried([0.0, 1.0, 0.0])), 0);
    assert_eq!(least_aligned(carried([-3.0, 0.2, 7.0])), 1);
    assert_eq!(least_aligned(carried([5.0, -4.0, 3.0])), 2);
    assert_eq!(least_aligned(carried([f64::NAN; 3])), 0);
}

#[test]
fn a_dimension_line_needs_room_for_both_of_its_heads() {
    let sizes = ArcSizes {
        tube_radius: scalar(0.1),
        head_length: scalar(1.0),
        head_radius: scalar(0.3),
        axis_length: scalar(1.0),
    };
    let drawn = indicators::dimension_line(scalar(10.0), scalar(2.5), sizes);
    let heads = VIEW_CYLINDER_SEGMENTS + 2;
    assert_eq!(
        drawn.vertices.len(),
        2 * VIEW_ARC_TUBE_SEGMENTS + 2 + 2 * heads
    );
    assert_eq!(
        drawn.triangles.len(),
        4 * VIEW_ARC_TUBE_SEGMENTS + 4 * VIEW_CYLINDER_SEGMENTS
    );
    assert!(indicators::dimension_line(scalar(2.5), scalar(2.5), sizes).is_empty());
}

#[test]
fn a_rotation_handle_is_an_arc_with_a_head() {
    let sizes = ArcSizes {
        tube_radius: scalar(0.1),
        head_length: scalar(0.5),
        head_radius: scalar(0.3),
        axis_length: scalar(1.0),
    };
    let pieces = growforge::constants::VIEW_EDIT_ROTATE_ARC_SEGMENTS;
    let lengths = vec![scalar(1.0); pieces];
    let drawn =
        indicators::arc_arrow(scalar(4.0), scalar(90.0), scalar(1.0), &lengths, sizes);
    assert_eq!(
        drawn.vertices.len(),
        pieces * (2 * VIEW_ARC_TUBE_SEGMENTS + 2) + VIEW_CYLINDER_SEGMENTS + 2
    );
    // A piece of no length draws nothing of its own and leaves the rest whole.
    let mut shorter = lengths.clone();
    shorter[3] = scalar(0.0);
    let gap = indicators::arc_arrow(scalar(4.0), scalar(90.0), scalar(1.0), &shorter, sizes);
    assert_eq!(
        drawn.vertices.len() - gap.vertices.len(),
        2 * VIEW_ARC_TUBE_SEGMENTS + 2
    );
    assert!(indicators::arc_arrow(scalar(4.0), scalar(0.0), scalar(1.0), &lengths, sizes).is_empty());
}

#[test]
fn a_union_of_solids_is_every_one_of_them() {
    let parts = vec![
        marker_cube([0.0; 3], 1.0),
        marker_cube([4.0, 0.0, 0.0], 2.0),
        sphere([0.0, 9.0, 0.0], 1.0, 16, 8),
    ];
    let mesh = setup::unite(&parts);
    assert_eq!(
        mesh.vertices.len(),
        parts.iter().map(|part| part.vertices.len()).sum::<usize>()
    );
    let whole = validate(&mesh).expect("closed union").volume_mm3;
    let alone: f64 = parts
        .iter()
        .map(|part| validate(part).expect("closed part").volume_mm3)
        .sum();
    assert!((whole - alone).abs() < 1e-9);
    assert!(setup::unite(&Vec::<Mesh<Point>>::new()).is_empty());
}

#[test]
fn the_first_shape_that_cannot_be_made_ends_a_union() {
    let made = setup::shape_union(vec![
        Ok(marker_cube([0.0; 3], 1.0)),
        Ok(marker_cube([4.0, 0.0, 0.0], 1.0)),
    ])
    .expect("two cubes");
    assert_eq!(made.triangles.len(), 24);
    let refused = setup::shape_union(vec![
        Ok(marker_cube([0.0; 3], 1.0)),
        Err("[[keepout]] entry 2 has no radius".to_string()),
        Err("[[keepout]] entry 3 has no radius".to_string()),
    ]);
    assert_eq!(
        refused.unwrap_err(),
        "[[keepout]] entry 2 has no radius".to_string()
    );
}

#[test]
fn a_box_is_turned_exactly_where_it_has_a_turn() {
    let (min, max) = ([1.0, -2.0, 3.0], [4.0, 2.0, 9.0]);
    let plain = tessellate::box_mesh(min, max);
    for none in [[0.0; 3], [0.0, -0.0, 0.0]] {
        assert!(tessellate::is_unrotated(carried(none)));
        // Corners that nobody asks for are of no account.
        let mesh = tessellate::rotated_box_mesh(min, max, carried(none), [[7.0; 3]; 8]);
        assert_eq!(mesh.vertices, plain.vertices);
        assert_eq!(mesh.triangles, plain.triangles);
    }
    for turn in [[0.0, 0.0, 1.0], [f64::NAN, 0.0, 0.0], [360.0, 0.0, 0.0]] {
        assert!(!tessellate::is_unrotated(carried(turn)));
        let corners: [Point; 8] = std::array::from_fn(|mask| [mask as f64, 0.0, 0.0]);
        let mesh = tessellate::rotated_box_mesh(min, max, carried(turn), corners);
        let order: Vec<f64> = mesh.vertices.iter().map(|vertex| vertex[0]).collect();
        assert_eq!(order, vec![0.0, 1.0, 3.0, 2.0, 4.0, 5.0, 7.0, 6.0]);
        assert_eq!(mesh.triangles, plain.triangles);
    }
    // A turn that leaves every corner where it is makes the same box.
    let same = turned_corners(min, max, [0.0; 3]);
    let mesh = tessellate::rotated_box_mesh(min, max, carried([360.0, 0.0, 0.0]), same);
    assert_eq!(mesh.vertices, plain.vertices);
}

#[test]
fn an_ellipsoid_has_the_unit_spheres_triangles_or_none() {
    let sphere = tessellate::sphere(scalar(1.0), 8, 5);
    let stretched = tessellate::ellipsoid(carried([3.0, 0.5, 2.0]), 8, 5);
    assert_eq!(stretched.triangles, sphere.triangles);
    assert_eq!(stretched.vertices.len(), 4 * 8 + 2);
    assert_eq!(stretched.triangles.len(), 2 * 8 * 4);
    for (radii, segments, rings) in [
        ([0.0, 1.0, 1.0], 8, 5),
        ([1.0, -1.0, 1.0], 8, 5),
        ([1.0; 3], 2, 5),
        ([1.0; 3], 8, 1),
    ] {
        assert!(tessellate::ellipsoid(carried(radii), segments, rings).is_empty());
    }
}
