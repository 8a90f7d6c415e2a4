//! The layers of a scene, how they are shaded, and how a setup is put together.

use growforge::config::{
    Config, LoadCase, LoadSpec, MaterialConfig, OptimizationConfig, OutputConfig, ProjectConfig,
    ResolutionConfig, ShapeSpec,
};
use growforge::constants::{
    VIEW_CYLINDER_SEGMENTS, VIEW_DEFAULT_FLAT_SHADING, VIEW_MAX_SUPPORT_MARKERS,
    VIEW_STRESS_ALPHA_BITS,
};
use growforge::mesh::Mesh;
use growforge::scalar::Scalar;
use growforge::scene::{layers, Aabb, Layer, LayerMesh, LayerRole, Scene, SwitchHome};
use growforge::setup::{
    build, constrained_nodes, entry_name, load_indicators, marker_stride, shading_of,
    support_markers, IndicatorKind, ShadedOverlay,
};
use growforge::shading::{
    crease_normals, meeting, ramp_anchors, ramp_fraction, stress_shaded, Measures, NormalOf,
    ShadedCorner, Shading,
};
use growforge::tessellate::{box_mesh, cylinder, SweptPoint};

type Point = [f64; 3];

/// A drawn vertex.
#[derive(Clone, Copy, Debug, PartialEq)]
struct Vertex {
    position: [f32; 3],
    normal: [f32; 3],
    color: [f32; 4],
}

const CREASE_ANGLE_DEGREES: f64 = 40.0;

fn s(value: f64) -> Scalar {
    Scalar {
        bits: value.to_bits(),
    }
}

fn v(scalar: Scalar) -> f64 {
    f64::from_bits(scalar.bits)
}

fn difference(a: Point, b: Point) -> Point {
    [a[0] - b[0], a[1] - b[1], a[2] - b[2]]
}

fn sum(a: Point, b: Point) -> Point {
    [a[0] + b[0], a[1] + b[1], a[2] + b[2]]
}

fn scale(a: Point, by: f64) -> Point {
    a.map(|c| c * by)
}

fn inner(a: Point, b: Point) -> f64 {
    a[0] * b[0] + a[1] * b[1] + a[2] * b[2]
}

fn cross(a: Point, b: Point) -> Point {
    [
        a[1] * b[2] - a[2] * b[1],
        a[2] * b[0] - a[0] * b[2],
        a[0] * b[1] - a[1] * b[0],
    ]
}

fn length(a: Point) -> f64 {
    inner(a, a).sqrt()
}

fn unit(a: Point) -> Point {
    let len = length(a);
    if len > 0.0 {
        scale(a, 1.0 / len)
    } else {
        a
    }
}

/// The normals a mesh can be shaded with.
struct Normals {
    faces: Vec<Point>,
    vertices: Vec<Point>,
    corners: Vec<Point>,
}

fn face_vector(mesh: &Mesh<Point>, triangle: [u32; 3]) -> Point {
    let [a, b, c] = triangle.map(|i| mesh.vertices[i as usize]);
    cross(difference(b, a), difference(c, a))
}

fn normals(mesh: &Mesh<Point>) -> Normals {
    let raw: Vec<Point> = mesh
        .triangles
        .iter()
        .map(|t| face_vector(mesh, *t))
        .collect();
    let faces: Vec<Point> = raw
        .iter()
        .map(|n| if length(*n) > 0.0 { unit(*n) } else { [0.0; 3] })
        .collect();
    let mut vertices = vec![[0.0; 3]; mesh.vertices.len()];
    for (triangle, n) in mesh.triangles.iter().zip(&raw) {
        if n.iter().all(|c| c.is_finite()) {
            for corner in triangle {
                vertices[*corner as usize] = sum(vertices[*corner as usize], *n);
            }
        }
    }
    let adjacency = meeting(&mesh.triangles, mesh.vertices.len());
    let alignments: Vec<Vec<Scalar>> = mesh
        .triangles
        .iter()
        .enumerate()
        .flat_map(|(t, triangle)| triangle.map(|corner| (t, corner)))
        .map(|(t, corner)| {
            adjacency[corner as usize]
                .iter()
                .map(|other| s(inner(faces[*other as usize], faces[t])))
                .collect()
        })
        .collect();
    let weights: Vec<Scalar> = raw.iter().map(|n| s(length(*n))).collect();
    let lists = crease_normals(
        &mesh.triangles,
        mesh.vertices.len(),
        &weights,
        &alignments,
        s(CREASE_ANGLE_DEGREES.to_radians().cos()),
    );
    let corners = lists
        .iter()
        .map(|list| {
            unit(
                list.iter()
                    .fold([0.0; 3], |total, other| sum(total, raw[*other as usize])),
            )
        })
        .collect();
    Normals {
        faces,
        vertices: vertices.into_iter().map(unit).collect(),
        corners,
    }
}

fn shaded(mesh: &Mesh<Point>, shading: Shading) -> LayerMesh<ShadedCorner> {
    let found = normals(mesh);
    let source = Mesh {
        vertices: mesh.vertices.iter().map(|p| p.map(s)).collect(),
        triangles: mesh.triangles.clone(),
    };
    let measures = Measures {
        areas: mesh
            .triangles
            .iter()
            .map(|t| s(length(face_vector(mesh, *t))))
            .collect(),
        smooth: found.vertices.iter().map(|n| s(length(*n))).collect(),
        creased: found.corners.iter().map(|n| s(length(*n))).collect(),
    };
    LayerMesh::from_mesh(&source, shading, &measures)
}

fn drawn_normal(mesh: &Mesh<Point>, layer: &LayerMesh<ShadedCorner>, triangle: usize) -> Point {
    let corners: Vec<Point> = layer.vertices[3 * triangle..3 * triangle + 3]
        .iter()
        .map(|c| mesh.vertices[c.vertex].map(|x| f64::from(x as f32)))
        .collect();
    unit(cross(
        difference(corners[1], corners[0]),
        difference(corners[2], corners[0]),
    ))
}

fn resolved(
    mesh: &Mesh<Point>,
    layer: &LayerMesh<ShadedCorner>,
    color_of: impl Fn(usize) -> [f32; 4],
) -> LayerMesh<Vertex> {
    let found = normals(mesh);
    LayerMesh {
        vertices: layer
            .vertices
            .iter()
            .map(|corner| {
                let normal = match corner.normal {
                    NormalOf::Face { triangle } => found.faces[triangle],
                    NormalOf::Vertex { vertex } => found.vertices[vertex],
                    NormalOf::Corner { triangle, slot } => found.corners[3 * triangle + slot],
                    NormalOf::Drawn { triangle } => drawn_normal(mesh, layer, triangle),
                };
                Vertex {
                    position: mesh.vertices[corner.vertex].map(|x| x as f32),
                    normal: normal.map(|x| x as f32),
                    color: color_of(corner.vertex),
                }
            })
            .collect(),
        bounds: layer.bounds,
    }
}

fn from_mesh(mesh: &Mesh<Point>, color: [f32; 4], shading: Shading) -> LayerMesh<Vertex> {
    resolved(mesh, &shaded(mesh, shading), |_| color)
}

fn block(edge: f64) -> Mesh<Point> {
    box_mesh([0.0; 3], [edge; 3])
}

fn part() -> LayerMesh<Vertex> {
    from_mesh(&block(1.0), [0.5; 4], Shading::Smooth)
}

fn barrel(radius: f64, height: f64, segments: usize) -> Mesh<Point> {
    let mesh = cylinder(s(height), s(radius), segments);
    Mesh {
        vertices: mesh
            .vertices
            .iter()
            .map(|at| match *at {
                SweptPoint::Rim { ring, s } => {
                    let angle = std::f64::consts::TAU * s as f64 / segments as f64;
                    [
                        radius * angle.cos(),
                        radius * angle.sin(),
                        height * ring as f64,
                    ]
                }
                SweptPoint::Hub { ring } => [0.0, 0.0, height * ring as f64],
            })
            .collect(),
        triangles: mesh.triangles,
    }
}

#[test]
fn every_layer_has_exactly_one_table_entry() {
    let order = layers();
    for layer in &order {
        assert_eq!(
            layer.slot(),
            order.iter().position(|other| other == layer).unwrap()
        );
        assert_eq!(layer.info().layer, *layer);
    }
    let mut slots: Vec<usize> = order.iter().map(|layer| layer.slot()).collect();
    slots.sort_unstable();
    slots.dedup();
    assert_eq!(slots.len(), order.len());
}

#[test]
fn every_layer_says_what_it_draws() {
    for layer in layers() {
        let info = layer.info();
        assert!(
            !info.help.trim().is_empty(),
            "{} has no hover text",
            info.label
        );
        assert_ne!(
            info.help, info.label,
            "{} only repeats its label",
            info.label
        );
    }
}

#[test]
fn visibility_defaults_to_on_and_toggles_per_layer() {
    let mut scene: Scene<Vertex> = Scene::default();
    for layer in layers() {
        assert!(scene.is_visible(layer));
    }
    *scene.visibility_mut(Layer::Keepout) = false;
    assert!(!scene.is_visible(Layer::Keepout));
    assert!(scene.is_visible(Layer::Keepin));
}

#[test]
fn showing_nothing_but_the_part_hides_every_other_layer_and_gives_them_all_back() {
    let mut scene = Scene::default();
    scene.set(Layer::Density, Some(part()));
    // A state worth restoring: not every layer is on to begin with.
    *scene.visibility_mut(Layer::Keepout) = false;
    *scene.visibility_mut(Layer::Gizmo) = false;
    let before: Vec<bool> = layers().iter().map(|l| scene.is_visible(*l)).collect();

    *scene.isolate_part_mut() = true;
    assert!(scene.isolate_part());
    for layer in layers() {
        assert_eq!(
            scene.is_visible(layer),
            layer == Layer::Density,
            "the {} layer is drawn wrongly while the part is shown on its own",
            layer.info().label
        );
    }

    *scene.isolate_part_mut() = false;
    assert!(!scene.isolate_part());
    for (layer, was) in layers().into_iter().zip(before) {
        assert_eq!(
            scene.is_visible(layer),
            was,
            "the {} layer did not come back as it was",
            layer.info().label
        );
    }
}

#[test]
fn the_part_going_away_takes_the_switch_with_it() {
    for empty in [
        Scene::clear_density as fn(&mut Scene<Vertex>),
        |scene: &mut Scene<Vertex>| scene.set(Layer::Density, None),
    ] {
        let mut scene = Scene::default();
        scene.set(Layer::Density, Some(part()));
        *scene.isolate_part_mut() = true;
        assert!(scene.isolate_part());

        empty(&mut scene);
        assert!(
            !*scene.isolate_part_mut(),
            "the flag behind the checkbox stayed set behind a part that is gone"
        );
        assert!(!scene.isolate_part());
        for layer in layers() {
            assert!(
                scene.is_visible(layer),
                "the {} layer stayed hidden behind a part that is gone",
                layer.info().label
            );
        }
        // And it stays clear when a part comes back: the next preview must not
        // re-isolate a window nobody asked to.
        scene.set(Layer::Density, Some(part()));
        assert!(!scene.isolate_part(), "a new part brought the mode back");
        assert!(scene.is_visible(Layer::Domain));
    }
}

#[test]
fn a_switch_homed_elsewhere_belongs_to_an_editor_layer() {
    for layer in layers()
        .into_iter()
        .filter(|layer| layer.info().switch == SwitchHome::Elsewhere)
    {
        assert_eq!(
            layer.info().role,
            LayerRole::Editor,
            "the {} switch is drawn outside the show block, which only the editor has",
            layer.info().label
        );
    }
}

fn degenerate() -> Mesh<Point> {
    Mesh {
        vertices: vec![
            [0.0, 0.0, 0.0],
            [1.0, 0.0, 0.0],
            [0.0, 1.0, 0.0],
            [f64::NAN, 0.0, 0.0],
        ],
        triangles: vec![[0, 1, 2], [0, 1, 1], [0, 1, 3]],
    }
}

#[test]
fn flat_shading_drops_degenerate_and_non_finite_triangles() {
    let mut mesh = degenerate();
    let layer = from_mesh(&mesh, [1.0; 4], Shading::Flat);
    assert_eq!(layer.triangles(), 1);
    let normal = layer.vertices[0].normal;
    assert!((normal[2].abs() - 1.0).abs() < 1e-6);
    mesh.triangles.clear();
    assert!(from_mesh(&mesh, [1.0; 4], Shading::Flat).is_empty());
}

#[test]
fn smooth_shading_survives_the_same_degenerate_geometry() {
    // The smooth path drops exactly what the flat one drops, and a vertex whose
    // only neighbours were dropped keeps a usable normal instead of a zero vector
    // the shader would divide by.
    let mesh = degenerate();
    let flat = from_mesh(&mesh, [1.0; 4], Shading::Flat);
    let smooth = from_mesh(&mesh, [1.0; 4], Shading::Smooth);
    assert_eq!(smooth.triangles(), flat.triangles());
    for vertex in &smooth.vertices {
        let n = vertex.normal;
        let length = (n[0] * n[0] + n[1] * n[1] + n[2] * n[2]).sqrt();
        assert!((length - 1.0).abs() < 1e-5, "normal {n:?} is not a unit");
    }
}

#[test]
fn smooth_shading_averages_the_faces_at_a_corner_and_flat_shading_restores_them() {
    let mesh = block(2.0);
    let flat = from_mesh(&mesh, [1.0; 4], Shading::Flat);
    let named = shaded(&mesh, Shading::Smooth);
    let smooth = resolved(&mesh, &named, |_| [1.0; 4]);

    // Smoothing changes no geometry at all: same vertices, same order, same
    // positions, same colours. Only the normals move.
    assert_eq!(smooth.vertices.len(), flat.vertices.len());
    assert_eq!(smooth.triangles(), flat.triangles());
    for (a, b) in smooth.vertices.iter().zip(flat.vertices.iter()) {
        assert_eq!(a.position, b.position);
        assert_eq!(a.color, b.color);
    }
    // A flat normal is axis aligned; a corner's smooth normal blends the three
    // faces meeting there, so every component is real and points out of the
    // octant that corner sits in.
    for vertex in &smooth.vertices {
        let n = vertex.normal;
        let length = (n[0] * n[0] + n[1] * n[1] + n[2] * n[2]).sqrt();
        assert!((length - 1.0).abs() < 1e-5, "normal {n:?} is not a unit");
        for d in 0..3 {
            let outward = if vertex.position[d] > 1.0 { 1.0 } else { -1.0 };
            assert!(
                n[d] * outward > 0.2,
                "corner {:?} got {n:?}, which does not lean out on axis {d}",
                vertex.position
            );
        }
    }
    assert!(
        smooth
            .vertices
            .iter()
            .zip(flat.vertices.iter())
            .any(|(a, b)| a.normal != b.normal),
        "smooth shading left every normal on its facet"
    );
    // And the flat switch recovers the face normals from the positions the layer
    // already carries, without going back to the source mesh.
    let lengths = vec![s(4.0); named.triangles()];
    let facetted = named.flat_shaded(&lengths);
    let restored = resolved(&mesh, &facetted, |_| [1.0; 4]);
    assert_eq!(restored.vertices.len(), flat.vertices.len());
    assert_eq!(restored.bounds.min.map(v), flat.bounds.min.map(v));
    for (a, b) in restored.vertices.iter().zip(flat.vertices.iter()) {
        assert_eq!(a.position, b.position);
        assert_eq!(a.color, b.color);
        for d in 0..3 {
            assert!(
                (a.normal[d] - b.normal[d]).abs() < 1e-5,
                "restored {:?} against {:?}",
                a.normal,
                b.normal
            );
        }
    }
    // A triangle too thin to give a normal keeps the ones it had.
    let mut thin = lengths;
    thin[1] = s(0.0);
    let partly = named.flat_shaded(&thin);
    assert_eq!(partly.vertices[3..6], named.vertices[3..6]);
    assert_ne!(partly.vertices[0..3], named.vertices[0..3]);
}

#[test]
fn rounded_shading_smooths_a_barrel_and_keeps_every_real_edge() {
    // A box has nothing but right angles, so it comes out exactly as flat as the
    // flat shading makes it.
    let cube = block(2.0);
    let flat = from_mesh(&cube, [1.0; 4], Shading::Flat);
    let rounded = from_mesh(&cube, [1.0; 4], Shading::Rounded);
    assert_eq!(rounded.vertices.len(), flat.vertices.len());
    for (a, b) in rounded.vertices.iter().zip(flat.vertices.iter()) {
        assert_eq!(a.position, b.position);
        for d in 0..3 {
            assert!(
                (a.normal[d] - b.normal[d]).abs() < 1e-6,
                "a box corner was rounded: {:?} against {:?}",
                a.normal,
                b.normal
            );
        }
    }

    // A cylinder is the case this exists for: its barrel is round and its rim is
    // not.
    let cylinder = barrel(3.0, 10.0, 48);
    let layer = from_mesh(&cylinder, [1.0; 4], Shading::Rounded);
    let mut sides = 0;
    let mut caps = 0;
    for vertex in &layer.vertices {
        let n = vertex.normal;
        let len = (n[0] * n[0] + n[1] * n[1] + n[2] * n[2]).sqrt();
        assert!((len - 1.0).abs() < 1e-5, "normal {n:?} is not a unit");
        let position = vertex.position;
        let radial = (position[0] * position[0] + position[1] * position[1]).sqrt();
        if radial > 2.9 && n[2].abs() < 0.01 {
            // On the barrel: the normal points straight out of the axis, which is
            // what a smooth cylinder looks like.
            let dot = (n[0] * position[0] + n[1] * position[1]) / radial.max(1e-9);
            assert!(dot > 0.999, "a barrel normal leans off the radius: {n:?}");
            sides += 1;
        } else if n[2].abs() > 0.999 {
            // On a cap: the normal is the cap's own, undisturbed by the barrel
            // meeting it at the rim.
            caps += 1;
        }
    }
    assert!(sides > 0 && caps > 0, "{sides} barrel, {caps} cap normals");
    // The rim vertices are shared between the barrel and the caps, so a plain
    // smooth shading would tilt every one of them; this is what says the crease
    // rule did something a full averaging would not.
    let smooth = from_mesh(&cylinder, [1.0; 4], Shading::Smooth);
    assert!(
        smooth
            .vertices
            .iter()
            .zip(layer.vertices.iter())
            .any(|(a, b)| a.normal != b.normal),
        "the crease rule made no difference to a cylinder"
    );
    // And every facet of the barrel really is shallow enough to smooth, which is
    // what the crease angle is chosen against.
    let facet = 360.0 / VIEW_CYLINDER_SEGMENTS as f64;
    assert!(
        facet < CREASE_ANGLE_DEGREES,
        "a {facet} degree facet is not smoothed by a {CREASE_ANGLE_DEGREES} degree crease angle"
    );
}

#[test]
fn the_triangles_meeting_at_a_vertex_are_listed_in_order() {
    let triangles = vec![[0, 1, 2], [2, 1, 3], [2, 2, 0]];
    assert_eq!(
        meeting(&triangles, 5),
        vec![vec![0, 2], vec![0, 1], vec![0, 1, 2, 2], vec![1], vec![]]
    );
}

#[test]
fn the_scene_starts_smooth_and_the_panel_can_switch_it_flat() {
    let mut scene: Scene<Vertex> = Scene::default();
    assert_eq!(scene.flat_shading(), VIEW_DEFAULT_FLAT_SHADING);
    assert!(!scene.flat_shading(), "the density surface starts smooth");
    *scene.flat_shading_mut() = true;
    assert!(scene.flat_shading());
    // The toggle is independent of the stress colouring: both apply to the same
    // geometry and neither replaces it.
    assert!(!scene.stress_shading());
}

const RAMP: [[f32; 3]; 3] = [[0.1, 0.2, 0.9], [0.2, 0.8, 0.3], [0.9, 0.1, 0.1]];

fn stress_color(fraction: f64) -> [f32; 4] {
    let position = v(ramp_fraction(s(fraction))) * (RAMP.len() - 1) as f64;
    let (lower, upper) = ramp_anchors(position.floor() as usize, RAMP.len());
    let t = (position - lower as f64) as f32;
    let mut color = [0.0, 0.0, 0.0, f32::from_bits(VIEW_STRESS_ALPHA_BITS)];
    for d in 0..3 {
        color[d] = RAMP[lower][d] + t * (RAMP[upper][d] - RAMP[lower][d]);
    }
    color
}

#[test]
fn the_stress_ramp_runs_cold_to_hot_and_clamps() {
    let cold = stress_color(0.0);
    let hot = stress_color(1.0);
    for d in 0..3 {
        assert!((cold[d] - RAMP[0][d]).abs() < 1e-6);
        assert!((hot[d] - RAMP[RAMP.len() - 1][d]).abs() < 1e-6);
    }
    assert_eq!(cold[3], f32::from_bits(VIEW_STRESS_ALPHA_BITS));
    assert_eq!(cold[3], 1.0);
    // Out of range and non-finite fractions stay inside the ramp.
    assert_eq!(stress_color(-5.0), cold);
    assert_eq!(stress_color(9.0), hot);
    assert_eq!(stress_color(f64::NAN), cold);
    assert_eq!(stress_color(f64::INFINITY), hot);
    assert_eq!(stress_color(f64::NEG_INFINITY), cold);
    // Hot is redder than cold, and every channel stays a legal colour.
    assert!(hot[0] > cold[0] && hot[2] < cold[2]);
    for fraction in [0.0, 0.13, 0.5, 0.77, 1.0] {
        for channel in stress_color(fraction) {
            assert!((0.0..=1.0).contains(&channel), "{fraction} left the gamut");
        }
    }
    assert_eq!(ramp_anchors(0, 5), (0, 1));
    assert_eq!(ramp_anchors(3, 5), (3, 4));
    assert_eq!(ramp_anchors(4, 5), (4, 4));
    assert_eq!(ramp_anchors(9, 1), (0, 0));
}

#[test]
fn stress_colouring_maps_the_field_onto_the_surface() {
    let mesh = block(10.0);
    // A gradient along x: one face unstressed, the opposite face at yield.
    let field = |p: Point| 5.0 * p[0];
    let reference = 50.0;
    assert!(stress_shaded(mesh.is_empty(), s(reference)));
    let colors: Vec<[f32; 4]> = mesh
        .vertices
        .iter()
        .map(|p| stress_color(field(*p) / reference))
        .collect();
    let layer = resolved(&mesh, &shaded(&mesh, Shading::Smooth), |vertex| {
        colors[vertex]
    });
    assert_eq!(layer.triangles(), mesh.triangles.len());
    let cold = stress_color(0.0);
    let hot = stress_color(1.0);
    for vertex in &layer.vertices {
        let expected = if vertex.position[0] < 5.0 { cold } else { hot };
        assert_eq!(vertex.color, expected, "at {:?}", vertex.position);
    }

    // Nothing to normalize against, or nothing to colour, means no layer.
    assert!(!stress_shaded(false, s(0.0)));
    assert!(!stress_shaded(true, s(50.0)));
    assert!(!stress_shaded(false, s(f64::NAN)));
}

#[test]
fn the_scene_defaults_to_plain_shading_and_switches_on_request() {
    let mut scene = Scene::default();
    let plain = part();
    let (triangles, color) = (plain.triangles(), plain.vertices[0].color);
    scene.set(Layer::Density, Some(plain));

    // With no stress geometry the toggle has nothing to switch to.
    assert!(!scene.has_stress());
    assert!(!scene.stress_shading());
    *scene.stress_shading_mut() = true;
    assert!(!scene.stress_shading(), "a toggle with no stress layer");
    assert_eq!(
        scene.density_geometry().map(|m| m.triangles()),
        Some(triangles)
    );

    // Once a run supplies one, plain is still the default until asked.
    *scene.stress_shading_mut() = false;
    let coloured = from_mesh(&block(2.0), [1.0, 0.0, 0.0, 1.0], Shading::Smooth);
    scene.set_stress(Some(coloured));
    assert!(scene.has_stress());
    assert!(!scene.stress_shading(), "plain must stay the default");
    assert_eq!(scene.density_geometry().unwrap().vertices[0].color, color);

    *scene.stress_shading_mut() = true;
    assert!(scene.stress_shading());
    assert_eq!(
        scene.density_geometry().unwrap().vertices[0].color,
        [1.0, 0.0, 0.0, 1.0]
    );

    // Dropping the stress layer falls back to plain and clears the toggle.
    scene.set_stress(None);
    assert!(!scene.stress_shading());
    assert_eq!(scene.density_geometry().unwrap().vertices[0].color, color);
}

fn overlay(edge: f64, shading: Shading) -> ShadedOverlay<Vertex> {
    let mesh = block(edge);
    ShadedOverlay {
        is_empty: mesh.is_empty(),
        mesh: from_mesh(&mesh, [1.0; 4], shading),
    }
}

fn nothing() -> ShadedOverlay<Vertex> {
    ShadedOverlay {
        is_empty: true,
        mesh: LayerMesh {
            vertices: Vec::new(),
            bounds: Aabb::empty(),
        },
    }
}

#[test]
fn the_setup_scene_fills_every_configured_layer() {
    let scene = build(
        Ok(from_mesh(&block(32.0), [1.0; 4], Shading::Flat)),
        Ok(overlay(4.0, Shading::Rounded)),
        Ok(overlay(3.0, Shading::Rounded)),
        overlay(1.0, Shading::Rounded),
        |so_far: &Scene<Vertex>| {
            // The indicators are sized against what is there already.
            assert_eq!(so_far.bounds().max.map(v), [32.0; 3]);
            assert!(so_far.get(Layer::Loads).is_none());
            Ok(overlay(2.0, Shading::Rounded))
        },
    )
    .expect("scene");
    for layer in [
        Layer::Domain,
        Layer::Keepout,
        Layer::Keepin,
        Layer::Supports,
        Layer::Loads,
    ] {
        let mesh = scene
            .get(layer)
            .unwrap_or_else(|| panic!("{layer:?} has no geometry"));
        assert!(mesh.triangles() > 0, "{layer:?} is empty");
        assert!(mesh.vertices.iter().all(|v| {
            v.position
                .iter()
                .chain(v.normal.iter())
                .all(|value| value.is_finite())
        }));
    }
    // A setup view shows no density surface until a run produces one.
    assert!(scene.get(Layer::Density).is_none());
    assert!(v(scene.bounds().min[0]) <= v(scene.bounds().max[0]));
}

#[test]
fn a_setup_without_an_overlay_leaves_its_layer_empty() {
    let scene = build(
        Ok(from_mesh(&block(8.0), [1.0; 4], Shading::Flat)),
        Ok(nothing()),
        Ok(nothing()),
        nothing(),
        |_: &Scene<Vertex>| Ok(nothing()),
    )
    .expect("scene");
    for layer in layers() {
        assert_eq!(scene.get(layer).is_some(), layer == Layer::Domain);
    }
}

#[test]
fn the_first_overlay_that_cannot_be_made_is_the_answer() {
    let domain = || Ok(from_mesh(&block(8.0), [1.0; 4], Shading::Flat));
    let refused = |what: &str| Err::<ShadedOverlay<Vertex>, String>(what.to_string());
    let no_loads = |_: &Scene<Vertex>| -> Result<ShadedOverlay<Vertex>, String> {
        panic!("nothing is sized against a scene that cannot be built")
    };
    let ends = [
        build(
            Err("no surface".to_string()),
            refused("keepout"),
            refused("keepin"),
            nothing(),
            no_loads,
        )
        .unwrap_err(),
        build(
            domain(),
            refused("keepout"),
            refused("keepin"),
            nothing(),
            no_loads,
        )
        .unwrap_err(),
        build(
            domain(),
            Ok(nothing()),
            refused("keepin"),
            nothing(),
            no_loads,
        )
        .unwrap_err(),
        build(
            domain(),
            Ok(nothing()),
            Ok(nothing()),
            nothing(),
            |_: &Scene<Vertex>| refused("load"),
        )
        .unwrap_err(),
    ];
    assert_eq!(ends, ["no surface", "keepout", "keepin", "load"]);
}

#[test]
fn the_setup_overlays_round_their_shapes_and_leave_the_voxelization_alone() {
    assert_eq!(shading_of(Layer::Domain), Shading::Flat);
    assert_eq!(shading_of(Layer::Density), Shading::Smooth);
    for layer in [
        Layer::Keepout,
        Layer::Keepin,
        Layer::Supports,
        Layer::Loads,
    ] {
        assert_eq!(shading_of(layer), Shading::Rounded);
    }
    // The keepout is a cylinder: the facets meeting at a point on the barrel agree
    // about which way the surface faces there.
    let keepout = from_mesh(&barrel(3.0, 8.0, 32), [1.0; 4], shading_of(Layer::Keepout));
    let on_side: Vec<&Vertex> = keepout
        .vertices
        .iter()
        .filter(|vertex| vertex.normal[2].abs() <= 0.01)
        .collect();
    let mut shared = 0;
    for (index, vertex) in on_side.iter().enumerate() {
        for other in &on_side[index + 1..] {
            if vertex.position == other.position {
                shared += 1;
                for d in 0..3 {
                    assert!((vertex.normal[d] - other.normal[d]).abs() < 1e-6);
                }
            }
        }
    }
    assert!(shared > 0, "no barrel point is shared by two facets at all");
    // The domain keeps its facets: every triangle of it carries one normal.
    let domain = from_mesh(&barrel(3.0, 8.0, 32), [1.0; 4], shading_of(Layer::Domain));
    assert!(
        domain
            .vertices
            .chunks(3)
            .all(|t| t[0].normal == t[1].normal && t[1].normal == t[2].normal),
        "the voxelized domain was rounded"
    );
}

#[test]
fn support_markers_sit_only_on_constrained_active_nodes() {
    // A block of 9 x 9 x 9 nodes, clamped on the face where the first axis is
    // least, with a corner of that face touching no material.
    let n = 9;
    let mut active = vec![true; n * n * n];
    let mut fixed = vec![false; 3 * n * n * n];
    for node in (0..n * n * n).step_by(n) {
        for d in 0..3 {
            fixed[3 * node + d] = true;
        }
    }
    let markers = support_markers(&active, &fixed);
    // One marker per constrained node of the clamped face, 9 x 9 nodes.
    assert_eq!(markers.len(), 81);
    for node in &markers {
        assert_eq!(node % n, 0);
    }
    let cubes: usize = markers
        .iter()
        .map(|_| box_mesh([0.0; 3], [1.0; 3]).triangles.len())
        .sum();
    assert_eq!(cubes, 81 * 12);
    // A node pinned for conditioning alone is no support.
    active[0] = false;
    assert_eq!(constrained_nodes(&active, &fixed).len(), 80);
    // One direction held is a constraint.
    fixed[3 * 1 + 2] = true;
    assert!(constrained_nodes(&active, &fixed).contains(&1));
}

#[test]
fn there_are_never_more_markers_than_a_scene_draws() {
    assert_eq!(marker_stride(81, VIEW_MAX_SUPPORT_MARKERS), 1);
    assert_eq!(marker_stride(0, VIEW_MAX_SUPPORT_MARKERS), 1);
    assert_eq!(marker_stride(10, 4), 3);
    assert_eq!(marker_stride(8, 4), 2);
    assert_eq!(marker_stride(7, 0), 7);
    let count = 3 * VIEW_MAX_SUPPORT_MARKERS + 1;
    let markers = support_markers(&vec![true; count], &vec![true; 3 * count]);
    assert!(markers.len() <= VIEW_MAX_SUPPORT_MARKERS);
    assert_eq!(markers[0], 0);
    assert_eq!(markers[1] - markers[0], 4);
}

fn sphere() -> ShapeSpec {
    ShapeSpec::Sphere {
        center: [32.0, 8.0, 8.0].map(s),
        radius: s(4.0),
    }
}

fn config_with(loads: Vec<LoadSpec>) -> Config {
    Config {
        project: ProjectConfig {
            name: "setup".to_string(),
            engine: None,
        },
        engine: None,
        solver: None,
        resolution: ResolutionConfig {
            voxel_size_mm: Some(s(2.0)),
            target_cells: None,
        },
        material: MaterialConfig {
            preset: Some("pla".to_string()),
            youngs_modulus_mpa: None,
            poisson_ratio: None,
            density_g_cm3: None,
            yield_strength_mpa: None,
        },
        optimization: OptimizationConfig {
            mass_fraction: s(0.4),
            min_feature_mm: s(8.0),
            penalty: None,
            max_iterations: None,
            convergence_tol: None,
            update: None,
            overhang: None,
            wireframe: None,
            local_volume: None,
        },
        growth: None,
        output: OutputConfig {
            stl_path: "setup.stl".to_string(),
            iso_level: None,
            smoothing_iterations: None,
            supersample: None,
            voids: None,
            islands: None,
            boundaries: None,
            trim: None,
            trim_stress_fraction: None,
            reinforce: None,
            reinforce_thickness_mm: None,
            stress_json: None,
        },
        domain: Vec::new(),
        keepout: Vec::new(),
        keepin: Vec::new(),
        supports: Vec::new(),
        loadcases: vec![
            LoadCase {
                name: "tip".to_string(),
                weight: None,
                loads,
            },
            LoadCase {
                name: "twist".to_string(),
                weight: None,
                loads: vec![LoadSpec::Torque {
                    region: sphere(),
                    axis_point: [0.0; 3].map(s),
                    axis_dir: [0.0, 0.0, 1.0].map(s),
                    magnitude_nmm: s(5.0),
                }],
            },
        ],
    }
}

#[test]
fn gravity_gets_no_load_indicator() {
    let force = || LoadSpec::Force {
        region: sphere(),
        vector: [0.0, 0.0, -20.0].map(s),
    };
    let gravity = LoadSpec::Gravity {
        direction: None,
        g_mm_s2: Some(s(9810.0)),
    };
    let plain = load_indicators(&config_with(vec![force()]));
    let with_gravity = load_indicators(&config_with(vec![gravity, force()]));
    assert_eq!(
        with_gravity.len(),
        plain.len(),
        "self weight must not add an arrow"
    );
    assert_eq!(plain.len(), 2);
    assert_eq!(plain[0].kind, IndicatorKind::Arrow);
    assert_eq!(plain[0].what, "[[loadcases]] \"tip\" (entry 1), load 1");
    assert_eq!(
        with_gravity[0].what,
        "[[loadcases]] \"tip\" (entry 1), load 2"
    );
    assert_eq!(plain[1].kind, IndicatorKind::Arc);
    assert_eq!(plain[1].what, "[[loadcases]] \"twist\" (entry 2), load 1");
    assert_eq!((plain[1].case, plain[1].load), (1, 0));
}

#[test]
fn an_entry_is_named_from_one() {
    assert_eq!(entry_name("[[keepout]]", 0), "[[keepout]] entry 1");
    assert_eq!(entry_name("[[keepin]]", 11), "[[keepin]] entry 12");
}

#[test]
fn adopting_a_setup_leaves_the_part_and_the_switches_alone() {
    let mut scene = Scene::default();
    scene.set(Layer::Density, Some(part()));
    *scene.visibility_mut(Layer::Domain) = false;
    let mut other = Scene::default();
    other.set(
        Layer::Domain,
        Some(from_mesh(&block(4.0), [1.0; 4], Shading::Flat)),
    );
    other.set(
        Layer::Density,
        Some(from_mesh(&block(9.0), [1.0; 4], Shading::Flat)),
    );
    scene.adopt_setup(other);
    assert!(scene.get(Layer::Domain).is_some());
    assert!(!scene.is_visible(Layer::Domain));
    assert_eq!(
        scene.get(Layer::Density).unwrap().bounds.max.map(v),
        [1.0; 3]
    );
}

#[test]
fn switches_do_not_move_the_fit() {
    let mut scene = Scene::default();
    scene.set(
        Layer::Domain,
        Some(from_mesh(&block(4.0), [1.0; 4], Shading::Flat)),
    );
    scene.set(
        Layer::Gizmo,
        Some(from_mesh(&block(90.0), [1.0; 4], Shading::Flat)),
    );
    *scene.visibility_mut(Layer::Domain) = false;
    // The handles of the editor do not count, the hidden domain does.
    assert_eq!(scene.bounds().max.map(v), [4.0; 3]);
}

/// The bounds are the tightest block around the corners that are drawn, and a
/// triangle that is not drawn has no say in them.
#[test]
fn the_bounds_are_tight_around_what_is_drawn() {
    let mesh = Mesh {
        vertices: vec![
            [1.0, -2.0, 0.0],
            [4.0, 0.0, 3.0],
            [2.0, 5.0, -1.0],
            [900.0, 900.0, 900.0],
            [f64::NAN, 0.0, 0.0],
        ],
        triangles: vec![[0, 1, 4], [0, 1, 2], [3, 3, 3]],
    };
    for shading in [Shading::Flat, Shading::Smooth, Shading::Rounded] {
        let layer = shaded(&mesh, shading);
        let corners: Vec<usize> = layer.vertices.iter().map(|corner| corner.vertex).collect();
        assert_eq!(corners, vec![0, 1, 2]);
        assert_eq!(layer.bounds.min.map(v), [1.0, -2.0, -1.0]);
        assert_eq!(layer.bounds.max.map(v), [4.0, 5.0, 3.0]);
    }
}
