//! Procedural indicators put together from cylinders and arrowheads: the arrow
//! of a force, the arc of a torque, a dimension line.

use vstd::prelude::*;

use crate::constants::{
    VIEW_ARC_TUBE_SEGMENTS, VIEW_CYLINDER_SEGMENTS, VIEW_EDIT_ROTATE_ARC_SEGMENTS,
    VIEW_TORQUE_ARC_SEGMENTS,
};
use crate::mesh::{appended, closed, in_range, law_appending_keeps_meshes_closed, raised, Mesh};
use crate::scalar::Scalar;
use crate::tessellate::{append, cone, cylinder, SweptPoint};
use crate::tessellate::{
    cone_drawn, cone_points, cone_triangles, cylinder_drawn, cylinder_points, cylinder_triangles,
    law_a_cylinder_is_closed, law_an_arrowhead_is_closed, not_positive,
};

verus! {

/// A vertex of an indicator: which of its pieces it is on, and where there.
#[derive(Clone, Copy, Debug, PartialEq, Eq, Structural)]
pub struct PiecePoint {
    /// Number of the piece, in the order the pieces are put together.
    pub piece: usize,
    /// The vertex of that piece.
    pub point: SweptPoint,
}

/// The vertices and the triangles of a mesh.
pub type MeshView<P> = (Seq<P>, Seq<[u32; 3]>);

/// A cylinder's vertices and triangles, none where nothing is drawn.
pub open spec fn cylinder_view(length: Scalar, radius: Scalar, segments: usize) -> MeshView<
    SweptPoint,
> {
    if cylinder_drawn(length, radius, segments) {
        (cylinder_points(segments as int), cylinder_triangles(segments as int, segments as int))
    } else {
        (seq![], seq![])
    }
}

/// An arrowhead's vertices and triangles, none where nothing is drawn.
pub open spec fn cone_view(
    height: Scalar,
    radius: Scalar,
    segments: usize,
    axis_length: Scalar,
) -> MeshView<SweptPoint> {
    if cone_drawn(height, radius, segments, axis_length) {
        (cone_points(segments as int), cone_triangles(segments as int, segments as int))
    } else {
        (seq![], seq![])
    }
}

/// A mesh with one more piece behind it.
pub open spec fn with_piece(
    whole: MeshView<PiecePoint>,
    piece: int,
    part: MeshView<SweptPoint>,
) -> MeshView<PiecePoint> {
    (
        whole.0 + part.0.map_values(
            |point: SweptPoint| PiecePoint { piece: piece as usize, point },
        ),
        appended(whole.1, part.1, whole.0.len() as int),
    )
}

/// Put one more piece behind a mesh.
fn append_piece(whole: &mut Mesh<PiecePoint>, piece: usize, part: &Mesh<SweptPoint>)
    requires
        old(whole).vertices@.len() <= u32::MAX,
        in_range(part.triangles@, u32::MAX - old(whole).vertices@.len() + 1),
    ensures
        (final(whole).vertices@, final(whole).triangles@) == with_piece(
            (old(whole).vertices@, old(whole).triangles@),
            piece as int,
            (part.vertices@, part.triangles@),
        ),
{
    let mut vertices: Vec<PiecePoint> = Vec::new();
    let mut v: usize = 0;
    while v < part.vertices.len()
        invariant
            v <= part.vertices@.len(),
            vertices@ == part.vertices@.take(v as int).map_values(
                |point: SweptPoint| PiecePoint { piece, point },
            ),
        decreases part.vertices@.len() - v,
    {
        vertices.push(PiecePoint { piece, point: part.vertices[v] });
        assert(vertices@ =~= part.vertices@.take(v + 1).map_values(
            |point: SweptPoint| PiecePoint { piece, point },
        ));
        v += 1;
    }
    assert(part.vertices@.take(v as int) =~= part.vertices@);
    let mut triangles: Vec<[u32; 3]> = Vec::new();
    let mut t: usize = 0;
    while t < part.triangles.len()
        invariant
            t <= part.triangles@.len(),
            triangles@ == part.triangles@.take(t as int),
        decreases part.triangles@.len() - t,
    {
        triangles.push(part.triangles[t]);
        assert(triangles@ =~= part.triangles@.take(t + 1));
        t += 1;
    }
    assert(part.triangles@.take(t as int) =~= part.triangles@);
    append(whole, &Mesh { vertices, triangles });
}

/// An indicator of which every piece is closed, or nothing.
pub open spec fn sound(view: MeshView<PiecePoint>) -> bool {
    closed(view.1) && in_range(view.1, view.0.len() as int)
}

/// Putting a cylinder behind a closed indicator leaves it closed.
proof fn lemma_cylinder_piece(
    whole: MeshView<PiecePoint>,
    piece: int,
    length: Scalar,
    radius: Scalar,
    segments: usize,
)
    requires
        sound(whole),
        whole.0.len() + 2 * segments + 2 <= u32::MAX,
    ensures
        sound(with_piece(whole, piece, cylinder_view(length, radius, segments))),
        in_range(
            cylinder_view(length, radius, segments).1,
            u32::MAX - whole.0.len() + 1,
        ),
        with_piece(whole, piece, cylinder_view(length, radius, segments)).0.len()
            <= whole.0.len() + 2 * segments + 2,
{
    let part = cylinder_view(length, radius, segments);
    if cylinder_drawn(length, radius, segments) {
        law_a_cylinder_is_closed(segments as int);
    }
    lemma_piece(whole, piece, part);
}

/// Putting an arrowhead behind a closed indicator leaves it closed.
proof fn lemma_cone_piece(
    whole: MeshView<PiecePoint>,
    piece: int,
    height: Scalar,
    radius: Scalar,
    segments: usize,
    axis_length: Scalar,
)
    requires
        sound(whole),
        whole.0.len() + segments + 2 <= u32::MAX,
    ensures
        sound(with_piece(whole, piece, cone_view(height, radius, segments, axis_length))),
        in_range(
            cone_view(height, radius, segments, axis_length).1,
            u32::MAX - whole.0.len() + 1,
        ),
        with_piece(whole, piece, cone_view(height, radius, segments, axis_length)).0.len()
            <= whole.0.len() + segments + 2,
{
    let part = cone_view(height, radius, segments, axis_length);
    if cone_drawn(height, radius, segments, axis_length) {
        law_an_arrowhead_is_closed(segments as int);
    }
    lemma_piece(whole, piece, part);
}

proof fn lemma_piece(whole: MeshView<PiecePoint>, piece: int, part: MeshView<SweptPoint>)
    requires
        sound(whole),
        closed(part.1),
        in_range(part.1, part.0.len() as int),
        whole.0.len() + part.0.len() <= u32::MAX,
    ensures
        sound(with_piece(whole, piece, part)),
{
    let n = whole.0.len() as int;
    let both = with_piece(whole, piece, part);
    law_appending_keeps_meshes_closed(whole.1, n, part.1);
    assert forall|t: int|
        #![trigger both.1[t]]
        0 <= t < both.1.len() implies both.1[t][0] < both.0.len() && both.1[t][1] < both.0.len()
        && both.1[t][2] < both.0.len() by {
        if t < whole.1.len() {
            assert(both.1[t] == whole.1[t]);
        } else {
            assert(both.1[t] == raised(part.1[t - whole.1.len()], n));
        }
    }
}

/// The measures of an arrow's two pieces.
#[derive(Clone, Copy, Debug)]
pub struct ArrowSizes {
    /// From the tail to where the head begins.
    pub shaft_length: Scalar,
    /// Radius of the shaft.
    pub shaft_radius: Scalar,
    /// Length of the head.
    pub head_length: Scalar,
    /// Radius of the head's base.
    pub head_radius: Scalar,
    /// Length of the axis the head is built along.
    pub axis_length: Scalar,
}

/// The arrow: a shaft, and a head on it.
pub open spec fn arrow_view(length: Scalar, direction_length: Scalar, sizes: ArrowSizes) -> MeshView<
    PiecePoint,
> {
    if not_positive(length) || not_positive(direction_length) {
        (seq![], seq![])
    } else {
        with_piece(
            with_piece(
                (seq![], seq![]),
                0,
                cylinder_view(sizes.shaft_length, sizes.shaft_radius, VIEW_CYLINDER_SEGMENTS),
            ),
            1,
            cone_view(
                sizes.head_length,
                sizes.head_radius,
                VIEW_CYLINDER_SEGMENTS,
                sizes.axis_length,
            ),
        )
    }
}

/// Arrow of a total length along a direction. Piece zero is the shaft, piece one
/// the head.
pub fn arrow(length: Scalar, direction_length: Scalar, sizes: ArrowSizes) -> (mesh: Mesh<
    PiecePoint,
>)
    ensures
        (mesh.vertices@, mesh.triangles@) == arrow_view(length, direction_length, sizes),
        sound((mesh.vertices@, mesh.triangles@)),
{
    let mut mesh: Mesh<PiecePoint> = Mesh::empty();
    let ghost start = (mesh.vertices@, mesh.triangles@);
    assert(start == (Seq::<PiecePoint>::empty(), Seq::<[u32; 3]>::empty()));
    let zero = Scalar { bits: 0 };
    if length.le(zero) || direction_length.le(zero) {
        return mesh;
    }
    proof {
        lemma_cylinder_piece(
            start,
            0,
            sizes.shaft_length,
            sizes.shaft_radius,
            VIEW_CYLINDER_SEGMENTS,
        );
    }
    let shaft = cylinder(sizes.shaft_length, sizes.shaft_radius, VIEW_CYLINDER_SEGMENTS);
    append_piece(&mut mesh, 0, &shaft);
    let ghost shafted = (mesh.vertices@, mesh.triangles@);
    proof {
        assert((shaft.vertices@, shaft.triangles@) == cylinder_view(
            sizes.shaft_length,
            sizes.shaft_radius,
            VIEW_CYLINDER_SEGMENTS,
        ));
        lemma_cone_piece(
            shafted,
            1,
            sizes.head_length,
            sizes.head_radius,
            VIEW_CYLINDER_SEGMENTS,
            sizes.axis_length,
        );
    }
    let head = cone(
        sizes.head_length,
        sizes.head_radius,
        VIEW_CYLINDER_SEGMENTS,
        sizes.axis_length,
    );
    append_piece(&mut mesh, 1, &head);
    assert((head.vertices@, head.triangles@) == cone_view(
        sizes.head_length,
        sizes.head_radius,
        VIEW_CYLINDER_SEGMENTS,
        sizes.axis_length,
    ));
    mesh
}

/// The measures of an arc arrow's pieces.
#[derive(Clone, Copy, Debug)]
pub struct ArcSizes {
    /// Radius of the tube the arc is drawn as.
    pub tube_radius: Scalar,
    /// Length of the head.
    pub head_length: Scalar,
    /// Radius of the head's base.
    pub head_radius: Scalar,
    /// Length of the axis the head is built along.
    pub axis_length: Scalar,
}

/// True when an arc has anything to draw.
pub open spec fn arc_drawn(
    radius: Scalar,
    sweep: Scalar,
    segments: usize,
    axis_length: Scalar,
) -> bool {
    !not_positive(radius) && !sweep.equals(Scalar { bits: 0 }) && segments >= 2 && !not_positive(
        axis_length,
    )
}

/// The first straight tubes of an arc, end to end.
pub open spec fn arc_tubes(lengths: Seq<Scalar>, radius: Scalar, pieces: int) -> MeshView<
    PiecePoint,
>
    decreases pieces,
{
    if pieces <= 0 {
        (seq![], seq![])
    } else {
        with_piece(
            arc_tubes(lengths, radius, pieces - 1),
            pieces - 1,
            cylinder_view(lengths[pieces - 1], radius, VIEW_ARC_TUBE_SEGMENTS),
        )
    }
}

/// The arc arrow: its tubes, and a head at the end of the last.
pub open spec fn arc_view(lengths: Seq<Scalar>, sizes: ArcSizes, segments: int) -> MeshView<
    PiecePoint,
> {
    with_piece(
        arc_tubes(lengths, sizes.tube_radius, segments),
        segments,
        cone_view(
            sizes.head_length,
            sizes.head_radius,
            VIEW_CYLINDER_SEGMENTS,
            sizes.axis_length,
        ),
    )
}

/// A circular arc arrow: short tubes along the arc and a cone at its end.
///
/// `lengths` are the lengths of the straight pieces, in order along the sweep.
fn arc(
    radius: Scalar,
    sweep: Scalar,
    axis_length: Scalar,
    lengths: &Vec<Scalar>,
    sizes: ArcSizes,
    segments: usize,
) -> (mesh: Mesh<PiecePoint>)
    requires
        arc_drawn(radius, sweep, segments, axis_length) ==> lengths@.len() >= segments,
        segments <= 0x100_0000,
    ensures
        (mesh.vertices@, mesh.triangles@) == (if arc_drawn(radius, sweep, segments, axis_length) {
            arc_view(lengths@, sizes, segments as int)
        } else {
            (seq![], seq![])
        }),
        sound((mesh.vertices@, mesh.triangles@)),
{
    let zero = Scalar { bits: 0 };
    let mut mesh: Mesh<PiecePoint> = Mesh::empty();
    assert((mesh.vertices@, mesh.triangles@) == (
        Seq::<PiecePoint>::empty(),
        Seq::<[u32; 3]>::empty(),
    ));
    if radius.le(zero) || sweep.same(zero) || segments < 2 || axis_length.le(zero) {
        return mesh;
    }
    let mut s: usize = 0;
    while s < segments
        invariant
            s <= segments,
            segments <= 0x100_0000,
            lengths@.len() >= segments,
            (mesh.vertices@, mesh.triangles@) == arc_tubes(
                lengths@,
                sizes.tube_radius,
                s as int,
            ),
            sound((mesh.vertices@, mesh.triangles@)),
            mesh.vertices@.len() <= 64 * s,
        decreases segments - s,
    {
        let ghost whole = (mesh.vertices@, mesh.triangles@);
        proof {
            lemma_cylinder_piece(
                whole,
                s as int,
                lengths@[s as int],
                sizes.tube_radius,
                VIEW_ARC_TUBE_SEGMENTS,
            );
        }
        let piece = cylinder(lengths[s], sizes.tube_radius, VIEW_ARC_TUBE_SEGMENTS);
        append_piece(&mut mesh, s, &piece);
        assert((piece.vertices@, piece.triangles@) == cylinder_view(
            lengths@[s as int],
            sizes.tube_radius,
            VIEW_ARC_TUBE_SEGMENTS,
        ));
        s += 1;
    }
    let ghost whole = (mesh.vertices@, mesh.triangles@);
    proof {
        lemma_cone_piece(
            whole,
            segments as int,
            sizes.head_length,
            sizes.head_radius,
            VIEW_CYLINDER_SEGMENTS,
            sizes.axis_length,
        );
    }
    let head = cone(
        sizes.head_length,
        sizes.head_radius,
        VIEW_CYLINDER_SEGMENTS,
        sizes.axis_length,
    );
    append_piece(&mut mesh, segments, &head);
    assert((head.vertices@, head.triangles@) == cone_view(
        sizes.head_length,
        sizes.head_radius,
        VIEW_CYLINDER_SEGMENTS,
        sizes.axis_length,
    ));
    mesh
}

/// Circular arc arrow about a torque's axis. A torque of nothing has none.
pub fn torque_arc(
    radius: Scalar,
    sense: Scalar,
    sweep: Scalar,
    axis_length: Scalar,
    lengths: &Vec<Scalar>,
    sizes: ArcSizes,
) -> (mesh: Mesh<PiecePoint>)
    requires
        lengths@.len() >= VIEW_TORQUE_ARC_SEGMENTS,
    ensures
        (mesh.vertices@, mesh.triangles@) == (if !sense.equals(Scalar { bits: 0 }) && arc_drawn(
            radius,
            sweep,
            VIEW_TORQUE_ARC_SEGMENTS,
            axis_length,
        ) {
            arc_view(lengths@, sizes, VIEW_TORQUE_ARC_SEGMENTS as int)
        } else {
            (seq![], seq![])
        }),
        sound((mesh.vertices@, mesh.triangles@)),
{
    let segments: usize = if sense.same(Scalar { bits: 0 }) {
        0
    } else {
        VIEW_TORQUE_ARC_SEGMENTS
    };
    arc(radius, sweep, axis_length, lengths, sizes, segments)
}

/// A curved arrow for the editor's rotation handles: the same construction as a
/// torque arc, sized by its caller.
pub fn arc_arrow(
    radius: Scalar,
    sweep: Scalar,
    axis_length: Scalar,
    lengths: &Vec<Scalar>,
    sizes: ArcSizes,
) -> (mesh: Mesh<PiecePoint>)
    requires
        lengths@.len() >= VIEW_EDIT_ROTATE_ARC_SEGMENTS,
    ensures
        (mesh.vertices@, mesh.triangles@) == (if arc_drawn(
            radius,
            sweep,
            VIEW_EDIT_ROTATE_ARC_SEGMENTS,
            axis_length,
        ) {
            arc_view(lengths@, sizes, VIEW_EDIT_ROTATE_ARC_SEGMENTS as int)
        } else {
            (seq![], seq![])
        }),
        sound((mesh.vertices@, mesh.triangles@)),
{
    arc(radius, sweep, axis_length, lengths, sizes, VIEW_EDIT_ROTATE_ARC_SEGMENTS)
}

/// True when a dimension line has anything to draw: its ends are far enough
/// apart for both heads.
pub open spec fn dimension_line_drawn(
    span: Scalar,
    shortest: Scalar,
    tube_radius: Scalar,
    head_radius: Scalar,
) -> bool {
    !span.at_most(shortest) && !not_positive(tube_radius) && !not_positive(head_radius)
}

/// The dimension line: a thin tube, and a head at each end.
pub open spec fn dimension_line_view(span: Scalar, sizes: ArcSizes) -> MeshView<PiecePoint> {
    let head = cone_view(
        sizes.head_length,
        sizes.head_radius,
        VIEW_CYLINDER_SEGMENTS,
        sizes.axis_length,
    );
    with_piece(
        with_piece(
            with_piece(
                (seq![], seq![]),
                0,
                cylinder_view(span, sizes.tube_radius, VIEW_ARC_TUBE_SEGMENTS),
            ),
            1,
            head,
        ),
        2,
        head,
    )
}

/// A dimension line: a thin tube with an arrow head at each end, which is how a
/// measurement reads as one rather than as a strut.
///
/// Comes back empty when the two ends are too close for the heads to fit, so a
/// drag that has not moved yet draws nothing instead of a blob.
pub fn dimension_line(span: Scalar, shortest: Scalar, sizes: ArcSizes) -> (mesh: Mesh<PiecePoint>)
    ensures
        (mesh.vertices@, mesh.triangles@) == (if dimension_line_drawn(
            span,
            shortest,
            sizes.tube_radius,
            sizes.head_radius,
        ) {
            dimension_line_view(span, sizes)
        } else {
            (seq![], seq![])
        }),
        sound((mesh.vertices@, mesh.triangles@)),
{
    let zero = Scalar { bits: 0 };
    let mut mesh: Mesh<PiecePoint> = Mesh::empty();
    let ghost start = (mesh.vertices@, mesh.triangles@);
    assert(start == (Seq::<PiecePoint>::empty(), Seq::<[u32; 3]>::empty()));
    if span.le(shortest) || sizes.tube_radius.le(zero) || sizes.head_radius.le(zero) {
        return mesh;
    }
    proof {
        lemma_cylinder_piece(start, 0, span, sizes.tube_radius, VIEW_ARC_TUBE_SEGMENTS);
    }
    let line = cylinder(span, sizes.tube_radius, VIEW_ARC_TUBE_SEGMENTS);
    append_piece(&mut mesh, 0, &line);
    let ghost lined = (mesh.vertices@, mesh.triangles@);
    assert((line.vertices@, line.triangles@) == cylinder_view(
        span,
        sizes.tube_radius,
        VIEW_ARC_TUBE_SEGMENTS,
    ));
    let head = cone(
        sizes.head_length,
        sizes.head_radius,
        VIEW_CYLINDER_SEGMENTS,
        sizes.axis_length,
    );
    assert((head.vertices@, head.triangles@) == cone_view(
        sizes.head_length,
        sizes.head_radius,
        VIEW_CYLINDER_SEGMENTS,
        sizes.axis_length,
    ));
    proof {
        lemma_cone_piece(
            lined,
            1,
            sizes.head_length,
            sizes.head_radius,
            VIEW_CYLINDER_SEGMENTS,
            sizes.axis_length,
        );
    }
    append_piece(&mut mesh, 1, &head);
    let ghost headed = (mesh.vertices@, mesh.triangles@);
    proof {
        lemma_cone_piece(
            headed,
            2,
            sizes.head_length,
            sizes.head_radius,
            VIEW_CYLINDER_SEGMENTS,
            sizes.axis_length,
        );
    }
    append_piece(&mut mesh, 2, &head);
    mesh
}

} // verus!
