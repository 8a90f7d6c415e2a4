//! The objects of a configuration as the editor's panel shows them: the tree,
//! the fields of what is selected, and what each of them writes.

use vstd::prelude::*;
use vstd::string::*;

use crate::config::{
    list_of, Axis, Config, ConfigView, CsgOpSpec, DomainEntry, LoadCase, LoadCaseView, LoadSpec,
    ShapeSpec,
};
use crate::scalar::Scalar;
use crate::shapes::Vec3;
use crate::text::{decimal, decimal_of};

verus! {

/// One row of a shape's fields.
#[derive(Clone, Copy, Debug, PartialEq, Eq, Structural)]
pub enum ShapeRow {
    /// The low corner of a box.
    Min,
    /// The high corner of a box.
    Max,
    /// The first end of a line.
    P1,
    /// The second end of a line.
    P2,
    /// A centre.
    Center,
    /// The semi-axes of an ellipsoid.
    Radii,
    /// A radius.
    Radius,
    /// The radius of a cone at its first end.
    Radius1,
    /// The radius of a cone at its second end.
    Radius2,
    /// The turn of a shape, and whether the file carries one.
    Rotation,
    /// The point a tube curves through.
    Bend,
    /// The button that takes the bend away.
    Straighten,
    /// The first corner of a triangle.
    A,
    /// The second corner of a triangle.
    B,
    /// The third corner of a triangle.
    C,
    /// The thickness of a prism.
    Thickness,
}

/// The rows a shape offers, in order. A tube has a bend's rows only while it has
/// a bend.
pub open spec fn shape_rows_of(shape: ShapeSpec) -> Seq<ShapeRow> {
    match shape {
        ShapeSpec::Box { .. } => seq![ShapeRow::Min, ShapeRow::Max, ShapeRow::Rotation],
        ShapeSpec::Cylinder { .. } => seq![ShapeRow::P1, ShapeRow::P2, ShapeRow::Radius],
        ShapeSpec::Sphere { .. } => seq![ShapeRow::Center, ShapeRow::Radius],
        ShapeSpec::Ellipsoid { .. } => seq![
            ShapeRow::Center,
            ShapeRow::Radii,
            ShapeRow::Rotation,
        ],
        ShapeSpec::Tube { bend, .. } => if bend is Some {
            seq![
                ShapeRow::P1,
                ShapeRow::P2,
                ShapeRow::Bend,
                ShapeRow::Straighten,
                ShapeRow::Radius,
            ]
        } else {
            seq![ShapeRow::P1, ShapeRow::P2, ShapeRow::Radius]
        },
        ShapeSpec::Cone { .. } => seq![
            ShapeRow::P1,
            ShapeRow::P2,
            ShapeRow::Radius1,
            ShapeRow::Radius2,
        ],
        ShapeSpec::Triangle { .. } => seq![
            ShapeRow::A,
            ShapeRow::B,
            ShapeRow::C,
            ShapeRow::Thickness,
        ],
    }
}

/// The rows a shape offers.
pub fn shape_rows(shape: &ShapeSpec) -> (rows: Vec<ShapeRow>)
    ensures
        rows@ == shape_rows_of(*shape),
{
    let mut rows: Vec<ShapeRow> = Vec::new();
    match shape {
        ShapeSpec::Box { .. } => {
            rows.push(ShapeRow::Min);
            rows.push(ShapeRow::Max);
            rows.push(ShapeRow::Rotation);
        },
        ShapeSpec::Cylinder { .. } => {
            rows.push(ShapeRow::P1);
            rows.push(ShapeRow::P2);
            rows.push(ShapeRow::Radius);
        },
        ShapeSpec::Sphere { .. } => {
            rows.push(ShapeRow::Center);
            rows.push(ShapeRow::Radius);
        },
        ShapeSpec::Ellipsoid { .. } => {
            rows.push(ShapeRow::Center);
            rows.push(ShapeRow::Radii);
            rows.push(ShapeRow::Rotation);
        },
        ShapeSpec::Tube { bend, .. } => {
            rows.push(ShapeRow::P1);
            rows.push(ShapeRow::P2);
            // The bend rows exist only while there is a bend: a straight tube
            // carries no key, and the middle handle in the viewport is what
            // gives it one. Straightening takes it away again.
            if bend.is_some() {
                rows.push(ShapeRow::Bend);
                rows.push(ShapeRow::Straighten);
            }
            rows.push(ShapeRow::Radius);
        },
        ShapeSpec::Cone { .. } => {
            rows.push(ShapeRow::P1);
            rows.push(ShapeRow::P2);
            rows.push(ShapeRow::Radius1);
            rows.push(ShapeRow::Radius2);
        },
        ShapeSpec::Triangle { .. } => {
            rows.push(ShapeRow::A);
            rows.push(ShapeRow::B);
            rows.push(ShapeRow::C);
            rows.push(ShapeRow::Thickness);
        },
    }
    assert(rows@ =~= shape_rows_of(*shape));
    rows
}

/// What a row of a shape's fields writes.
#[derive(Clone, Copy, Debug)]
pub enum ShapeEdit {
    /// A point of the shape.
    Point(ShapeRow, Vec3),
    /// A length of the shape.
    Length(ShapeRow, Scalar),
    /// The shape's turn, or its key taken out.
    Rotation(Option<Vec3>),
    /// The bend taken away.
    Straighten,
}

/// A shape after one of its rows was used. A row it does not have writes
/// nothing.
pub open spec fn shape_edited(shape: ShapeSpec, edit: ShapeEdit) -> ShapeSpec {
    match shape {
        ShapeSpec::Box { min, max, rotation_deg } => match edit {
            ShapeEdit::Point(ShapeRow::Min, value) => ShapeSpec::Box {
                min: value,
                max,
                rotation_deg,
            },
            ShapeEdit::Point(ShapeRow::Max, value) => ShapeSpec::Box {
                min,
                max: value,
                rotation_deg,
            },
            ShapeEdit::Rotation(value) => ShapeSpec::Box { min, max, rotation_deg: value },
            _ => shape,
        },
        ShapeSpec::Cylinder { p1, p2, radius } => match edit {
            ShapeEdit::Point(ShapeRow::P1, value) => ShapeSpec::Cylinder { p1: value, p2, radius },
            ShapeEdit::Point(ShapeRow::P2, value) => ShapeSpec::Cylinder { p1, p2: value, radius },
            ShapeEdit::Length(ShapeRow::Radius, value) => ShapeSpec::Cylinder {
                p1,
                p2,
                radius: value,
            },
            _ => shape,
        },
        ShapeSpec::Sphere { center, radius } => match edit {
            ShapeEdit::Point(ShapeRow::Center, value) => ShapeSpec::Sphere {
                center: value,
                radius,
            },
            ShapeEdit::Length(ShapeRow::Radius, value) => ShapeSpec::Sphere {
                center,
                radius: value,
            },
            _ => shape,
        },
        ShapeSpec::Ellipsoid { center, radii, rotation_deg } => match edit {
            ShapeEdit::Point(ShapeRow::Center, value) => ShapeSpec::Ellipsoid {
                center: value,
                radii,
                rotation_deg,
            },
            ShapeEdit::Point(ShapeRow::Radii, value) => ShapeSpec::Ellipsoid {
                center,
                radii: value,
                rotation_deg,
            },
            ShapeEdit::Rotation(value) => ShapeSpec::Ellipsoid {
                center,
                radii,
                rotation_deg: value,
            },
            _ => shape,
        },
        ShapeSpec::Tube { p1, p2, bend, radius } => match edit {
            ShapeEdit::Point(ShapeRow::P1, value) => ShapeSpec::Tube {
                p1: value,
                p2,
                bend,
                radius,
            },
            ShapeEdit::Point(ShapeRow::P2, value) => ShapeSpec::Tube {
                p1,
                p2: value,
                bend,
                radius,
            },
            ShapeEdit::Point(ShapeRow::Bend, value) => ShapeSpec::Tube {
                p1,
                p2,
                bend: match bend {
                    Some(_) => Some(value),
                    None => None,
                },
                radius,
            },
            ShapeEdit::Straighten => ShapeSpec::Tube { p1, p2, bend: None, radius },
            ShapeEdit::Length(ShapeRow::Radius, value) => ShapeSpec::Tube {
                p1,
                p2,
                bend,
                radius: value,
            },
            _ => shape,
        },
        ShapeSpec::Cone { p1, p2, radius1, radius2 } => match edit {
            ShapeEdit::Point(ShapeRow::P1, value) => ShapeSpec::Cone {
                p1: value,
                p2,
                radius1,
                radius2,
            },
            ShapeEdit::Point(ShapeRow::P2, value) => ShapeSpec::Cone {
                p1,
                p2: value,
                radius1,
                radius2,
            },
            ShapeEdit::Length(ShapeRow::Radius1, value) => ShapeSpec::Cone {
                p1,
                p2,
                radius1: value,
                radius2,
            },
            ShapeEdit::Length(ShapeRow::Radius2, value) => ShapeSpec::Cone {
                p1,
                p2,
                radius1,
                radius2: value,
            },
            _ => shape,
        },
        ShapeSpec::Triangle { a, b, c, thickness } => match edit {
            ShapeEdit::Point(ShapeRow::A, value) => ShapeSpec::Triangle {
                a: value,
                b,
                c,
                thickness,
            },
            ShapeEdit::Point(ShapeRow::B, value) => ShapeSpec::Triangle {
                a,
                b: value,
                c,
                thickness,
            },
            ShapeEdit::Point(ShapeRow::C, value) => ShapeSpec::Triangle {
                a,
                b,
                c: value,
                thickness,
            },
            ShapeEdit::Length(ShapeRow::Thickness, value) => ShapeSpec::Triangle {
                a,
                b,
                c,
                thickness: value,
            },
            _ => shape,
        },
    }
}

/// Use a row of a shape's fields.
pub fn edit_shape(shape: ShapeSpec, edit: ShapeEdit) -> (after: ShapeSpec)
    ensures
        after == shape_edited(shape, edit),
{
    match shape {
        ShapeSpec::Box { min, max, rotation_deg } => match edit {
            ShapeEdit::Point(ShapeRow::Min, value) => ShapeSpec::Box {
                min: value,
                max,
                rotation_deg,
            },
            ShapeEdit::Point(ShapeRow::Max, value) => ShapeSpec::Box {
                min,
                max: value,
                rotation_deg,
            },
            ShapeEdit::Rotation(value) => ShapeSpec::Box { min, max, rotation_deg: value },
            _ => shape,
        },
        ShapeSpec::Cylinder { p1, p2, radius } => match edit {
            ShapeEdit::Point(ShapeRow::P1, value) => ShapeSpec::Cylinder { p1: value, p2, radius },
            ShapeEdit::Point(ShapeRow::P2, value) => ShapeSpec::Cylinder { p1, p2: value, radius },
            ShapeEdit::Length(ShapeRow::Radius, value) => ShapeSpec::Cylinder {
                p1,
                p2,
                radius: value,
            },
            _ => shape,
        },
        ShapeSpec::Sphere { center, radius } => match edit {
            ShapeEdit::Point(ShapeRow::Center, value) => ShapeSpec::Sphere {
                center: value,
                radius,
            },
            ShapeEdit::Length(ShapeRow::Radius, value) => ShapeSpec::Sphere {
                center,
                radius: value,
            },
            _ => shape,
        },
        ShapeSpec::Ellipsoid { center, radii, rotation_deg } => match edit {
            ShapeEdit::Point(ShapeRow::Center, value) => ShapeSpec::Ellipsoid {
                center: value,
                radii,
                rotation_deg,
            },
            ShapeEdit::Point(ShapeRow::Radii, value) => ShapeSpec::Ellipsoid {
                center,
                radii: value,
                rotation_deg,
            },
            ShapeEdit::Rotation(value) => ShapeSpec::Ellipsoid {
                center,
                radii,
                rotation_deg: value,
            },
            _ => shape,
        },
        ShapeSpec::Tube { p1, p2, bend, radius } => match edit {
            ShapeEdit::Point(ShapeRow::P1, value) => ShapeSpec::Tube {
                p1: value,
                p2,
                bend,
                radius,
            },
            ShapeEdit::Point(ShapeRow::P2, value) => ShapeSpec::Tube {
                p1,
                p2: value,
                bend,
                radius,
            },
            ShapeEdit::Point(ShapeRow::Bend, value) => ShapeSpec::Tube {
                p1,
                p2,
                bend: match bend {
                    Some(_) => Some(value),
                    None => None,
                },
                radius,
            },
            ShapeEdit::Straighten => ShapeSpec::Tube { p1, p2, bend: None, radius },
            ShapeEdit::Length(ShapeRow::Radius, value) => ShapeSpec::Tube {
                p1,
                p2,
                bend,
                radius: value,
            },
            _ => shape,
        },
        ShapeSpec::Cone { p1, p2, radius1, radius2 } => match edit {
            ShapeEdit::Point(ShapeRow::P1, value) => ShapeSpec::Cone {
                p1: value,
                p2,
                radius1,
                radius2,
            },
            ShapeEdit::Point(ShapeRow::P2, value) => ShapeSpec::Cone {
                p1,
                p2: value,
                radius1,
                radius2,
            },
            ShapeEdit::Length(ShapeRow::Radius1, value) => ShapeSpec::Cone {
                p1,
                p2,
                radius1: value,
                radius2,
            },
            ShapeEdit::Length(ShapeRow::Radius2, value) => ShapeSpec::Cone {
                p1,
                p2,
                radius1,
                radius2: value,
            },
            _ => shape,
        },
        ShapeSpec::Triangle { a, b, c, thickness } => match edit {
            ShapeEdit::Point(ShapeRow::A, value) => ShapeSpec::Triangle {
                a: value,
                b,
                c,
                thickness,
            },
            ShapeEdit::Point(ShapeRow::B, value) => ShapeSpec::Triangle {
                a,
                b: value,
                c,
                thickness,
            },
            ShapeEdit::Point(ShapeRow::C, value) => ShapeSpec::Triangle {
                a,
                b,
                c: value,
                thickness,
            },
            ShapeEdit::Length(ShapeRow::Thickness, value) => ShapeSpec::Triangle {
                a,
                b,
                c,
                thickness: value,
            },
            _ => shape,
        },
    }
}

/// Editing a shape never changes which kind of shape it is, and straightening a
/// tube takes its bend's rows away.
pub proof fn law_an_edited_shape_keeps_its_kind(shape: ShapeSpec, edit: ShapeEdit)
    ensures
        (shape is Box) == (shape_edited(shape, edit) is Box),
        (shape is Cylinder) == (shape_edited(shape, edit) is Cylinder),
        (shape is Sphere) == (shape_edited(shape, edit) is Sphere),
        (shape is Ellipsoid) == (shape_edited(shape, edit) is Ellipsoid),
        (shape is Tube) == (shape_edited(shape, edit) is Tube),
        (shape is Cone) == (shape_edited(shape, edit) is Cone),
        (shape is Triangle) == (shape_edited(shape, edit) is Triangle),
        shape is Tube ==> shape_rows_of(shape_edited(shape, ShapeEdit::Straighten)) == seq![
            ShapeRow::P1,
            ShapeRow::P2,
            ShapeRow::Radius,
        ],
{
}

/// The axis itself and no other.
pub open spec fn being(axis: Axis) -> spec_fn(Axis) -> bool {
    |a: Axis| a == axis
}

/// Every axis but one.
pub open spec fn other_than(axis: Axis) -> spec_fn(Axis) -> bool {
    |a: Axis| a != axis
}

/// The axes of a list put in order, as often as they are in it.
pub open spec fn axes_in_order(axes: Seq<Axis>) -> Seq<Axis> {
    axes.filter(being(Axis::X)) + axes.filter(being(Axis::Y)) + axes.filter(being(Axis::Z))
}

/// The axes a support holds: those its key lists, and all three where the key is
/// absent.
pub open spec fn held_axes(directions: Option<Seq<Axis>>) -> Seq<Axis> {
    match directions {
        Some(axes) => axes,
        None => seq![Axis::X, Axis::Y, Axis::Z],
    }
}

/// Whether a support holds an axis, which is whether its box is ticked.
pub fn holds(directions: &Option<Vec<Axis>>, axis: Axis) -> (answer: bool)
    ensures
        answer == held_axes(list_of(*directions)).contains(axis),
{
    match directions {
        None => {
            let ghost all = held_axes(list_of(*directions));
            assert(all[0] == Axis::X && all[1] == Axis::Y && all[2] == Axis::Z);
            true
        },
        Some(axes) => {
            let mut k: usize = 0;
            while k < axes.len()
                invariant
                    k <= axes@.len(),
                    held_axes(list_of(*directions)) == axes@,
                    forall|j: int| 0 <= j < k ==> #[trigger] axes@[j] != axis,
                decreases axes@.len() - k,
            {
                if axes[k] == axis {
                    assert(held_axes(list_of(*directions))[k as int] == axis);
                    return true;
                }
                k += 1;
            }
            false
        },
    }
}

/// A support's directions after one of its boxes was ticked or unticked. All
/// three axes is what an absent key means, so that is how it is written.
pub open spec fn directions_toggled(directions: Option<Seq<Axis>>, axis: Axis, on: bool) -> Option<
    Seq<Axis>,
> {
    let axes = if on {
        axes_in_order(held_axes(directions).push(axis))
    } else {
        held_axes(directions).filter(other_than(axis))
    };
    if axes.len() < 3 {
        Some(axes)
    } else {
        None
    }
}

/// The entries of a list that are one axis.
fn only(axes: &Vec<Axis>, axis: Axis) -> (kept: Vec<Axis>)
    ensures
        kept@ == axes@.filter(being(axis)),
{
    let ghost wanted = being(axis);
    let mut kept: Vec<Axis> = Vec::new();
    let mut k: usize = 0;
    assert(axes@.take(0).filter(wanted) =~= Seq::<Axis>::empty());
    while k < axes.len()
        invariant
            k <= axes@.len(),
            wanted == being(axis),
            kept@ == axes@.take(k as int).filter(wanted),
        decreases axes@.len() - k,
    {
        proof {
            assert(axes@.take(k + 1) =~= axes@.take(k as int).push(axes@[k as int]));
            axes@.take(k as int).lemma_filter_push(axes@[k as int], wanted);
        }
        if axes[k] == axis {
            kept.push(axes[k]);
        }
        k += 1;
    }
    assert(axes@.take(k as int) =~= axes@);
    kept
}

/// The entries of a list that are not one axis.
fn without(axes: &Vec<Axis>, axis: Axis) -> (kept: Vec<Axis>)
    ensures
        kept@ == axes@.filter(other_than(axis)),
{
    let ghost wanted = other_than(axis);
    let mut kept: Vec<Axis> = Vec::new();
    let mut k: usize = 0;
    assert(axes@.take(0).filter(wanted) =~= Seq::<Axis>::empty());
    while k < axes.len()
        invariant
            k <= axes@.len(),
            wanted == other_than(axis),
            kept@ == axes@.take(k as int).filter(wanted),
        decreases axes@.len() - k,
    {
        proof {
            assert(axes@.take(k + 1) =~= axes@.take(k as int).push(axes@[k as int]));
            axes@.take(k as int).lemma_filter_push(axes@[k as int], wanted);
        }
        if axes[k] != axis {
            kept.push(axes[k]);
        }
        k += 1;
    }
    assert(axes@.take(k as int) =~= axes@);
    kept
}

/// Tick or untick one of the boxes of a support's directions.
pub fn toggle_direction(directions: Option<Vec<Axis>>, axis: Axis, on: bool) -> (after: Option<
    Vec<Axis>,
>)
    ensures
        list_of(after) == directions_toggled(list_of(directions), axis, on),
{
    let mut axes: Vec<Axis> = match directions {
        Some(axes) => axes,
        None => {
            let mut all: Vec<Axis> = Vec::new();
            all.push(Axis::X);
            all.push(Axis::Y);
            all.push(Axis::Z);
            assert(all@ =~= seq![Axis::X, Axis::Y, Axis::Z]);
            all
        },
    };
    if on {
        axes.push(axis);
        let mut ordered = only(&axes, Axis::X);
        let mut second = only(&axes, Axis::Y);
        let mut third = only(&axes, Axis::Z);
        ordered.append(&mut second);
        ordered.append(&mut third);
        axes = ordered;
    } else {
        axes = without(&axes, axis);
    }
    // All three axes is what an absent key means, so that is how it is written
    // back: an editor should not add noise to a file.
    if axes.len() < 3 {
        Some(axes)
    } else {
        None
    }
}

/// Letting a fully fixed support slide along one axis and holding it again is
/// where it was: no key in the file.
pub proof fn law_ticking_an_axis_back_takes_the_key_out(axis: Axis)
    ensures
        directions_toggled(directions_toggled(None, axis, false), axis, true) is None,
        directions_toggled(None, axis, false) matches Some(axes) && axes.len() == 2
            && !axes.contains(axis),
{
    let all = seq![Axis::X, Axis::Y, Axis::Z];
    let other = other_than(axis);
    reveal(Seq::filter);
    reveal_with_fuel(Seq::filter, 5);
    assert(all.drop_last().drop_last().drop_last() =~= Seq::<Axis>::empty());
    assert(all.drop_last().drop_last() =~= seq![Axis::X]);
    assert(all.drop_last() =~= seq![Axis::X, Axis::Y]);
    let kept = all.filter(other);
    let (p, q) = if axis == Axis::X {
        (Axis::Y, Axis::Z)
    } else if axis == Axis::Y {
        (Axis::X, Axis::Z)
    } else {
        (Axis::X, Axis::Y)
    };
    assert(kept =~= seq![p, q]);
    let back = kept.push(axis);
    assert(back =~= seq![p, q, axis]);
    assert(back.drop_last() =~= seq![p, q]);
    assert(back.drop_last().drop_last() =~= seq![p]);
    assert(back.drop_last().drop_last().drop_last() =~= Seq::<Axis>::empty());
    assert(back.filter(being(Axis::X)) =~= seq![Axis::X]);
    assert(back.filter(being(Axis::Y)) =~= seq![Axis::Y]);
    assert(back.filter(being(Axis::Z)) =~= seq![Axis::Z]);
}

/// What a row of a load's fields writes.
#[derive(Clone, Copy, Debug)]
pub enum LoadEdit {
    /// The force of a force load.
    Vector(Vec3),
    /// A point of a torque's axis.
    AxisPoint(Vec3),
    /// The direction of a torque's axis.
    AxisDir(Vec3),
    /// The size of a torque.
    Magnitude(Scalar),
    /// Which way gravity pulls, or its key taken out.
    GravityDirection(Option<Vec3>),
    /// How hard gravity pulls, or its key taken out.
    Gravity(Option<Scalar>),
}

/// A load after one of its rows was used. A row of another kind of load writes
/// nothing, and none of them touches the region.
pub open spec fn load_edited(load: LoadSpec, edit: LoadEdit) -> LoadSpec {
    match load {
        LoadSpec::Force { region, vector } => match edit {
            LoadEdit::Vector(value) => LoadSpec::Force { region, vector: value },
            _ => load,
        },
        LoadSpec::Torque { region, axis_point, axis_dir, magnitude_nmm } => match edit {
            LoadEdit::AxisPoint(value) => LoadSpec::Torque {
                region,
                axis_point: value,
                axis_dir,
                magnitude_nmm,
            },
            LoadEdit::AxisDir(value) => LoadSpec::Torque {
                region,
                axis_point,
                axis_dir: value,
                magnitude_nmm,
            },
            LoadEdit::Magnitude(value) => LoadSpec::Torque {
                region,
                axis_point,
                axis_dir,
                magnitude_nmm: value,
            },
            _ => load,
        },
        LoadSpec::Gravity { direction, g_mm_s2 } => match edit {
            LoadEdit::GravityDirection(value) => LoadSpec::Gravity { direction: value, g_mm_s2 },
            LoadEdit::Gravity(value) => LoadSpec::Gravity { direction, g_mm_s2: value },
            _ => load,
        },
    }
}

/// Use a row of a load's fields.
pub fn edit_load(load: LoadSpec, edit: LoadEdit) -> (after: LoadSpec)
    ensures
        after == load_edited(load, edit),
{
    match load {
        LoadSpec::Force { region, vector: _ } => match edit {
            LoadEdit::Vector(value) => LoadSpec::Force { region, vector: value },
            _ => load,
        },
        LoadSpec::Torque { region, axis_point, axis_dir, magnitude_nmm } => match edit {
            LoadEdit::AxisPoint(value) => LoadSpec::Torque {
                region,
                axis_point: value,
                axis_dir,
                magnitude_nmm,
            },
            LoadEdit::AxisDir(value) => LoadSpec::Torque {
                region,
                axis_point,
                axis_dir: value,
                magnitude_nmm,
            },
            LoadEdit::Magnitude(value) => LoadSpec::Torque {
                region,
                axis_point,
                axis_dir,
                magnitude_nmm: value,
            },
            _ => load,
        },
        LoadSpec::Gravity { direction, g_mm_s2 } => match edit {
            LoadEdit::GravityDirection(value) => LoadSpec::Gravity { direction: value, g_mm_s2 },
            LoadEdit::Gravity(value) => LoadSpec::Gravity { direction, g_mm_s2: value },
            _ => load,
        },
    }
}

/// The kinds of shape an object can be added with.
#[derive(Clone, Copy, Debug, PartialEq, Eq, Structural)]
pub enum ShapeKind {
    /// A box.
    Box,
    /// A cylinder.
    Cylinder,
    /// A sphere.
    Sphere,
    /// An ellipsoid.
    Ellipsoid,
    /// A tube.
    Tube,
    /// A cone.
    Cone,
    /// A triangular prism.
    Triangle,
}

/// The kinds of load a load case can be given.
#[derive(Clone, Copy, Debug, PartialEq, Eq, Structural)]
pub enum LoadKind {
    /// A force.
    Force,
    /// A torque.
    Torque,
    /// Self weight.
    Gravity,
}

/// A list of shape objects in the tree.
#[derive(Clone, Copy, Debug, PartialEq, Eq, Structural)]
pub enum ObjectList {
    /// The design space.
    Domain,
    /// The regions that must stay empty.
    Keepout,
    /// The regions forced solid.
    Keepin,
    /// The supports.
    Supports,
}

/// What is selected.
#[derive(Clone, Copy, Debug, PartialEq, Eq, Structural)]
pub enum Selection {
    /// An entry of the design space.
    Domain(usize),
    /// A region that must stay empty.
    Keepout(usize),
    /// A region forced solid.
    Keepin(usize),
    /// A support.
    Support(usize),
    /// A load case.
    LoadCase(usize),
    /// A load of a load case.
    Load {
        /// Number of the load case.
        case: usize,
        /// Number of the load in it.
        load: usize,
    },
}

/// An object that is asked for.
#[derive(Clone, Copy, Debug, PartialEq, Eq, Structural)]
pub enum NewObject {
    /// An entry of the design space.
    Domain(ShapeKind, CsgOpSpec),
    /// A region that must stay empty.
    Keepout(ShapeKind),
    /// A region forced solid.
    Keepin(ShapeKind),
    /// A support.
    Support(ShapeKind),
    /// A load of a load case.
    Load(usize, LoadKind),
    /// A load case.
    LoadCase,
}

/// What a click on one of the tree's add buttons asks for.
#[derive(Clone, Copy, Debug, PartialEq, Eq, Structural)]
pub enum AddRequest {
    /// The object is dropped at its default.
    Add(NewObject),
    /// The object is drawn, by clicking its ends in the viewport.
    Place(NewObject),
}

/// The object a list's add button makes.
pub open spec fn new_object(list: ObjectList, kind: ShapeKind) -> NewObject {
    match list {
        ObjectList::Domain => NewObject::Domain(kind, CsgOpSpec::Add),
        ObjectList::Keepout => NewObject::Keepout(kind),
        ObjectList::Keepin => NewObject::Keepin(kind),
        ObjectList::Supports => NewObject::Support(kind),
    }
}

/// What a click on a list's add button asks for. A tube is drawn rather than
/// dropped: its two ends are clicked in the viewport.
pub fn add_request(list: ObjectList, kind: ShapeKind) -> (request: AddRequest)
    ensures
        request == (if kind == ShapeKind::Tube {
            AddRequest::Place(new_object(list, kind))
        } else {
            AddRequest::Add(new_object(list, kind))
        }),
        request is Place <==> kind == ShapeKind::Tube,
{
    let what = match list {
        ObjectList::Domain => NewObject::Domain(kind, CsgOpSpec::Add),
        ObjectList::Keepout => NewObject::Keepout(kind),
        ObjectList::Keepin => NewObject::Keepin(kind),
        ObjectList::Supports => NewObject::Support(kind),
    };
    match kind {
        ShapeKind::Tube => AddRequest::Place(what),
        _ => AddRequest::Add(what),
    }
}

/// The heading of a list: its name and how many entries it has.
pub fn list_heading(name: &str, count: usize) -> (heading: String)
    ensures
        heading@ == name@ + " ("@ + decimal_of(count as int) + ")"@,
{
    let mut heading = name.to_owned();
    heading.append(" (");
    heading.append(decimal(count as u64).as_str());
    heading.append(")");
    heading
}

/// The entries of a list of shape objects.
pub open spec fn list_entries(list: ObjectList, count: int) -> Seq<Selection> {
    Seq::new(
        count as nat,
        |index: int|
            match list {
                ObjectList::Domain => Selection::Domain(index as usize),
                ObjectList::Keepout => Selection::Keepout(index as usize),
                ObjectList::Keepin => Selection::Keepin(index as usize),
                ObjectList::Supports => Selection::Support(index as usize),
            },
    )
}

/// How many entries a list of shape objects has.
pub open spec fn listed(config: ConfigView, list: ObjectList) -> int {
    match list {
        ObjectList::Domain => config.domain.len() as int,
        ObjectList::Keepout => config.keepout.len() as int,
        ObjectList::Keepin => config.keepin.len() as int,
        ObjectList::Supports => config.supports.len() as int,
    }
}

/// The entries under one load case.
pub open spec fn loads_under(cases: Seq<LoadCaseView>, case: int) -> Seq<Selection> {
    Seq::new(
        cases[case].loads.len(),
        |load: int| Selection::Load { case: case as usize, load: load as usize },
    )
}

/// The entries of the first load cases: each case, and its loads under it.
pub open spec fn case_entries(cases: Seq<LoadCaseView>, count: int) -> Seq<Selection>
    decreases count,
{
    if count <= 0 {
        seq![]
    } else {
        let case = count - 1;
        case_entries(cases, count - 1) + seq![Selection::LoadCase(case as usize)] + loads_under(
            cases,
            case,
        )
    }
}

/// Every object of a configuration, in the order the tree lists them.
pub open spec fn tree_of(config: ConfigView) -> Seq<Selection> {
    list_entries(ObjectList::Domain, config.domain.len() as int) + list_entries(
        ObjectList::Keepout,
        config.keepout.len() as int,
    ) + list_entries(ObjectList::Keepin, config.keepin.len() as int) + list_entries(
        ObjectList::Supports,
        config.supports.len() as int,
    ) + case_entries(config.loadcases, config.loadcases.len() as int)
}

fn push_list(entries: &mut Vec<Selection>, list: ObjectList, count: usize)
    ensures
        final(entries)@ == old(entries)@ + list_entries(list, count as int),
{
    let ghost before = entries@;
    let mut index: usize = 0;
    assert(entries@ =~= before + list_entries(list, 0));
    while index < count
        invariant
            index <= count,
            entries@ == before + list_entries(list, index as int),
        decreases count - index,
    {
        entries.push(
            match list {
                ObjectList::Domain => Selection::Domain(index),
                ObjectList::Keepout => Selection::Keepout(index),
                ObjectList::Keepin => Selection::Keepin(index),
                ObjectList::Supports => Selection::Support(index),
            },
        );
        assert(entries@ =~= before + list_entries(list, index + 1));
        index += 1;
    }
}

/// The entries of one of the lists of shape objects, in order.
pub fn entries_of(config: &Config, list: ObjectList) -> (entries: Vec<Selection>)
    ensures
        entries@ == list_entries(list, listed(config@, list)),
{
    let count: usize = match list {
        ObjectList::Domain => config.domain.len(),
        ObjectList::Keepout => config.keepout.len(),
        ObjectList::Keepin => config.keepin.len(),
        ObjectList::Supports => config.supports.len(),
    };
    let mut entries: Vec<Selection> = Vec::new();
    push_list(&mut entries, list, count);
    assert(entries@ =~= list_entries(list, count as int));
    entries
}

/// The entries under one load case: its loads, in order.
pub fn load_entries(config: &Config, case: usize) -> (entries: Vec<Selection>)
    ensures
        entries@ == (if case < config@.loadcases.len() {
            loads_under(config@.loadcases, case as int)
        } else {
            seq![]
        }),
{
    let mut entries: Vec<Selection> = Vec::new();
    if case < config.loadcases.len() {
        let mut load: usize = 0;
        let ghost all = loads_under(config@.loadcases, case as int);
        assert(config@.loadcases[case as int].loads == config.loadcases@[case as int].loads@);
        assert(entries@ =~= all.take(0));
        while load < config.loadcases[case].loads.len()
            invariant
                case < config.loadcases@.len(),
                load <= config.loadcases@[case as int].loads@.len(),
                all == loads_under(config@.loadcases, case as int),
                all.len() == config.loadcases@[case as int].loads@.len(),
                entries@ == all.take(load as int),
            decreases config.loadcases@[case as int].loads@.len() - load,
        {
            entries.push(Selection::Load { case, load });
            assert(entries@ =~= all.take(load + 1));
            load += 1;
        }
        assert(all.take(load as int) =~= all);
    }
    entries
}

/// Every object of a configuration, in the order the tree lists them.
pub fn object_tree(config: &Config) -> (entries: Vec<Selection>)
    ensures
        entries@ == tree_of(config@),
{
    let mut entries: Vec<Selection> = Vec::new();
    push_list(&mut entries, ObjectList::Domain, config.domain.len());
    push_list(&mut entries, ObjectList::Keepout, config.keepout.len());
    push_list(&mut entries, ObjectList::Keepin, config.keepin.len());
    push_list(&mut entries, ObjectList::Supports, config.supports.len());
    let ghost lists = entries@;
    let mut case: usize = 0;
    assert(entries@ =~= lists + case_entries(config@.loadcases, 0));
    while case < config.loadcases.len()
        invariant
            case <= config.loadcases@.len(),
            entries@ == lists + case_entries(config@.loadcases, case as int),
        decreases config.loadcases@.len() - case,
    {
        let ghost before = entries@;
        entries.push(Selection::LoadCase(case));
        let mut load: usize = 0;
        let ghost headed = entries@;
        assert(config@.loadcases[case as int].loads == config.loadcases@[case as int].loads@);
        assert(entries@ =~= headed + Seq::new(
            0,
            |load: int| Selection::Load { case, load: load as usize },
        ));
        while load < config.loadcases[case].loads.len()
            invariant
                case < config.loadcases@.len(),
                load <= config.loadcases@[case as int].loads@.len(),
                entries@ == headed + Seq::new(
                    load as nat,
                    |load: int| Selection::Load { case, load: load as usize },
                ),
            decreases config.loadcases@[case as int].loads@.len() - load,
        {
            entries.push(Selection::Load { case, load });
            assert(entries@ =~= headed + Seq::new(
                (load + 1) as nat,
                |load: int| Selection::Load { case, load: load as usize },
            ));
            load += 1;
        }
        assert(entries@ =~= lists + case_entries(config@.loadcases, case + 1));
        case += 1;
    }
    assert(entries@ =~= tree_of(config@));
    entries
}

} // verus!
