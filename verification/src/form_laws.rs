//! What a row of a form writes is read back from its own entry, and nothing else moves;
//! and a row is offered exactly where there is an entry for it.

use vstd::prelude::*;

use crate::config::{
    Axis, BuildDirection, ConfigView, CsgOpSpec, GrowthView, LoadCaseView, LoadSpec, MaterialView,
    OptimizationConfig, OutputView, ReinforcePolicy, ResolutionConfig, ShapeSpec, SolverBackend,
    SolverConfig, SymmetryKind, SymmetryView, TrimPolicy,
};
use crate::forms::{
    backend_of, engine_chosen, engine_named, first_plane, growth_edited, growth_rows_of,
    material_edited, material_rows_of, mirror_about, optimization_edited, optimization_rows_of,
    order_clamped, output_edited, output_rows_of, planes_written, preset_named, property_row,
    reinforces, resolution_edited, second_plane, solver_with_backend, solver_with_tolerance,
    symmetry_edited, symmetry_legal, symmetry_rows_of, trims, GrowthEdit, GrowthRow, MaterialEdit,
    MaterialPreset, MaterialProperty, MaterialRow, OptimizationEdit, OptimizationRow, OutputEdit,
    OutputRow, ResolutionEdit, SymmetryEdit,
};
use crate::objects::{
    axes_in_order, being, case_entries, directions_toggled, held_axes, list_entries, listed,
    load_edited, loads_under, new_object, other_than, shape_edited, shape_rows_of, tree_of,
    LoadEdit, NewObject, ObjectList, Selection, ShapeEdit, ShapeKind, ShapeRow,
};
use crate::scalar::Scalar;
use crate::shapes::Vec3;

verus! {

/// What a row of a load writes is read back: a force from its vector, a torque from the
/// point, the direction or the magnitude of its axis, gravity from its direction or its
/// strength. The region and every other entry stay, and a row of another kind of load
/// writes nothing.
pub proof fn law_a_load_row_is_read_back(load: LoadSpec, edit: LoadEdit)
    ensures
        ({
            let after = load_edited(load, edit);
            match load {
                LoadSpec::Force { region, vector } => {
                    &&& after is Force
                    &&& after->Force_region == region
                    &&& edit matches LoadEdit::Vector(value) ==> after->vector == value
                    &&& !(edit is Vector) ==> after->vector == vector
                },
                LoadSpec::Torque { region, axis_point, axis_dir, magnitude_nmm } => {
                    &&& after is Torque
                    &&& after->Torque_region == region
                    &&& edit matches LoadEdit::AxisPoint(value) ==> after->axis_point == value
                    &&& !(edit is AxisPoint) ==> after->axis_point == axis_point
                    &&& edit matches LoadEdit::AxisDir(value) ==> after->axis_dir == value
                    &&& !(edit is AxisDir) ==> after->axis_dir == axis_dir
                    &&& edit matches LoadEdit::Magnitude(value) ==> after->magnitude_nmm == value
                    &&& !(edit is Magnitude) ==> after->magnitude_nmm == magnitude_nmm
                },
                LoadSpec::Gravity { direction, g_mm_s2 } => {
                    &&& after is Gravity
                    &&& edit matches LoadEdit::GravityDirection(value) ==> after->direction == value
                    &&& !(edit is GravityDirection) ==> after->direction == direction
                    &&& edit matches LoadEdit::Gravity(value) ==> after->g_mm_s2 == value
                    &&& !(edit is Gravity) ==> after->g_mm_s2 == g_mm_s2
                },
            }
        }),
{
}

/// What a row of a shape writes is read back from the entry it is the row of, and every
/// other entry stays. A bend can be moved and straightened away, but a straight line is
/// not bent by the row.
pub proof fn law_a_shape_row_is_read_back(
    shape: ShapeSpec,
    edit: ShapeEdit,
    row: ShapeRow,
    point: Vec3,
    length: Scalar,
    turn: Option<Vec3>,
)
    ensures
        ({
            let moved = shape_edited(shape, ShapeEdit::Point(row, point));
            let sized = shape_edited(shape, ShapeEdit::Length(row, length));
            let turned = shape_edited(shape, ShapeEdit::Rotation(turn));
            let straight = shape_edited(shape, ShapeEdit::Straighten);
            match shape {
                ShapeSpec::Box { min, max, rotation_deg } => {
                    &&& moved is Box && turned is Box
                    &&& moved->Box_min == (if row == ShapeRow::Min { point } else { min })
                    &&& moved->Box_max == (if row == ShapeRow::Max { point } else { max })
                    &&& moved->Box_rotation_deg == rotation_deg
                    &&& turned->Box_rotation_deg == turn
                    &&& turned->Box_min == min && turned->Box_max == max
                    &&& sized == shape && straight == shape
                },
                ShapeSpec::Cylinder { p1, p2, radius } => {
                    &&& moved is Cylinder && sized is Cylinder
                    &&& moved->Cylinder_p1 == (if row == ShapeRow::P1 { point } else { p1 })
                    &&& moved->Cylinder_p2 == (if row == ShapeRow::P2 { point } else { p2 })
                    &&& moved->Cylinder_radius == radius
                    &&& sized->Cylinder_radius == (if row == ShapeRow::Radius { length } else { radius })
                    &&& sized->Cylinder_p1 == p1 && sized->Cylinder_p2 == p2
                    &&& turned == shape && straight == shape
                },
                ShapeSpec::Sphere { center, radius } => {
                    &&& moved is Sphere && sized is Sphere
                    &&& moved->Sphere_center == (if row == ShapeRow::Center { point } else { center })
                    &&& moved->Sphere_radius == radius
                    &&& sized->Sphere_radius == (if row == ShapeRow::Radius { length } else { radius })
                    &&& sized->Sphere_center == center
                    &&& turned == shape && straight == shape
                },
                ShapeSpec::Ellipsoid { center, radii, rotation_deg } => {
                    &&& moved is Ellipsoid && turned is Ellipsoid
                    &&& moved->Ellipsoid_center == (if row == ShapeRow::Center {
                        point
                    } else {
                        center
                    })
                    &&& moved->radii == (if row == ShapeRow::Radii { point } else { radii })
                    &&& moved->Ellipsoid_rotation_deg == rotation_deg
                    &&& turned->Ellipsoid_rotation_deg == turn
                    &&& turned->Ellipsoid_center == center && turned->radii == radii
                    &&& sized == shape && straight == shape
                },
                ShapeSpec::Tube { p1, p2, bend, radius } => {
                    &&& moved is Tube && sized is Tube && straight is Tube
                    &&& moved->Tube_p1 == (if row == ShapeRow::P1 { point } else { p1 })
                    &&& moved->Tube_p2 == (if row == ShapeRow::P2 { point } else { p2 })
                    &&& moved->bend is Some <==> bend is Some
                    &&& bend is Some && row == ShapeRow::Bend ==> moved->bend->0 == point
                    &&& row != ShapeRow::Bend ==> moved->bend == bend
                    &&& moved->Tube_radius == radius
                    &&& sized->Tube_radius == (if row == ShapeRow::Radius { length } else { radius })
                    &&& sized->Tube_p1 == p1 && sized->Tube_p2 == p2 && sized->bend == bend
                    &&& straight->bend is None
                    &&& straight->Tube_p1 == p1 && straight->Tube_p2 == p2
                    &&& straight->Tube_radius == radius
                    &&& turned == shape
                },
                ShapeSpec::Cone { p1, p2, radius1, radius2 } => {
                    &&& moved is Cone && sized is Cone
                    &&& moved->Cone_p1 == (if row == ShapeRow::P1 { point } else { p1 })
                    &&& moved->Cone_p2 == (if row == ShapeRow::P2 { point } else { p2 })
                    &&& moved->radius1 == radius1 && moved->radius2 == radius2
                    &&& sized->radius1 == (if row == ShapeRow::Radius1 { length } else { radius1 })
                    &&& sized->radius2 == (if row == ShapeRow::Radius2 { length } else { radius2 })
                    &&& sized->Cone_p1 == p1 && sized->Cone_p2 == p2
                    &&& turned == shape && straight == shape
                },
                ShapeSpec::Triangle { a, b, c, thickness } => {
                    &&& moved is Triangle && sized is Triangle
                    &&& moved->a == (if row == ShapeRow::A { point } else { a })
                    &&& moved->b == (if row == ShapeRow::B { point } else { b })
                    &&& moved->c == (if row == ShapeRow::C { point } else { c })
                    &&& moved->thickness == thickness
                    &&& sized->thickness == (if row == ShapeRow::Thickness {
                        length
                    } else {
                        thickness
                    })
                    &&& sized->a == a && sized->b == b && sized->c == c
                    &&& turned == shape && straight == shape
                },
            }
        }),
{
}

/// A shape offers a row exactly where it has the entry: a turn where it is a box or an
/// ellipsoid, ends where it has a line, a bend and its button only while it is bent.
pub proof fn law_a_shape_offers_a_row_for_every_entry(shape: ShapeSpec, row: ShapeRow)
    ensures
        shape_rows_of(shape).contains(row) <==> match row {
            ShapeRow::Min | ShapeRow::Max => shape is Box,
            ShapeRow::Rotation => shape is Box || shape is Ellipsoid,
            ShapeRow::P1 | ShapeRow::P2 => shape is Cylinder || shape is Tube || shape is Cone,
            ShapeRow::Radius => shape is Cylinder || shape is Sphere || shape is Tube,
            ShapeRow::Center => shape is Sphere || shape is Ellipsoid,
            ShapeRow::Radii => shape is Ellipsoid,
            ShapeRow::Bend | ShapeRow::Straighten => shape is Tube && shape->bend is Some,
            ShapeRow::Radius1 | ShapeRow::Radius2 => shape is Cone,
            ShapeRow::A | ShapeRow::B | ShapeRow::C | ShapeRow::Thickness => shape is Triangle,
        },
        shape_rows_of(shape).no_duplicates(),
{
    let rows = shape_rows_of(shape);
    assert(rows.len() >= 2 && rows.contains(rows[0]) && rows.contains(rows[1]));
    if rows.len() > 2 {
        assert(rows.contains(rows[2]));
    }
    if rows.len() > 3 {
        assert(rows.contains(rows[3]));
    }
    if rows.len() > 4 {
        assert(rows.contains(rows[4]));
    }
}

/// A row that is not offered writes nothing into the shape.
pub proof fn law_a_shape_row_that_is_not_offered_writes_nothing(
    shape: ShapeSpec,
    row: ShapeRow,
    point: Vec3,
    length: Scalar,
    turn: Option<Vec3>,
)
    requires
        !shape_rows_of(shape).contains(row),
    ensures
        shape_edited(shape, ShapeEdit::Point(row, point)) == shape,
        shape_edited(shape, ShapeEdit::Length(row, length)) == shape,
        row == ShapeRow::Rotation ==> shape_edited(shape, ShapeEdit::Rotation(turn)) == shape,
        row == ShapeRow::Straighten ==> shape_edited(shape, ShapeEdit::Straighten) == shape,
{
    law_a_shape_offers_a_row_for_every_entry(shape, row);
}

/// The axes of one kind in a list that has none twice.
proof fn lemma_one_of_each(axes: Seq<Axis>, axis: Axis)
    requires
        axes.no_duplicates(),
    ensures
        axes.filter(being(axis)) == (if axes.contains(axis) {
            seq![axis]
        } else {
            seq![]
        }),
    decreases axes.len(),
{
    reveal(Seq::filter);
    if axes.len() > 0 {
        let before = axes.drop_last();
        lemma_one_of_each(before, axis);
        if before.contains(axis) {
            let i = choose|i: int| 0 <= i < before.len() && before[i] == axis;
            assert(axes[i] == axis);
        }
        if axes.contains(axis) && axes.last() != axis {
            let i = choose|i: int| 0 <= i < axes.len() && axes[i] == axis;
            assert(before[i] == axis);
        }
        assert(axes[axes.len() - 1] == axes.last());
        assert(axes.filter(being(axis)) =~= if axes.contains(axis) {
            seq![axis]
        } else {
            seq![]
        });
    }
}

/// Every axis of a list is one of the three, and taking one out takes as many as there
/// are of it.
proof fn lemma_axes_are_three(axes: Seq<Axis>, axis: Axis)
    ensures
        axes.len() == axes.filter(being(Axis::X)).len() + axes.filter(being(Axis::Y)).len()
            + axes.filter(being(Axis::Z)).len(),
        axes.filter(other_than(axis)).len() + axes.filter(being(axis)).len() == axes.len(),
        forall|a: Axis| #[trigger]
            axes.filter(other_than(axis)).contains(a) <==> axes.contains(a) && a != axis,
    decreases axes.len(),
{
    reveal(Seq::filter);
    let kept = axes.filter(other_than(axis));
    if axes.len() > 0 {
        let before = axes.drop_last();
        lemma_axes_are_three(before, axis);
        let kept_before = before.filter(other_than(axis));
        assert forall|a: Axis| #[trigger] kept.contains(a) <==> axes.contains(a) && a != axis by {
            assert(axes =~= before.push(axes.last()));
            if axes.contains(a) {
                let i = choose|i: int| 0 <= i < axes.len() && axes[i] == a;
                if i < before.len() {
                    assert(before[i] == a);
                }
            }
            if before.contains(a) {
                let i = choose|i: int| 0 <= i < before.len() && before[i] == a;
                assert(axes[i] == a);
            }
            if kept.contains(a) {
                let i = choose|i: int| 0 <= i < kept.len() && kept[i] == a;
                if i < kept_before.len() {
                    assert(kept_before[i] == a);
                } else {
                    assert(a == axes.last());
                    assert(axes[axes.len() - 1] == a);
                }
            }
            if kept_before.contains(a) {
                let i = choose|i: int| 0 <= i < kept_before.len() && kept_before[i] == a;
                assert(kept[i] == a);
            }
            if axes.last() == a && a != axis {
                assert(kept[kept.len() - 1] == a);
            }
        }
    }
}

/// Ticking an axis changes whether that axis is held and no other; the key is there
/// exactly while some axis is free, and ticking one on lists what is held in the order of
/// the axes.
pub proof fn law_a_tick_moves_its_own_axis_alone(
    directions: Option<Seq<Axis>>,
    axis: Axis,
    on: bool,
    other: Axis,
)
    requires
        held_axes(directions).no_duplicates(),
        held_axes(directions).contains(axis) != on,
    ensures
        ({
            let after = directions_toggled(directions, axis, on);
            &&& held_axes(after).contains(axis) == on
            &&& other != axis ==> held_axes(after).contains(other) == held_axes(
                directions,
            ).contains(other)
            &&& after is None <==> forall|a: Axis| #[trigger] held_axes(after).contains(a)
            &&& held_axes(after).no_duplicates()
            &&& on && after is Some ==> after->0[0] != Axis::Z || after->0.len() == 1
            &&& on && after is Some && after->0.len() == 2 ==> after->0[0] == Axis::X || after->0[1]
                == Axis::Z
        }),
        held_axes(None) == seq![Axis::X, Axis::Y, Axis::Z],
{
    let held = held_axes(directions);
    let after = directions_toggled(directions, axis, on);
    let all = seq![Axis::X, Axis::Y, Axis::Z];
    assert(all[0] == Axis::X && all[1] == Axis::Y && all[2] == Axis::Z);
    assert forall|a: Axis| #[trigger] all.contains(a) by {
        let i = if a == Axis::X {
            0int
        } else if a == Axis::Y {
            1
        } else {
            2
        };
        assert(all[i] == a);
    }
    if on {
        let more = held.push(axis);
        assert forall|i: int, j: int| 0 <= i < more.len() && 0 <= j < more.len() && i != j implies
            more[i] != more[j] by {
            if i == held.len() {
                assert(held.contains(more[j]));
            } else if j == held.len() {
                assert(held.contains(more[i]));
            }
        }
        lemma_one_of_each(more, Axis::X);
        lemma_one_of_each(more, Axis::Y);
        lemma_one_of_each(more, Axis::Z);
        assert forall|a: Axis| #[trigger] more.contains(a) <==> held.contains(a) || a == axis by {
            if held.contains(a) {
                let i = choose|i: int| 0 <= i < held.len() && held[i] == a;
                assert(more[i] == a);
            }
            if a == axis {
                assert(more[held.len() as int] == a);
            }
            if more.contains(a) {
                let i = choose|i: int| 0 <= i < more.len() && more[i] == a;
                if i < held.len() {
                    assert(held[i] == a);
                }
            }
        }
        let sorted = axes_in_order(more);
        let x = more.filter(being(Axis::X));
        let y = more.filter(being(Axis::Y));
        let z = more.filter(being(Axis::Z));
        assert forall|a: Axis| #[trigger] sorted.contains(a) <==> more.contains(a) by {
            if more.contains(a) {
                if a == Axis::X {
                    assert(sorted[0] == a);
                } else if a == Axis::Y {
                    assert(sorted[x.len() as int] == a);
                } else {
                    assert(sorted[(x.len() + y.len()) as int] == a);
                }
            }
            if sorted.contains(a) {
                let i = choose|i: int| 0 <= i < sorted.len() && sorted[i] == a;
                if i < x.len() {
                    assert(x[i] == a);
                } else if i < x.len() + y.len() {
                    assert(y[i - x.len()] == a);
                } else {
                    assert(z[i - x.len() - y.len()] == a);
                }
            }
        }
        assert(sorted.no_duplicates());
        if sorted.len() < 3 {
            assert(!(sorted.contains(Axis::X) && sorted.contains(Axis::Y) && sorted.contains(
                Axis::Z,
            )));
            assert(!held_axes(after).contains(Axis::X) || !held_axes(after).contains(Axis::Y)
                || !held_axes(after).contains(Axis::Z));
        } else {
            assert(more.contains(Axis::X) && more.contains(Axis::Y) && more.contains(Axis::Z));
            assert(sorted.contains(Axis::X) && sorted.contains(Axis::Y) && sorted.contains(Axis::Z));
            assert(all.contains(other) && all.contains(axis));
            assert(more.contains(other));
        }
    } else {
        lemma_one_of_each(held, axis);
        lemma_one_of_each(held, Axis::X);
        lemma_one_of_each(held, Axis::Y);
        lemma_one_of_each(held, Axis::Z);
        lemma_axes_are_three(held, axis);
        let kept = held.filter(other_than(axis));
        assert(kept.len() < 3);
        assert(!kept.contains(axis));
        lemma_filter_no_duplicates(held, axis);
        assert(!held_axes(after).contains(axis));
    }
}

/// Taking an axis out of a list leaves none twice that was not.
proof fn lemma_filter_no_duplicates(axes: Seq<Axis>, axis: Axis)
    requires
        axes.no_duplicates(),
    ensures
        axes.filter(other_than(axis)).no_duplicates(),
    decreases axes.len(),
{
    reveal(Seq::filter);
    if axes.len() > 0 {
        let before = axes.drop_last();
        lemma_filter_no_duplicates(before, axis);
        lemma_axes_are_three(before, axis);
        let kept = before.filter(other_than(axis));
        let last = axes.last();
        if kept.contains(last) {
            assert(before.contains(last));
            let i = choose|i: int| 0 <= i < before.len() && before[i] == last;
            assert(axes[i] == axes[axes.len() - 1]);
        }
        assert forall|i: int| 0 <= i < kept.len() implies kept[i] != last by {
            assert(kept.contains(kept[i]));
        }
    }
}

/// Asking for another object asks for one of its own list's, of the kind asked for; a
/// piece of the design space is added to it.
pub proof fn law_a_new_object_is_of_its_list(list: ObjectList, kind: ShapeKind)
    ensures
        list == ObjectList::Domain ==> new_object(list, kind) == NewObject::Domain(
            kind,
            CsgOpSpec::Add,
        ),
        list == ObjectList::Keepout ==> new_object(list, kind) == NewObject::Keepout(kind),
        list == ObjectList::Keepin ==> new_object(list, kind) == NewObject::Keepin(kind),
        list == ObjectList::Supports ==> new_object(list, kind) == NewObject::Support(kind),
{
}

/// The tree has every object of a configuration once: the four lists one behind the
/// other, each from its first entry, and after them the load cases, the loads of each
/// right behind it.
pub proof fn law_the_tree_has_every_object_in_its_place(config: ConfigView, index: int, load: int)
    requires
        config.domain.len() <= usize::MAX,
        config.keepout.len() <= usize::MAX,
        config.keepin.len() <= usize::MAX,
        config.supports.len() <= usize::MAX,
        config.loadcases.len() <= usize::MAX,
        forall|c: int|
            0 <= c < config.loadcases.len() ==> (#[trigger] config.loadcases[c]).loads.len()
                <= usize::MAX,
    ensures
        ({
            let tree = tree_of(config);
            let d = config.domain.len();
            let o = d + config.keepout.len();
            let i = o + config.keepin.len();
            let s = i + config.supports.len();
            let at = s + case_entries(config.loadcases, index).len();
            &&& 0 <= index < config.domain.len() ==> tree[index] == Selection::Domain(
                index as usize,
            )
            &&& 0 <= index < config.keepout.len() ==> tree[d + index] == Selection::Keepout(
                index as usize,
            )
            &&& 0 <= index < config.keepin.len() ==> tree[o + index] == Selection::Keepin(
                index as usize,
            )
            &&& 0 <= index < config.supports.len() ==> tree[i + index] == Selection::Support(
                index as usize,
            )
            &&& 0 <= index < config.loadcases.len() ==> {
                &&& tree[at as int] == Selection::LoadCase(index as usize)
                &&& 0 <= load < config.loadcases[index].loads.len() ==> tree[at + 1 + load]
                    == Selection::Load { case: index as usize, load: load as usize }
                &&& case_entries(config.loadcases, index + 1).len() == case_entries(
                    config.loadcases,
                    index,
                ).len() + 1 + config.loadcases[index].loads.len()
            }
            &&& tree.len() == s + case_entries(
                config.loadcases,
                config.loadcases.len() as int,
            ).len()
            &&& case_entries(config.loadcases, 0).len() == 0
        }),
{
    if 0 <= index < config.loadcases.len() {
        let cases = config.loadcases;
        lemma_cases_go_on(cases, index + 1, cases.len() as int);
        let upto = case_entries(cases, index + 1);
        let head = case_entries(cases, index).len() as int;
        let all = case_entries(cases, cases.len() as int);
        assert(upto[head] == Selection::LoadCase(index as usize));
        assert(all[head] == upto[head]);
        if 0 <= load < cases[index].loads.len() {
            assert(loads_under(cases, index)[load] == (Selection::Load {
                case: index as usize,
                load: load as usize,
            }));
            assert(upto[head + 1 + load] == loads_under(cases, index)[load]);
            assert(all[head + 1 + load] == upto[head + 1 + load]);
        }
    }
}

/// The entries of more cases start with those of fewer.
proof fn lemma_cases_go_on(cases: Seq<LoadCaseView>, few: int, many: int)
    requires
        0 <= few <= many,
    ensures
        case_entries(cases, few).len() <= case_entries(cases, many).len(),
        forall|i: int|
            0 <= i < case_entries(cases, few).len() ==> #[trigger] case_entries(cases, many)[i]
                == case_entries(cases, few)[i],
    decreases many,
{
    if few < many {
        lemma_cases_go_on(cases, few, many - 1);
    }
}

/// A list under its own heading has as many entries as the configuration has of its
/// kind, numbered from the first.
pub proof fn law_a_list_has_its_own_entries(config: ConfigView, index: int)
    requires
        0 <= index <= usize::MAX,
    ensures
        listed(config, ObjectList::Domain) == config.domain.len(),
        listed(config, ObjectList::Keepout) == config.keepout.len(),
        listed(config, ObjectList::Keepin) == config.keepin.len(),
        listed(config, ObjectList::Supports) == config.supports.len(),
        list_entries(ObjectList::Domain, index + 1)[index] == Selection::Domain(index as usize),
        list_entries(ObjectList::Keepout, index + 1)[index] == Selection::Keepout(index as usize),
        list_entries(ObjectList::Keepin, index + 1)[index] == Selection::Keepin(index as usize),
        list_entries(ObjectList::Supports, index + 1)[index] == Selection::Support(index as usize),
        list_entries(ObjectList::Domain, index).len() == index,
        list_entries(ObjectList::Keepout, index).len() == index,
        list_entries(ObjectList::Keepin, index).len() == index,
        list_entries(ObjectList::Supports, index).len() == index,
{
}

/// The engine that was chosen is the engine that is shown, kept where the file keeps it
/// already; choosing one that does not grow takes the growth table away, and nothing else
/// of the configuration moves.
pub proof fn law_the_chosen_engine_is_the_one_shown(config: ConfigView, engine: Seq<char>)
    ensures
        ({
            let after = engine_chosen(config, engine);
            &&& engine_named(after) == engine
            &&& config.project_engine is Some ==> after.engine == config.engine
            &&& config.project_engine is None ==> after.project_engine is None
            &&& engine == "growth"@ ==> after.growth == config.growth
            &&& engine != "growth"@ ==> after.growth is None
            &&& after.name == config.name
            &&& after.solver == config.solver
            &&& after.resolution == config.resolution
            &&& after.material == config.material
            &&& after.optimization == config.optimization
            &&& after.output == config.output
            &&& after.domain == config.domain
            &&& after.keepout == config.keepout
            &&& after.keepin == config.keepin
            &&& after.supports == config.supports
            &&& after.loadcases == config.loadcases
        }),
        config.project_engine is None && config.engine is None ==> engine_named(config) == "simp"@,
        config.project_engine is None && config.engine is Some ==> engine_named(config)
            == config.engine->0,
        config.project_engine is Some ==> engine_named(config) == config.project_engine->0,
{
}

/// The solver's two rows write their own key each and leave the other; where no backend
/// is named the device's own is shown.
pub proof fn law_a_solver_row_is_read_back(
    solver: Option<SolverConfig>,
    backend: SolverBackend,
    tolerance: Option<Scalar>,
)
    ensures
        solver_with_backend(solver, backend).backend == Some(backend),
        solver is Some ==> solver_with_backend(solver, backend).tolerance == solver->0.tolerance,
        solver is None ==> solver_with_backend(solver, backend).tolerance is None,
        solver_with_tolerance(solver, tolerance).tolerance == tolerance,
        solver is Some ==> solver_with_tolerance(solver, tolerance).backend == solver->0.backend,
        solver is None ==> solver_with_tolerance(solver, tolerance).backend is None,
        solver is Some && solver->0.backend is Some ==> backend_of(solver) == solver->0.backend->0,
        solver is None || solver->0.backend is None ==> backend_of(solver) == SolverBackend::Gpu,
{
}

/// A resolution is given one way or the other: switching leaves exactly the one entry
/// switched to, at its default, and a row writes its own entry only where it is the way
/// the resolution is given.
pub proof fn law_a_resolution_row_is_read_back(
    resolution: ResolutionConfig,
    size: Scalar,
    cells: usize,
)
    ensures
        ({
            let by_size = resolution_edited(resolution, ResolutionEdit::BySize(true));
            let by_count = resolution_edited(resolution, ResolutionEdit::BySize(false));
            let sized = resolution_edited(resolution, ResolutionEdit::VoxelSize(size));
            let counted = resolution_edited(resolution, ResolutionEdit::TargetCells(cells));
            &&& by_size.target_cells is None
            &&& by_size.voxel_size_mm == Some(Scalar { bits: 0x4000_0000_0000_0000 })
            &&& by_count.voxel_size_mm is None
            &&& by_count.target_cells == Some(200_000usize)
            &&& resolution.voxel_size_mm is Some ==> sized.voxel_size_mm == Some(size)
            &&& resolution.voxel_size_mm is None ==> sized.voxel_size_mm is None
            &&& sized.target_cells == resolution.target_cells
            &&& resolution.target_cells is Some ==> counted.target_cells == Some(cells)
            &&& resolution.target_cells is None ==> counted.target_cells is None
            &&& counted.voxel_size_mm == resolution.voxel_size_mm
        }),
{
}

/// The preset a key names is the first that has it, and the first of all where none has.
pub proof fn law_a_key_names_the_first_preset_that_has_it(
    presets: Seq<MaterialPreset>,
    key: Option<Seq<char>>,
    from: int,
)
    requires
        0 <= from <= presets.len(),
    ensures
        ({
            let found = preset_named(presets, key, from);
            &&& (exists|k: int|
                from <= k < presets.len() && key == Some((#[trigger] presets[k]).key@)) ==> {
                &&& from <= found < presets.len()
                &&& key == Some(presets[found].key@)
                &&& forall|k: int|
                    from <= k < found ==> key != Some((#[trigger] presets[k]).key@)
            }
            &&& (forall|k: int|
                from <= k < presets.len() ==> key != Some((#[trigger] presets[k]).key@)) ==> found
                == 0
        }),
    decreases presets.len() - from,
{
    if from < presets.len() && key != Some(presets[from].key@) {
        law_a_key_names_the_first_preset_that_has_it(presets, key, from + 1);
    }
}

/// A material is given by a preset or by its numbers, and switching keeps what it is: to
/// the numbers of the preset that was named, and to the first preset with no number left.
/// A row writes its own entry where the material is given that way and has it.
pub proof fn law_a_material_row_is_read_back(
    material: MaterialView,
    presets: Seq<MaterialPreset>,
    key: String,
    property: MaterialProperty,
    value: Scalar,
    named: int,
)
    requires
        0 <= named < presets.len(),
        forall|k: int|
            0 <= k < named ==> material.preset != Some((#[trigger] presets[k]).key@),
    ensures
        ({
            let by_preset = material_edited(material, MaterialEdit::ByPreset(true), presets);
            let by_numbers = material_edited(material, MaterialEdit::ByPreset(false), presets);
            let picked = material_edited(material, MaterialEdit::Preset(key), presets);
            let set = material_edited(material, MaterialEdit::Property(property, value), presets);
            &&& by_preset.preset == Some(presets[0].key@)
            &&& by_preset.youngs_modulus_mpa is None && by_preset.poisson_ratio is None
            &&& by_preset.density_g_cm3 is None && by_preset.yield_strength_mpa is None
            &&& by_numbers.preset is None
            &&& material.preset == Some(presets[named].key@) ==> {
                &&& by_numbers.youngs_modulus_mpa == Some(presets[named].youngs_modulus_mpa)
                &&& by_numbers.poisson_ratio == Some(presets[named].poisson_ratio)
                &&& by_numbers.density_g_cm3 == Some(presets[named].density_g_cm3)
                &&& by_numbers.yield_strength_mpa == Some(presets[named].yield_strength_mpa)
            }
            &&& material.preset is None ==> {
                &&& by_numbers.youngs_modulus_mpa == Some(presets[0].youngs_modulus_mpa)
                &&& by_numbers.poisson_ratio == Some(presets[0].poisson_ratio)
                &&& by_numbers.density_g_cm3 == Some(presets[0].density_g_cm3)
                &&& by_numbers.yield_strength_mpa == Some(presets[0].yield_strength_mpa)
            }
            &&& material.preset is Some ==> picked.preset == Some(key@) && set == material
            &&& material.preset is None ==> picked.preset is None && set.preset is None
            &&& picked.youngs_modulus_mpa == material.youngs_modulus_mpa
            &&& picked.poisson_ratio == material.poisson_ratio
            &&& picked.density_g_cm3 == material.density_g_cm3
            &&& picked.yield_strength_mpa == material.yield_strength_mpa
            &&& material.preset is None ==> {
                &&& set.youngs_modulus_mpa == (if property == MaterialProperty::YoungsModulus
                    && material.youngs_modulus_mpa is Some {
                    Some(value)
                } else {
                    material.youngs_modulus_mpa
                })
                &&& set.poisson_ratio == (if property == MaterialProperty::PoissonRatio
                    && material.poisson_ratio is Some {
                    Some(value)
                } else {
                    material.poisson_ratio
                })
                &&& set.density_g_cm3 == (if property == MaterialProperty::Density
                    && material.density_g_cm3 is Some {
                    Some(value)
                } else {
                    material.density_g_cm3
                })
                &&& set.yield_strength_mpa == (if property == MaterialProperty::YieldStrength
                    && material.yield_strength_mpa is Some {
                    Some(value)
                } else {
                    material.yield_strength_mpa
                })
            }
        }),
{
    law_a_key_names_the_first_preset_that_has_it(presets, material.preset, 0);
    if material.preset == Some(presets[named].key@) {
        let found = preset_named(presets, material.preset, 0);
        assert(found == named);
    }
}

/// A material given by a preset offers the preset, and one given by numbers a row for
/// every number that it has.
pub proof fn law_a_material_offers_a_row_for_every_entry(
    material: MaterialView,
    property: MaterialProperty,
)
    ensures
        ({
            let rows = material_rows_of(material);
            &&& rows[0] == MaterialRow::GivenAs
            &&& rows.contains(MaterialRow::Preset) <==> material.preset is Some
            &&& rows.contains(MaterialRow::Property(property)) <==> material.preset is None
                && match property {
                MaterialProperty::YoungsModulus => material.youngs_modulus_mpa is Some,
                MaterialProperty::PoissonRatio => material.poisson_ratio is Some,
                MaterialProperty::Density => material.density_g_cm3 is Some,
                MaterialProperty::YieldStrength => material.yield_strength_mpa is Some,
            }
        }),
{
    let rows = material_rows_of(material);
    if material.preset is Some {
        assert(rows[1] == MaterialRow::Preset);
    } else {
        let start = seq![MaterialRow::GivenAs];
        let one = start + property_row(MaterialProperty::YoungsModulus, material.youngs_modulus_mpa);
        let two = one + property_row(MaterialProperty::PoissonRatio, material.poisson_ratio);
        let three = two + property_row(MaterialProperty::Density, material.density_g_cm3);
        assert(rows == three + property_row(
            MaterialProperty::YieldStrength,
            material.yield_strength_mpa,
        ));
        if material.youngs_modulus_mpa is Some {
            assert(rows[start.len() as int] == MaterialRow::Property(MaterialProperty::YoungsModulus));
        }
        if material.poisson_ratio is Some {
            assert(rows[one.len() as int] == MaterialRow::Property(MaterialProperty::PoissonRatio));
        }
        if material.density_g_cm3 is Some {
            assert(rows[two.len() as int] == MaterialRow::Property(MaterialProperty::Density));
        }
        if material.yield_strength_mpa is Some {
            assert(rows[three.len() as int] == MaterialRow::Property(MaterialProperty::YieldStrength));
        }
    }
}

/// What a row of the optimization writes is read back from its own entry, and every
/// other entry stays. A table is switched on empty and off altogether, and a row of a
/// table that is off does not switch it on.
pub proof fn law_an_optimization_row_is_read_back(
    optimization: OptimizationConfig,
    edit: OptimizationEdit,
)
    ensures
        ({
            let after = optimization_edited(optimization, edit);
            let wire = optimization.wireframe;
            let cap = optimization.local_volume;
            let own_wire = edit is WireRadius || edit is HoldIterations || edit is SeedDensity;
            let own_cap = edit is MaxFraction || edit is LocalRadius;
            &&& edit matches OptimizationEdit::MassFraction(value) ==> after.mass_fraction == value
            &&& !(edit is MassFraction) ==> after.mass_fraction == optimization.mass_fraction
            &&& edit matches OptimizationEdit::MinFeature(value) ==> after.min_feature_mm == value
            &&& !(edit is MinFeature) ==> after.min_feature_mm == optimization.min_feature_mm
            &&& edit matches OptimizationEdit::Penalty(value) ==> after.penalty == value
            &&& !(edit is Penalty) ==> after.penalty == optimization.penalty
            &&& edit matches OptimizationEdit::MaxIterations(value) ==> after.max_iterations == value
            &&& !(edit is MaxIterations) ==> after.max_iterations == optimization.max_iterations
            &&& edit matches OptimizationEdit::ConvergenceTol(value) ==> after.convergence_tol
                == value
            &&& !(edit is ConvergenceTol) ==> after.convergence_tol == optimization.convergence_tol
            &&& edit matches OptimizationEdit::Update(value) ==> after.update == Some(value)
            &&& !(edit is Update) ==> after.update == optimization.update
            &&& edit == OptimizationEdit::Overhang(true) ==> after.overhang is Some
                && after.overhang->0.build_direction == BuildDirection::ZPlus
            &&& edit == OptimizationEdit::Overhang(false) ==> after.overhang is None
            &&& edit is BuildDirection ==> (after.overhang is Some <==> optimization.overhang is Some)
            &&& edit matches OptimizationEdit::BuildDirection(value) ==> optimization.overhang is Some
                ==> after.overhang->0.build_direction == value
            &&& !(edit is Overhang || edit is BuildDirection) ==> after.overhang
                == optimization.overhang
            &&& edit == OptimizationEdit::Wireframe(true) ==> after.wireframe is Some
                && after.wireframe->0.radius_mm is None && after.wireframe->0.hold_iterations is None
                && after.wireframe->0.seed_density is None
            &&& edit == OptimizationEdit::Wireframe(false) ==> after.wireframe is None
            &&& !(edit is Wireframe) ==> (after.wireframe is Some <==> wire is Some)
            &&& own_wire && wire is Some ==> {
                &&& edit matches OptimizationEdit::WireRadius(value) ==> after.wireframe->0.radius_mm
                    == value
                &&& !(edit is WireRadius) ==> after.wireframe->0.radius_mm == wire->0.radius_mm
                &&& edit matches OptimizationEdit::HoldIterations(value)
                    ==> after.wireframe->0.hold_iterations == value
                &&& !(edit is HoldIterations) ==> after.wireframe->0.hold_iterations
                    == wire->0.hold_iterations
                &&& edit matches OptimizationEdit::SeedDensity(value)
                    ==> after.wireframe->0.seed_density == value
                &&& !(edit is SeedDensity) ==> after.wireframe->0.seed_density
                    == wire->0.seed_density
            }
            &&& !own_wire && !(edit is Wireframe) ==> after.wireframe == wire
            &&& edit == OptimizationEdit::LocalVolume(true) ==> after.local_volume is Some
                && after.local_volume->0.max_fraction is None
                && after.local_volume->0.radius_mm is None
            &&& edit == OptimizationEdit::LocalVolume(false) ==> after.local_volume is None
            &&& !(edit is LocalVolume) ==> (after.local_volume is Some <==> cap is Some)
            &&& own_cap && cap is Some ==> {
                &&& edit matches OptimizationEdit::MaxFraction(value)
                    ==> after.local_volume->0.max_fraction == value
                &&& !(edit is MaxFraction) ==> after.local_volume->0.max_fraction
                    == cap->0.max_fraction
                &&& edit matches OptimizationEdit::LocalRadius(value)
                    ==> after.local_volume->0.radius_mm == value
                &&& !(edit is LocalRadius) ==> after.local_volume->0.radius_mm == cap->0.radius_mm
            }
            &&& !own_cap && !(edit is LocalVolume) ==> after.local_volume == cap
        }),
{
}

/// The optimization offers its own rows always, and the rows of a table in it right
/// behind the switch of that table, while it is on.
pub proof fn law_an_optimization_offers_the_rows_of_its_tables(optimization: OptimizationConfig)
    ensures
        ({
            let rows = optimization_rows_of(optimization);
            let w = 7 + if optimization.overhang is Some {
                1int
            } else {
                0
            };
            let l = w + 1 + if optimization.wireframe is Some {
                3int
            } else {
                0
            };
            &&& rows.len() == l + 1 + if optimization.local_volume is Some {
                2int
            } else {
                0
            }
            &&& rows[0] == OptimizationRow::MassFraction
            &&& rows[1] == OptimizationRow::MinFeature
            &&& rows[2] == OptimizationRow::Penalty
            &&& rows[3] == OptimizationRow::MaxIterations
            &&& rows[4] == OptimizationRow::ConvergenceTol
            &&& rows[5] == OptimizationRow::Update
            &&& rows[6] == OptimizationRow::Overhang
            &&& optimization.overhang is Some ==> rows[7] == OptimizationRow::BuildDirection
            &&& rows[w] == OptimizationRow::Wireframe
            &&& optimization.wireframe is Some ==> rows[w + 1] == OptimizationRow::WireRadius
                && rows[w + 2] == OptimizationRow::HoldIterations && rows[w + 3]
                == OptimizationRow::SeedDensity
            &&& rows[l] == OptimizationRow::LocalVolume
            &&& optimization.local_volume is Some ==> rows[l + 1] == OptimizationRow::MaxFraction
                && rows[l + 2] == OptimizationRow::LocalRadius
        }),
{
}

/// A mirror has the plane it was made about and nothing of a rotation.
pub proof fn law_a_mirror_is_about_its_plane(plane: Axis)
    ensures
        mirror_about(plane).kind == SymmetryKind::Mirror,
        first_plane(mirror_about(plane)) == plane,
        second_plane(mirror_about(plane)) is None,
        mirror_about(plane).order is None,
        mirror_about(plane).axis is None,
        symmetry_legal(mirror_about(plane)),
{
}

/// The planes that are written are the planes that are shown, the second left out where
/// it is the first again.
pub proof fn law_planes_read_back_as_they_were_written(
    table: SymmetryView,
    first: Axis,
    second: Option<Axis>,
)
    requires
        table.planes == Some(planes_written(first, second)),
    ensures
        first_plane(table) == first,
        second == Some(first) ==> second_plane(table) is None,
        second != Some(first) ==> second_plane(table) == second,
{
}

/// A symmetry without planes is shown about the first axis, with no second plane.
pub proof fn law_a_symmetry_without_planes_shows_the_first(table: SymmetryView)
    ensures
        table.planes is None || table.planes->0.len() == 0 ==> first_plane(table) == Axis::X
            && second_plane(table) is None,
        table.planes is Some && table.planes->0.len() == 1 ==> second_plane(table) is None,
{
}

/// An order is held between the least and the greatest a symmetry may have, and one that
/// is there already is left alone.
pub proof fn law_an_order_is_held_in_range(order: usize)
    ensures
        2 <= order_clamped(order) <= 12,
        2 <= order <= 12 ==> order_clamped(order) == order,
        order < 2 ==> order_clamped(order) == 2,
        order > 12 ==> order_clamped(order) == 12,
{
}

/// What a row of the symmetry writes is read back from its own entry, where the kind of
/// symmetry has that entry, and the other entries stay. Switching the kind leaves the
/// entries of the new kind alone, and a symmetry is there exactly while it is switched on.
pub proof fn law_a_symmetry_row_is_read_back(symmetry: Option<SymmetryView>, edit: SymmetryEdit)
    ensures
        ({
            let after = symmetry_edited(symmetry, edit);
            &&& edit matches SymmetryEdit::Present(on) ==> (after is Some <==> on)
            &&& !(edit is Present) ==> (after is Some <==> symmetry is Some)
            &&& edit == SymmetryEdit::Present(true) ==> after->0.kind == SymmetryKind::Mirror
                && first_plane(after->0) == Axis::X && second_plane(after->0) is None
            &&& symmetry is Some && !(edit is Present) ==> {
                let table = symmetry->0;
                let given = after->0;
                let mirror = table.kind == SymmetryKind::Mirror;
                &&& edit matches SymmetryEdit::Kind(kind) ==> {
                    &&& given.kind == kind
                    &&& kind == SymmetryKind::Mirror ==> first_plane(given) == Axis::X
                        && second_plane(given) is None && given.planes is Some
                        && given.order is None && given.axis is None
                    &&& kind == SymmetryKind::Rotational ==> given.planes is None && given.order
                        == Some(4usize) && given.axis == Some(Axis::Z)
                }
                &&& !(edit is Kind) ==> given.kind == table.kind
                &&& edit matches SymmetryEdit::FirstPlane(first) ==> {
                    &&& mirror ==> first_plane(given) == first && (second_plane(table) != Some(first)
                        ==> second_plane(given) == second_plane(table)) && (second_plane(table)
                        == Some(first) ==> second_plane(given) is None)
                    &&& !mirror ==> given.planes == table.planes
                    &&& given.order == table.order && given.axis == table.axis
                }
                &&& edit matches SymmetryEdit::SecondPlane(second) ==> {
                    &&& mirror ==> first_plane(given) == first_plane(table) && (second != Some(
                        first_plane(table),
                    ) ==> second_plane(given) == second) && (second == Some(first_plane(table))
                        ==> second_plane(given) is None)
                    &&& !mirror ==> given.planes == table.planes
                    &&& given.order == table.order && given.axis == table.axis
                }
                &&& edit matches SymmetryEdit::Order(order) ==> {
                    &&& !mirror && 2 <= order <= 12 ==> given.order == Some(order)
                    &&& !mirror ==> given.order is Some && 2 <= given.order->0 <= 12
                    &&& mirror ==> given.order == table.order
                    &&& given.planes == table.planes && given.axis == table.axis
                }
                &&& edit matches SymmetryEdit::RotationAxis(axis) ==> {
                    &&& !mirror ==> given.axis == Some(axis)
                    &&& mirror ==> given.axis == table.axis
                    &&& given.planes == table.planes && given.order == table.order
                }
            }
        }),
{
}

/// What a row of the growth table writes is read back from its own entry, and every
/// other entry stays; the table is made, empty but for that entry, where there is none.
pub proof fn law_a_growth_row_is_read_back(growth: Option<GrowthView>, edit: GrowthEdit)
    ensures
        ({
            let after = growth_edited(growth, edit);
            let had = growth is Some;
            &&& edit matches GrowthEdit::Seed(value) ==> after.seed == value
            &&& !(edit is Seed) ==> (had ==> after.seed == growth->0.seed) && (!had
                ==> after.seed is None)
            &&& edit matches GrowthEdit::AttractorPerCm3(value) ==> after.attractor_per_cm3 == value
            &&& !(edit is AttractorPerCm3) ==> (had ==> after.attractor_per_cm3
                == growth->0.attractor_per_cm3) && (!had ==> after.attractor_per_cm3 is None)
            &&& edit matches GrowthEdit::MurrayExponent(value) ==> after.murray_exponent == value
            &&& !(edit is MurrayExponent) ==> (had ==> after.murray_exponent
                == growth->0.murray_exponent) && (!had ==> after.murray_exponent is None)
            &&& edit matches GrowthEdit::AttractionRadius(value) ==> after.attraction_radius_mm
                == value
            &&& !(edit is AttractionRadius) ==> (had ==> after.attraction_radius_mm
                == growth->0.attraction_radius_mm) && (!had ==> after.attraction_radius_mm is None)
            &&& edit matches GrowthEdit::KillRadius(value) ==> after.kill_radius_mm == value
            &&& !(edit is KillRadius) ==> (had ==> after.kill_radius_mm == growth->0.kill_radius_mm)
                && (!had ==> after.kill_radius_mm is None)
            &&& edit matches GrowthEdit::Step(value) ==> after.step_mm == value
            &&& !(edit is Step) ==> (had ==> after.step_mm == growth->0.step_mm) && (!had
                ==> after.step_mm is None)
            &&& edit matches GrowthEdit::MaxRadius(value) ==> after.max_radius_mm == value
            &&& !(edit is MaxRadius) ==> (had ==> after.max_radius_mm == growth->0.max_radius_mm)
                && (!had ==> after.max_radius_mm is None)
            &&& edit matches GrowthEdit::MaxSteps(value) ==> after.max_steps == value
            &&& !(edit is MaxSteps) ==> (had ==> after.max_steps == growth->0.max_steps) && (!had
                ==> after.max_steps is None)
            &&& edit matches GrowthEdit::Prune(value) ==> after.prune == Some(value)
            &&& !(edit is Prune) ==> (had ==> after.prune == growth->0.prune) && (!had
                ==> after.prune is None)
            &&& edit matches GrowthEdit::Symmetry(inner) ==> after.symmetry == symmetry_edited(
                if had {
                    growth->0.symmetry
                } else {
                    None
                },
                inner,
            )
            &&& !(edit is Symmetry) ==> (had ==> after.symmetry == growth->0.symmetry) && (!had
                ==> after.symmetry is None)
        }),
{
}

/// A growth engine offers the growth rows and another none; behind them the symmetry has
/// its switch, and while it is on its kind and that kind's two rows.
pub proof fn law_growth_offers_the_rows_of_its_symmetry(growth: Option<GrowthView>)
    ensures
        growth_rows_of(false, growth).len() == 0,
        ({
            let rows = growth_rows_of(true, growth);
            let on = growth is Some && growth->0.symmetry is Some;
            &&& rows[0] == GrowthRow::Seed
            &&& rows[1] == GrowthRow::AttractorPerCm3
            &&& rows[2] == GrowthRow::MurrayExponent
            &&& rows[3] == GrowthRow::AttractionRadius
            &&& rows[4] == GrowthRow::KillRadius
            &&& rows[5] == GrowthRow::Step
            &&& rows[6] == GrowthRow::MaxRadius
            &&& rows[7] == GrowthRow::MaxSteps
            &&& rows[8] == GrowthRow::Prune
            &&& rows[9] == GrowthRow::Symmetry
            &&& !on ==> rows.len() == 10
            &&& on ==> rows.len() == 13 && rows[10] == GrowthRow::SymmetryKind
            &&& on && growth->0.symmetry->0.kind == SymmetryKind::Mirror ==> rows[11]
                == GrowthRow::FirstPlane && rows[12] == GrowthRow::SecondPlane
            &&& on && growth->0.symmetry->0.kind == SymmetryKind::Rotational ==> rows[11]
                == GrowthRow::Order && rows[12] == GrowthRow::RotationAxis
        }),
{
    if growth is Some {
        assert(symmetry_rows_of(growth->0.symmetry)[0] == GrowthRow::Symmetry);
    } else {
        assert(symmetry_rows_of(None)[0] == GrowthRow::Symmetry);
    }
}

/// What a row of the output writes is read back from its own entry, and every other entry
/// stays; a threshold is written only while the pass it is the threshold of is on.
pub proof fn law_an_output_row_is_read_back(output: OutputView, edit: OutputEdit)
    ensures
        ({
            let after = output_edited(output, edit);
            let trims = output.trim == Some(TrimPolicy::Stress);
            let thickens = output.reinforce == Some(ReinforcePolicy::MinThickness);
            &&& after.stl_path == output.stl_path
            &&& after.stress_json == output.stress_json
            &&& edit matches OutputEdit::IsoLevel(value) ==> after.iso_level == value
            &&& !(edit is IsoLevel) ==> after.iso_level == output.iso_level
            &&& edit matches OutputEdit::Smoothing(value) ==> after.smoothing_iterations == value
            &&& !(edit is Smoothing) ==> after.smoothing_iterations == output.smoothing_iterations
            &&& edit matches OutputEdit::Supersample(value) ==> after.supersample == value
            &&& !(edit is Supersample) ==> after.supersample == output.supersample
            &&& edit matches OutputEdit::Voids(value) ==> after.voids == Some(value)
            &&& !(edit is Voids) ==> after.voids == output.voids
            &&& edit matches OutputEdit::Islands(value) ==> after.islands == Some(value)
            &&& !(edit is Islands) ==> after.islands == output.islands
            &&& edit matches OutputEdit::Boundaries(value) ==> after.boundaries == Some(value)
            &&& !(edit is Boundaries) ==> after.boundaries == output.boundaries
            &&& edit matches OutputEdit::Trim(value) ==> after.trim == Some(value)
            &&& !(edit is Trim) ==> after.trim == output.trim
            &&& edit matches OutputEdit::Reinforce(value) ==> after.reinforce == Some(value)
            &&& !(edit is Reinforce) ==> after.reinforce == output.reinforce
            &&& edit matches OutputEdit::TrimFraction(value) ==> trims ==> after.trim_stress_fraction
                == value
            &&& !(edit is TrimFraction) || !trims ==> after.trim_stress_fraction
                == output.trim_stress_fraction
            &&& edit matches OutputEdit::ReinforceThickness(value) ==> thickens
                ==> after.reinforce_thickness_mm == value
            &&& !(edit is ReinforceThickness) || !thickens ==> after.reinforce_thickness_mm
                == output.reinforce_thickness_mm
        }),
{
    if trims(output) {
        let policy = output.trim->0;
        assert(policy is Stress);
    }
    if reinforces(output) {
        let policy = output.reinforce->0;
        assert(policy is MinThickness);
    }
}

/// The output offers its rows always, and a threshold right behind the pass it is the
/// threshold of, while that pass is on.
pub proof fn law_an_output_offers_the_thresholds_of_its_passes(output: OutputView)
    ensures
        ({
            let rows = output_rows_of(output);
            let trims = output.trim == Some(TrimPolicy::Stress);
            let thickens = output.reinforce == Some(ReinforcePolicy::MinThickness);
            let r = 7 + if trims {
                1int
            } else {
                0
            };
            &&& rows.len() == r + 1 + if thickens {
                1int
            } else {
                0
            }
            &&& rows[0] == OutputRow::IsoLevel
            &&& rows[1] == OutputRow::Smoothing
            &&& rows[2] == OutputRow::Supersample
            &&& rows[3] == OutputRow::Voids
            &&& rows[4] == OutputRow::Islands
            &&& rows[5] == OutputRow::Boundaries
            &&& rows[6] == OutputRow::Trim
            &&& trims ==> rows[7] == OutputRow::TrimFraction
            &&& rows[r] == OutputRow::Reinforce
            &&& thickens ==> rows[r + 1] == OutputRow::ReinforceThickness
        }),
{
    if trims(output) {
        let policy = output.trim->0;
        assert(policy is Stress);
    }
    if reinforces(output) {
        let policy = output.reinforce->0;
        assert(policy is MinThickness);
    }
}

} // verus!
