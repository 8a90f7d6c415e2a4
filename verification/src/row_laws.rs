//! What a used row, an edit, an undo and a typed number do, stated of the entries, the
//! steps and the characters themselves.

use vstd::prelude::*;

use crate::config::{ConfigView, LoadSpec, ShapeSpec};
use crate::editor::{
    edit_begun, edit_ended, gestured, grows, redone, section_clicked, section_reset, smallest_of,
    tooltip_of, undone, voxel_of, Gesture, Section, StateView,
};
use crate::fields::{
    cleaned_of, kept_of, number_in, placed_at, room_of, snap_chosen, snaps, whitespace,
};
use crate::forms::{
    engine_named, growth_edited, material_edited, optimization_edited, output_edited,
    resolution_edited, MaterialPreset,
};
use crate::objects::{directions_toggled, load_edited, Selection};
use crate::rows::{
    load_moved, moved, object_edited, region_of, row_used, section_edited, shape_at, wrote,
    ObjectEdit, RowEdit, SectionEdit, Usage,
};
use crate::scalar::Scalar;

verus! {

/// A row of a section writes the table its section is about; the growth table only where
/// the engine that is shown grows.
pub proof fn law_a_section_row_reaches_its_table(
    config: ConfigView,
    edit: SectionEdit,
    presets: Seq<MaterialPreset>,
)
    ensures
        ({
            let after = section_edited(config, edit, presets);
            match edit {
                SectionEdit::Engine(engine) => engine_named(after) == engine@,
                SectionEdit::Backend(backend) => {
                    &&& after.solver is Some && after.solver->0.backend == Some(backend)
                    &&& config.solver is Some ==> after.solver->0.tolerance
                        == config.solver->0.tolerance
                    &&& after.growth == config.growth && after.engine == config.engine
                        && after.project_engine == config.project_engine
                },
                SectionEdit::Tolerance(tolerance) => {
                    &&& after.solver is Some && after.solver->0.tolerance == tolerance
                    &&& config.solver is Some ==> after.solver->0.backend == config.solver->0.backend
                    &&& after.growth == config.growth && after.engine == config.engine
                        && after.project_engine == config.project_engine
                },
                SectionEdit::Resolution(inner) => after.resolution == resolution_edited(
                    config.resolution,
                    inner,
                ),
                SectionEdit::Material(inner) => after.material == material_edited(
                    config.material,
                    inner,
                    presets,
                ),
                SectionEdit::Optimization(inner) => after.optimization == optimization_edited(
                    config.optimization,
                    inner,
                ),
                SectionEdit::Growth(inner) => {
                    &&& engine_named(config) == "growth"@ ==> after.growth == Some(
                        growth_edited(config.growth, inner),
                    )
                    &&& engine_named(config) != "growth"@ ==> after.growth == config.growth
                },
                SectionEdit::Output(inner) => after.output == output_edited(config.output, inner),
            }
        }),
{
    law_the_engine_shown_decides_whether_it_grows(config);
}

/// A configuration grows exactly where the engine that is shown is the growth engine.
pub proof fn law_the_engine_shown_decides_whether_it_grows(config: ConfigView)
    ensures
        grows(config) <==> engine_named(config) == "growth"@,
{
    reveal_strlit("growth");
    reveal_strlit("simp");
    assert("growth"@.len() == 6 && "simp"@.len() == 4);
}

/// A row of an object writes that object: its operation, its directions, its name or
/// weight, its load or its region, whichever the row is of; the other entries of the
/// object stay, and an object that is not there is not made.
pub proof fn law_an_object_row_is_read_back(
    config: ConfigView,
    selection: Selection,
    edit: ObjectEdit,
)
    ensures
        ({
            let after = object_edited(config, selection, edit);
            match selection {
                Selection::Domain(index) => {
                    let k = index as int;
                    &&& index < config.domain.len() ==> {
                        &&& edit matches ObjectEdit::Operation(op) ==> after.domain[k].op == op
                        &&& !(edit is Operation) ==> after.domain[k].op == config.domain[k].op
                        &&& edit matches ObjectEdit::Shape(shape, _) ==> after.domain[k].shape
                            == shape
                        &&& !(edit is Shape) ==> after.domain[k].shape == config.domain[k].shape
                    }
                    &&& index >= config.domain.len() ==> after == config
                },
                Selection::Keepout(index) => {
                    let k = index as int;
                    &&& index < config.keepout.len() ==> {
                        &&& edit matches ObjectEdit::Shape(shape, _) ==> after.keepout[k] == shape
                        &&& !(edit is Shape) ==> after.keepout[k] == config.keepout[k]
                    }
                    &&& index >= config.keepout.len() ==> after == config
                },
                Selection::Keepin(index) => {
                    let k = index as int;
                    &&& index < config.keepin.len() ==> {
                        &&& edit matches ObjectEdit::Shape(shape, _) ==> after.keepin[k] == shape
                        &&& !(edit is Shape) ==> after.keepin[k] == config.keepin[k]
                    }
                    &&& index >= config.keepin.len() ==> after == config
                },
                Selection::Support(index) => {
                    let k = index as int;
                    &&& index < config.supports.len() ==> {
                        &&& edit matches ObjectEdit::Direction(axis, on)
                            ==> after.supports[k].directions == directions_toggled(
                            config.supports[k].directions,
                            axis,
                            on,
                        )
                        &&& !(edit is Direction) ==> after.supports[k].directions
                            == config.supports[k].directions
                        &&& edit matches ObjectEdit::Shape(shape, _) ==> after.supports[k].region
                            == shape
                        &&& !(edit is Shape) ==> after.supports[k].region
                            == config.supports[k].region
                    }
                    &&& index >= config.supports.len() ==> after == config
                },
                Selection::LoadCase(index) => {
                    let k = index as int;
                    &&& index < config.loadcases.len() ==> {
                        &&& edit matches ObjectEdit::CaseName(name) ==> after.loadcases[k].name
                            == name@
                        &&& !(edit is CaseName) ==> after.loadcases[k].name
                            == config.loadcases[k].name
                        &&& edit matches ObjectEdit::CaseWeight(weight)
                            ==> after.loadcases[k].weight == weight
                        &&& !(edit is CaseWeight) ==> after.loadcases[k].weight
                            == config.loadcases[k].weight
                        &&& after.loadcases[k].loads == config.loadcases[k].loads
                    }
                    &&& index >= config.loadcases.len() ==> after == config
                },
                Selection::Load { case, load } => {
                    let k = case as int;
                    let l = load as int;
                    let there = case < config.loadcases.len() && load
                        < config.loadcases[k].loads.len();
                    &&& there ==> {
                        let before = config.loadcases[k].loads[l];
                        &&& edit matches ObjectEdit::Load(inner) ==> after.loadcases[k].loads[l]
                            == load_edited(before, inner)
                        &&& edit matches ObjectEdit::Shape(shape, _)
                            ==> after.loadcases[k].loads[l] == load_moved(before, shape)
                        &&& !(edit is Load || edit is Shape) ==> after.loadcases[k].loads[l]
                            == before
                        &&& after.loadcases[k].name == config.loadcases[k].name
                        &&& after.loadcases[k].weight == config.loadcases[k].weight
                    }
                    &&& !there ==> after == config
                },
            }
        }),
{
}

/// The other objects stay as they are, every entry of them.
pub proof fn law_an_object_row_leaves_the_other_objects(
    config: ConfigView,
    selection: Selection,
    edit: ObjectEdit,
    k: int,
    l: int,
)
    ensures
        ({
            let after = object_edited(config, selection, edit);
            &&& !(selection matches Selection::Domain(i) && i == k) && 0 <= k < config.domain.len()
                ==> after.domain[k] == config.domain[k]
            &&& !(selection matches Selection::Keepout(i) && i == k) && 0 <= k
                < config.keepout.len() ==> after.keepout[k] == config.keepout[k]
            &&& !(selection matches Selection::Keepin(i) && i == k) && 0 <= k < config.keepin.len()
                ==> after.keepin[k] == config.keepin[k]
            &&& !(selection matches Selection::Support(i) && i == k) && 0 <= k
                < config.supports.len() ==> after.supports[k] == config.supports[k]
            &&& !(selection matches Selection::LoadCase(i) && i == k) && 0 <= k
                < config.loadcases.len() ==> after.loadcases[k].name == config.loadcases[k].name
                && after.loadcases[k].weight == config.loadcases[k].weight
            &&& !(selection is Load && selection->case == k && selection->load == l) && 0 <= k
                < config.loadcases.len() && 0 <= l < config.loadcases[k].loads.len()
                ==> after.loadcases[k].loads[l] == config.loadcases[k].loads[l]
            &&& after.domain.len() == config.domain.len()
            &&& after.keepout.len() == config.keepout.len()
            &&& after.keepin.len() == config.keepin.len()
            &&& after.supports.len() == config.supports.len()
            &&& after.loadcases.len() == config.loadcases.len()
        }),
{
}

/// A load that acts on a region has it moved and nothing else about it; gravity acts
/// everywhere and has none.
pub proof fn law_a_moved_load_keeps_what_it_does(load: LoadSpec, shape: ShapeSpec)
    ensures
        ({
            let after = load_moved(load, shape);
            match load {
                LoadSpec::Force { region, vector } => {
                    &&& region_of(load) == Some(region)
                    &&& region_of(after) == Some(shape)
                    &&& after is Force && after->vector == vector
                },
                LoadSpec::Torque { region, axis_point, axis_dir, magnitude_nmm } => {
                    &&& region_of(load) == Some(region)
                    &&& region_of(after) == Some(shape)
                    &&& after is Torque && after->axis_point == axis_point && after->axis_dir
                        == axis_dir && after->magnitude_nmm == magnitude_nmm
                },
                LoadSpec::Gravity { direction, g_mm_s2 } => {
                    &&& region_of(load) is None
                    &&& after == load
                },
            }
        }),
{
}

/// The shape of a selected object is the one the object has, and there is none where
/// there is no such object, or where it is one that has no shape.
pub proof fn law_a_selection_shows_its_own_shape(config: ConfigView, index: usize, load: usize)
    ensures
        index < config.domain.len() ==> shape_at(config, Selection::Domain(index)) == Some(
            config.domain[index as int].shape,
        ),
        index >= config.domain.len() ==> shape_at(config, Selection::Domain(index)) is None,
        index < config.keepout.len() ==> shape_at(config, Selection::Keepout(index)) == Some(
            config.keepout[index as int],
        ),
        index >= config.keepout.len() ==> shape_at(config, Selection::Keepout(index)) is None,
        index < config.keepin.len() ==> shape_at(config, Selection::Keepin(index)) == Some(
            config.keepin[index as int],
        ),
        index >= config.keepin.len() ==> shape_at(config, Selection::Keepin(index)) is None,
        index < config.supports.len() ==> shape_at(config, Selection::Support(index)) == Some(
            config.supports[index as int].region,
        ),
        index >= config.supports.len() ==> shape_at(config, Selection::Support(index)) is None,
        shape_at(config, Selection::LoadCase(index)) is None,
        index < config.loadcases.len() && load < config.loadcases[index as int].loads.len()
            ==> shape_at(config, Selection::Load { case: index, load }) == region_of(
            config.loadcases[index as int].loads[load as int],
        ),
        index >= config.loadcases.len() || load >= config.loadcases[index as int].loads.len()
            ==> shape_at(config, Selection::Load { case: index, load }) is None,
{
}

/// A row that was used writes what its edit writes, whichever of the three kinds it is
/// of; a row that was only touched writes nothing; what is saved never moves.
pub proof fn law_a_used_row_writes_its_edit(
    state: StateView,
    used: Usage,
    edit: RowEdit,
    presets: Seq<MaterialPreset>,
)
    ensures
        ({
            let after = row_used(state, used, edit, presets);
            let written = match used {
                Usage::Gesture(gesture) => gesture.changed,
                Usage::Once(_) => true,
            };
            &&& wrote(used) == written
            &&& written ==> after.config == (match edit {
                RowEdit::Section(inner) => section_edited(state.config, inner, presets),
                RowEdit::Object(selection, inner) => object_edited(state.config, selection, inner),
                RowEdit::Reset(section, smallest) => section_reset(section, state.config, smallest),
            })
            &&& !written ==> after.config == state.config
            &&& after.saved == state.saved
            &&& after.built_voxel_mm == state.built_voxel_mm
            &&& used is Once ==> after.interaction is None
        }),
        moved(edit) <==> edit is Object && edit->Object_1 is Shape && edit->Object_1->Shape_1,
{
}

/// Beginning an edit keeps the configuration it began from as one step back, closes what
/// could be done again, and does so once however often the widget moves on.
pub proof fn law_an_edit_begins_once(state: StateView, widget: u64)
    ensures
        ({
            let begun = edit_begun(state, widget);
            &&& begun.interaction == Some(widget)
            &&& begun.config == state.config
            &&& begun.saved == state.saved
            &&& begun.built_voxel_mm == state.built_voxel_mm
            &&& edit_begun(begun, widget) == begun
            &&& state.interaction != Some(widget) ==> {
                &&& begun.undo.len() == state.undo.len() + 1
                &&& begun.undo[state.undo.len() as int] == state.config
                &&& forall|k: int|
                    0 <= k < state.undo.len() ==> #[trigger] begun.undo[k] == state.undo[k]
                &&& begun.redo.len() == 0
            }
            &&& state.interaction == Some(widget) ==> begun.undo == state.undo && begun.redo
                == state.redo
        }),
{
}

/// Ending an edit ends the widget's own and touches nothing else.
pub proof fn law_an_edit_ends_with_its_widget(state: StateView, widget: u64)
    ensures
        ({
            let ended = edit_ended(state, widget);
            &&& state.interaction == Some(widget) ==> ended.interaction is None
            &&& state.interaction != Some(widget) ==> ended.interaction == state.interaction
            &&& ended.config == state.config
            &&& ended.undo == state.undo
            &&& ended.redo == state.redo
            &&& ended.saved == state.saved
            &&& ended.built_voxel_mm == state.built_voxel_mm
        }),
{
}

/// A step back gives the configuration of one step ago and keeps the present one to be
/// done again; a step forward gives that back. Both end the edit in hand, neither moves
/// what is saved, and without a step to take nothing happens.
pub proof fn law_a_step_back_and_a_step_forward(state: StateView)
    ensures
        state.undo.len() == 0 ==> undone(state) == state,
        state.undo.len() > 0 ==> {
            let after = undone(state);
            &&& after.config == state.undo[state.undo.len() - 1]
            &&& after.undo.len() == state.undo.len() - 1
            &&& forall|k: int| 0 <= k < after.undo.len() ==> #[trigger] after.undo[k] == state.undo[k]
            &&& after.redo.len() == state.redo.len() + 1
            &&& after.redo[state.redo.len() as int] == state.config
            &&& forall|k: int| 0 <= k < state.redo.len() ==> #[trigger] after.redo[k] == state.redo[k]
            &&& after.interaction is None
            &&& after.saved == state.saved
            &&& after.built_voxel_mm == state.built_voxel_mm
        },
        state.redo.len() == 0 ==> redone(state) == state,
        state.redo.len() > 0 ==> {
            let after = redone(state);
            &&& after.config == state.redo[state.redo.len() - 1]
            &&& after.redo.len() == state.redo.len() - 1
            &&& forall|k: int| 0 <= k < after.redo.len() ==> #[trigger] after.redo[k] == state.redo[k]
            &&& after.undo.len() == state.undo.len() + 1
            &&& after.undo[state.undo.len() as int] == state.config
            &&& forall|k: int| 0 <= k < state.undo.len() ==> #[trigger] after.undo[k] == state.undo[k]
            &&& after.interaction is None
            &&& after.saved == state.saved
            &&& after.built_voxel_mm == state.built_voxel_mm
        },
{
}

/// A gesture that changed something is a step back of its own unless its widget is in
/// hand already; one that changed nothing is none; and letting go ends the widget's edit.
pub proof fn law_a_gesture_opens_and_closes_its_edit(state: StateView, gesture: Gesture)
    ensures
        ({
            let after = gestured(state, gesture);
            let in_hand = state.interaction == Some(gesture.widget);
            let let_go = gesture.drag_stopped || gesture.lost_focus;
            &&& after.config == state.config
            &&& after.saved == state.saved
            &&& after.built_voxel_mm == state.built_voxel_mm
            &&& gesture.changed && !in_hand ==> after.undo == state.undo.push(state.config)
                && after.redo.len() == 0
            &&& !gesture.changed || in_hand ==> after.undo == state.undo && after.redo == state.redo
            &&& let_go && (gesture.changed || in_hand) ==> after.interaction is None
            &&& !let_go && gesture.changed ==> after.interaction == Some(gesture.widget)
            &&& !gesture.changed && !(let_go && in_hand) ==> after.interaction == state.interaction
        }),
{
}

/// The voxel in force is the one the configuration pins, and the one last built with
/// where it pins none; the smallest feature is whatever goes with that voxel.
pub proof fn law_a_pinned_voxel_is_in_force(state: StateView, at: spec_fn(Scalar) -> Scalar)
    ensures
        state.config.resolution.voxel_size_mm is Some ==> voxel_of(state)
            == state.config.resolution.voxel_size_mm,
        state.config.resolution.voxel_size_mm is None ==> voxel_of(state) == state.built_voxel_mm,
        voxel_of(state) is Some ==> smallest_of(state, at) == Some(at(voxel_of(state)->0)),
        voxel_of(state) is None ==> smallest_of(state, at) is None,
{
}

/// A reset takes out every key of its section, and puts the default where the section
/// cannot do without one: the voxel of two millimetres, the first material, the smallest
/// feature the voxel can hold. A table that was there stays, empty.
pub proof fn law_a_reset_takes_its_section_back(config: ConfigView, smallest: Option<Scalar>)
    ensures
        ({
            let engine = section_reset(Section::Engine, config, smallest);
            &&& engine.engine is None && engine.project_engine is None && engine.growth is None
            &&& engine.solver is Some <==> config.solver is Some
            &&& engine.solver is Some ==> engine.solver->0.backend is None
                && engine.solver->0.tolerance is None
        }),
        ({
            let resolution = section_reset(Section::Resolution, config, smallest).resolution;
            &&& resolution.voxel_size_mm == Some(Scalar { bits: 0x4000_0000_0000_0000 })
            &&& resolution.target_cells is None
        }),
        ({
            let material = section_reset(Section::Material, config, smallest).material;
            &&& material.preset == Some("pla"@)
            &&& material.youngs_modulus_mpa is None
            &&& material.poisson_ratio is None
            &&& material.density_g_cm3 is None
            &&& material.yield_strength_mpa is None
        }),
        ({
            let before = config.optimization;
            let after = section_reset(Section::Optimization, config, smallest).optimization;
            &&& after.mass_fraction == before.mass_fraction
            &&& smallest is Some ==> after.min_feature_mm == smallest->0
            &&& smallest is None ==> after.min_feature_mm == before.min_feature_mm
            &&& after.penalty is None && after.max_iterations is None
                && after.convergence_tol is None && after.update is None
            &&& after.overhang is None && after.wireframe is None && after.local_volume is None
        }),
        ({
            let growth = section_reset(Section::Growth, config, smallest).growth;
            &&& growth is Some <==> config.growth is Some
            &&& growth is Some ==> {
                let table = growth->0;
                &&& table.seed is None && table.attractor_per_cm3 is None
                &&& table.attraction_radius_mm is None && table.kill_radius_mm is None
                &&& table.step_mm is None && table.murray_exponent is None
                &&& table.max_radius_mm is None && table.max_steps is None
                &&& table.prune is None && table.symmetry is None
            }
        }),
        ({
            let after = section_reset(Section::Output, config, smallest).output;
            &&& after.stl_path == config.output.stl_path
            &&& after.stress_json == config.output.stress_json
            &&& after.iso_level is None && after.smoothing_iterations is None
                && after.supersample is None
            &&& after.voids is None && after.islands is None && after.boundaries is None
            &&& after.trim is None && after.trim_stress_fraction is None
            &&& after.reinforce is None && after.reinforce_thickness_mm is None
        }),
{
}

/// Clicking a section's reset resets that section of what is edited, and closes what
/// could be done again.
pub proof fn law_a_clicked_reset_resets(
    state: StateView,
    section: Section,
    widget: u64,
    smallest: Option<Scalar>,
)
    ensures
        ({
            let after = section_clicked(state, section, widget, smallest);
            &&& after.config == section_reset(section, state.config, smallest)
            &&& after.saved == state.saved
            &&& after.built_voxel_mm == state.built_voxel_mm
            &&& after.interaction is None
            &&& state.interaction != Some(widget) ==> after.undo == state.undo.push(state.config)
                && after.redo.len() == 0
        }),
{
}

/// The tooltip of a reset names the default that it puts back.
pub proof fn law_a_tooltip_names_its_default()
    ensures
        exists|from: int|
            #![trigger tooltip_of(Section::Engine).skip(from)]
            0 <= from && tooltip_of(Section::Engine).skip(from).take(4) == "simp"@,
        exists|from: int|
            #![trigger tooltip_of(Section::Resolution).skip(from)]
            0 <= from && tooltip_of(Section::Resolution).skip(from).take(1) == "2"@,
        exists|from: int|
            #![trigger tooltip_of(Section::Material).skip(from)]
            0 <= from && tooltip_of(Section::Material).skip(from).take(3) == "pla"@,
{
    reveal_strlit("simp");
    reveal_strlit("2");
    reveal_strlit("pla");
    let engine = crate::editor::TOOLTIP_ENGINE_HEAD@.len() as int;
    let resolution = crate::editor::TOOLTIP_RESOLUTION_HEAD@.len() as int;
    let material = crate::editor::TOOLTIP_MATERIAL_HEAD@.len() as int;
    assert(tooltip_of(Section::Engine).skip(engine).take(4) =~= "simp"@);
    assert(tooltip_of(Section::Resolution).skip(resolution).take(1) =~= "2"@);
    assert(tooltip_of(Section::Material).skip(material).take(3) =~= "pla"@);
}

/// Text is cleaned character by character: white space goes, the minus sign of a
/// typesetter becomes the one that numbers are written with, and everything else stays.
pub proof fn law_text_is_cleaned_character_by_character(a: Seq<char>, b: Seq<char>, c: char)
    ensures
        cleaned_of(a + b) == cleaned_of(a) + cleaned_of(b),
        whitespace(c) ==> cleaned_of(seq![c]).len() == 0,
        !whitespace(c) && c == '\u{2212}' ==> cleaned_of(seq![c]) == seq!['-'],
        !whitespace(c) && c != '\u{2212}' ==> cleaned_of(seq![c]) == seq![c],
    decreases b.len(),
{
    let one = seq![c];
    assert(one.drop_last() =~= Seq::<char>::empty());
    assert(one.last() == c);
    assert(cleaned_of(Seq::<char>::empty()) =~= Seq::<char>::empty());
    assert(cleaned_of(one) =~= cleaned_of(Seq::<char>::empty()) + kept_of(
        c,
        whitespace(c),
    ));
    if b.len() == 0 {
        assert(a + b =~= a);
        assert(cleaned_of(a) + cleaned_of(b) =~= cleaned_of(a));
    } else {
        law_text_is_cleaned_character_by_character(a, b.drop_last(), c);
        assert((a + b).drop_last() =~= a + b.drop_last());
        assert((a + b).last() == b.last());
        assert(cleaned_of(a + b) =~= cleaned_of(a) + cleaned_of(b));
    }
}

/// A blank goes whatever character it is, and of the others only the typesetter's minus
/// changes.
pub proof fn law_a_character_is_kept_unless_it_is_blank(c: char)
    ensures
        kept_of(c, true).len() == 0,
        c != '\u{2212}' ==> kept_of(c, false) == seq![c],
        c == '\u{2212}' ==> kept_of(c, false) == seq!['-'],
{
}

/// A text with nothing to clean is left alone.
pub proof fn law_a_plain_text_is_left_alone(text: Seq<char>)
    requires
        forall|k: int|
            0 <= k < text.len() ==> !whitespace(#[trigger] text[k]) && text[k] != '\u{2212}',
    ensures
        cleaned_of(text) == text,
    decreases text.len(),
{
    if text.len() > 0 {
        law_a_plain_text_is_left_alone(text.drop_last());
        assert(text[text.len() - 1] == text.last());
        assert(cleaned_of(text) =~= text);
    } else {
        assert(cleaned_of(text) =~= text);
    }
}

/// A typed number is taken as it is read, and only where it is neither infinite nor no
/// number.
pub proof fn law_a_finite_number_is_taken_as_it_is(value: Scalar)
    ensures
        number_in(None) is None,
        number_in(Some(value)) is Some ==> number_in(Some(value))->0 == value,
        number_in(Some(value)) is Some <==> value.bits < 0x7ff0_0000_0000_0000
            || 0x8000_0000_0000_0000 <= value.bits < 0xfff0_0000_0000_0000,
{
}

/// An increment snaps from a thousandth up, and one that snaps does so at every larger
/// increment.
pub proof fn law_an_increment_snaps_from_a_thousandth_up(a: Scalar, b: Scalar)
    ensures
        snaps(a) <==> 0x3f50_624d_d2f1_a9fc <= a.bits <= 0x7ff0_0000_0000_0000,
        snaps(a) && a.at_most(b) ==> snaps(b),
        a.at_most(Scalar { bits: 0 }) || a.nan() ==> !snaps(a),
{
}

/// A chosen increment is written where it is another than the one shown, and then as it
/// was chosen, or as zero where it is not at least zero.
pub proof fn law_a_chosen_increment_is_written(shown: Scalar, chosen: Scalar)
    ensures
        chosen.equals(shown) ==> snap_chosen(shown, chosen) is None,
        !chosen.equals(shown) ==> snap_chosen(shown, chosen) is Some,
        !chosen.equals(shown) && (Scalar { bits: 0 }).at_most(chosen) ==> snap_chosen(
            shown,
            chosen,
        )->0 == chosen,
        !chosen.equals(shown) && (chosen.nan() || chosen.below(Scalar { bits: 0 }))
            ==> snap_chosen(shown, chosen)->0 == (Scalar { bits: 0 }),
{
}

/// A callout stays where it is wanted while there is room, and otherwise goes to the end
/// it would have run over.
pub proof fn law_a_callout_is_where_it_is_wanted(wanted: Scalar, limit: Scalar)
    ensures
        (Scalar { bits: 0 }).at_most(wanted) && wanted.at_most(limit) ==> placed_at(wanted, limit)
            == wanted,
        (Scalar { bits: 0 }).at_most(limit) && limit.below(wanted) ==> placed_at(wanted, limit)
            == limit,
        wanted.below(Scalar { bits: 0 }) ==> placed_at(wanted, limit) == (Scalar { bits: 0 }),
        (Scalar { bits: 0 }).at_most(limit) ==> room_of(limit) == limit,
        limit.nan() || limit.below(Scalar { bits: 0 }) ==> room_of(limit) == (Scalar { bits: 0 }),
{
}

} // verus!
