//! The rows of the editor's panel: what using one does to the document, and to
//! the steps that lead back from it.

use vstd::prelude::*;
use vstd::string::*;

use crate::config::{
    list_of, Axis, Config, ConfigView, CsgOpSpec, DomainEntry, LoadCase, LoadCaseView, LoadSpec,
    ShapeSpec, SolverBackend, SupportSpec, SupportView,
};
use crate::editor::{
    edit_begun, edit_ended, gestured, grows, section_reset, undone, EditorState, Field, Gesture,
    Section, StateView,
};
use crate::forms::{
    choose_engine, edit_growth, edit_material, edit_optimization, edit_output, edit_resolution,
    engine_chosen, growth_edited, is_growth, material_edited, optimization_edited, output_edited,
    resolution_edited, solver_with_backend, solver_with_tolerance, write_solver_backend,
    write_solver_tolerance, GrowthEdit, MaterialEdit, MaterialPreset, OptimizationEdit, OutputEdit,
    ResolutionEdit,
};
use crate::objects::{
    directions_toggled, edit_load, load_edited, toggle_direction, LoadEdit, Selection,
};
use crate::scalar::Scalar;

verus! {

/// How a widget was used in a frame.
#[derive(Clone, Copy, Debug, PartialEq, Eq, Structural)]
pub enum Usage {
    /// Its value was changed, or it was let go.
    Gesture(Gesture),
    /// Something was chosen in one gesture: a dropdown, a button.
    Once(u64),
}

/// True when a value came of it.
pub open spec fn wrote(used: Usage) -> bool {
    match used {
        Usage::Gesture(gesture) => gesture.changed,
        Usage::Once(_) => true,
    }
}

/// The widget that was used.
pub open spec fn widget_of(used: Usage) -> u64 {
    match used {
        Usage::Gesture(gesture) => gesture.widget,
        Usage::Once(widget) => widget,
    }
}

/// What a row of one of the sections writes.
#[derive(Debug)]
pub enum SectionEdit {
    /// The engine.
    Engine(String),
    /// The device of the solver.
    Backend(SolverBackend),
    /// The residual of the solver, or its key taken out.
    Tolerance(Option<Scalar>),
    /// A row of the resolution section.
    Resolution(ResolutionEdit),
    /// A row of the material section.
    Material(MaterialEdit),
    /// A row of the optimization section.
    Optimization(OptimizationEdit),
    /// A row of the growth section.
    Growth(GrowthEdit),
    /// A row of the output section.
    Output(OutputEdit),
}

/// What a row of the block of the selection writes.
#[derive(Debug)]
pub enum ObjectEdit {
    /// How a domain entry joins the design space.
    Operation(CsgOpSpec),
    /// One of a support's boxes, ticked or unticked.
    Direction(Axis, bool),
    /// The name of a load case.
    CaseName(String),
    /// The weight of a load case, or its key taken out.
    CaseWeight(Option<Scalar>),
    /// A row of a load's fields.
    Load(LoadEdit),
    /// The shape, and whether it was moved to stay inside the domain.
    Shape(ShapeSpec, bool),
}

/// What a row of the panel writes.
#[derive(Debug)]
pub enum RowEdit {
    /// A row of one of the sections.
    Section(SectionEdit),
    /// A row of an object.
    Object(Selection, ObjectEdit),
    /// The reset button of a section, and the smallest feature the grid resolves.
    Reset(Section, Option<Scalar>),
}

/// The section a row belongs to.
pub open spec fn section_of(edit: SectionEdit) -> Section {
    match edit {
        SectionEdit::Engine(_) | SectionEdit::Backend(_) | SectionEdit::Tolerance(_) => {
            Section::Engine
        },
        SectionEdit::Resolution(_) => Section::Resolution,
        SectionEdit::Material(_) => Section::Material,
        SectionEdit::Optimization(_) => Section::Optimization,
        SectionEdit::Growth(_) => Section::Growth,
        SectionEdit::Output(_) => Section::Output,
    }
}

/// A configuration after a row of one of its sections was used. The growth
/// section is there under that engine alone.
pub open spec fn section_edited(
    config: ConfigView,
    edit: SectionEdit,
    presets: Seq<MaterialPreset>,
) -> ConfigView {
    match edit {
        SectionEdit::Engine(engine) => engine_chosen(config, engine@),
        SectionEdit::Backend(backend) => ConfigView {
            solver: Some(solver_with_backend(config.solver, backend)),
            ..config
        },
        SectionEdit::Tolerance(tolerance) => ConfigView {
            solver: Some(solver_with_tolerance(config.solver, tolerance)),
            ..config
        },
        SectionEdit::Resolution(edit) => ConfigView {
            resolution: resolution_edited(config.resolution, edit),
            ..config
        },
        SectionEdit::Material(edit) => ConfigView {
            material: material_edited(config.material, edit, presets),
            ..config
        },
        SectionEdit::Optimization(edit) => ConfigView {
            optimization: optimization_edited(config.optimization, edit),
            ..config
        },
        SectionEdit::Growth(edit) => if grows(config) {
            ConfigView { growth: Some(growth_edited(config.growth, edit)), ..config }
        } else {
            config
        },
        SectionEdit::Output(edit) => ConfigView {
            output: output_edited(config.output, edit),
            ..config
        },
    }
}

/// Use a row of one of the sections.
pub fn edit_section(config: &mut Config, edit: SectionEdit, presets: &Vec<MaterialPreset>)
    requires
        presets@.len() > 0,
    ensures
        final(config)@ == section_edited(old(config)@, edit, presets@),
{
    match edit {
        SectionEdit::Engine(engine) => {
            choose_engine(config, engine);
        },
        SectionEdit::Backend(backend) => {
            write_solver_backend(config, backend);
        },
        SectionEdit::Tolerance(tolerance) => {
            write_solver_tolerance(config, tolerance);
        },
        SectionEdit::Resolution(edit) => {
            edit_resolution(&mut config.resolution, edit);
        },
        SectionEdit::Material(edit) => {
            edit_material(&mut config.material, edit, presets);
        },
        SectionEdit::Optimization(edit) => {
            edit_optimization(&mut config.optimization, edit);
        },
        SectionEdit::Growth(edit) => {
            if is_growth(config) {
                edit_growth(&mut config.growth, edit);
            }
        },
        SectionEdit::Output(edit) => {
            edit_output(&mut config.output, edit);
        },
    }
}

/// The region a load acts on.
pub open spec fn region_of(load: LoadSpec) -> Option<ShapeSpec> {
    match load {
        LoadSpec::Force { region, .. } => Some(region),
        LoadSpec::Torque { region, .. } => Some(region),
        LoadSpec::Gravity { .. } => None,
    }
}

/// A load with another region; self weight has none.
pub open spec fn load_moved(load: LoadSpec, shape: ShapeSpec) -> LoadSpec {
    match load {
        LoadSpec::Force { region: _, vector } => LoadSpec::Force { region: shape, vector },
        LoadSpec::Torque { region: _, axis_point, axis_dir, magnitude_nmm } => LoadSpec::Torque {
            region: shape,
            axis_point,
            axis_dir,
            magnitude_nmm,
        },
        LoadSpec::Gravity { .. } => load,
    }
}

/// The shape of an object, where the object is there and has one.
pub open spec fn shape_at(config: ConfigView, selection: Selection) -> Option<ShapeSpec> {
    match selection {
        Selection::Domain(index) => if index < config.domain.len() {
            Some(config.domain[index as int].shape)
        } else {
            None
        },
        Selection::Keepout(index) => if index < config.keepout.len() {
            Some(config.keepout[index as int])
        } else {
            None
        },
        Selection::Keepin(index) => if index < config.keepin.len() {
            Some(config.keepin[index as int])
        } else {
            None
        },
        Selection::Support(index) => if index < config.supports.len() {
            Some(config.supports[index as int].region)
        } else {
            None
        },
        Selection::LoadCase(_) => None,
        Selection::Load { case, load } => if case < config.loadcases.len() && load
            < config.loadcases[case as int].loads.len() {
            region_of(config.loadcases[case as int].loads[load as int])
        } else {
            None
        },
    }
}

/// The shape of an object, where the object is there and has one.
pub fn shape_of(config: &Config, selection: Selection) -> (shape: Option<ShapeSpec>)
    ensures
        shape == shape_at(config@, selection),
{
    match selection {
        Selection::Domain(index) => if index < config.domain.len() {
            Some(config.domain[index].shape)
        } else {
            None
        },
        Selection::Keepout(index) => if index < config.keepout.len() {
            Some(config.keepout[index])
        } else {
            None
        },
        Selection::Keepin(index) => if index < config.keepin.len() {
            Some(config.keepin[index])
        } else {
            None
        },
        Selection::Support(index) => if index < config.supports.len() {
            Some(config.supports[index].region)
        } else {
            None
        },
        Selection::LoadCase(_) => None,
        Selection::Load { case, load } => if case < config.loadcases.len() && load
            < config.loadcases[case].loads.len() {
            match config.loadcases[case].loads[load] {
                LoadSpec::Force { region, .. } => Some(region),
                LoadSpec::Torque { region, .. } => Some(region),
                LoadSpec::Gravity { .. } => None,
            }
        } else {
            None
        },
    }
}

/// An object's list entry after one of its rows was used.
pub open spec fn domain_edited(entry: DomainEntry, edit: ObjectEdit) -> DomainEntry {
    match edit {
        ObjectEdit::Operation(op) => DomainEntry { op, ..entry },
        ObjectEdit::Shape(shape, _) => DomainEntry { shape, ..entry },
        _ => entry,
    }
}

/// A region after one of its rows was used.
pub open spec fn region_edited(region: ShapeSpec, edit: ObjectEdit) -> ShapeSpec {
    match edit {
        ObjectEdit::Shape(shape, _) => shape,
        _ => region,
    }
}

/// A support after one of its rows was used.
pub open spec fn support_edited(support: SupportView, edit: ObjectEdit) -> SupportView {
    match edit {
        ObjectEdit::Direction(axis, on) => SupportView {
            directions: directions_toggled(support.directions, axis, on),
            ..support
        },
        ObjectEdit::Shape(shape, _) => SupportView { region: shape, ..support },
        _ => support,
    }
}

/// A load case after one of its rows was used.
pub open spec fn case_edited(case: LoadCaseView, edit: ObjectEdit) -> LoadCaseView {
    match edit {
        ObjectEdit::CaseName(name) => LoadCaseView { name: name@, ..case },
        ObjectEdit::CaseWeight(weight) => LoadCaseView { weight, ..case },
        _ => case,
    }
}

/// A load after one of its rows was used.
pub open spec fn load_row_edited(load: LoadSpec, edit: ObjectEdit) -> LoadSpec {
    match edit {
        ObjectEdit::Load(edit) => load_edited(load, edit),
        ObjectEdit::Shape(shape, _) => load_moved(load, shape),
        _ => load,
    }
}

/// A configuration after a row of one of its objects was used. A row the object
/// does not have, and a row of an object that is not there, write nothing.
pub open spec fn object_edited(
    config: ConfigView,
    selection: Selection,
    edit: ObjectEdit,
) -> ConfigView {
    match selection {
        Selection::Domain(index) => if index < config.domain.len() {
            ConfigView {
                domain: config.domain.update(
                    index as int,
                    domain_edited(config.domain[index as int], edit),
                ),
                ..config
            }
        } else {
            config
        },
        Selection::Keepout(index) => if index < config.keepout.len() {
            ConfigView {
                keepout: config.keepout.update(
                    index as int,
                    region_edited(config.keepout[index as int], edit),
                ),
                ..config
            }
        } else {
            config
        },
        Selection::Keepin(index) => if index < config.keepin.len() {
            ConfigView {
                keepin: config.keepin.update(
                    index as int,
                    region_edited(config.keepin[index as int], edit),
                ),
                ..config
            }
        } else {
            config
        },
        Selection::Support(index) => if index < config.supports.len() {
            ConfigView {
                supports: config.supports.update(
                    index as int,
                    support_edited(config.supports[index as int], edit),
                ),
                ..config
            }
        } else {
            config
        },
        Selection::LoadCase(index) => if index < config.loadcases.len() {
            ConfigView {
                loadcases: config.loadcases.update(
                    index as int,
                    case_edited(config.loadcases[index as int], edit),
                ),
                ..config
            }
        } else {
            config
        },
        Selection::Load { case, load } => if case < config.loadcases.len() && load
            < config.loadcases[case as int].loads.len() {
            let of = config.loadcases[case as int];
            ConfigView {
                loadcases: config.loadcases.update(
                    case as int,
                    LoadCaseView {
                        loads: of.loads.update(
                            load as int,
                            load_row_edited(of.loads[load as int], edit),
                        ),
                        ..of
                    },
                ),
                ..config
            }
        } else {
            config
        },
    }
}

fn edit_domain(entry: DomainEntry, edit: &ObjectEdit) -> (after: DomainEntry)
    ensures
        after == domain_edited(entry, *edit),
{
    match edit {
        ObjectEdit::Operation(op) => DomainEntry { shape: entry.shape, op: *op },
        ObjectEdit::Shape(shape, _) => DomainEntry { shape: *shape, op: entry.op },
        _ => entry,
    }
}

fn edit_region(region: ShapeSpec, edit: &ObjectEdit) -> (after: ShapeSpec)
    ensures
        after == region_edited(region, *edit),
{
    match edit {
        ObjectEdit::Shape(shape, _) => *shape,
        _ => region,
    }
}

fn edit_support(support: SupportSpec, edit: &ObjectEdit) -> (after: SupportSpec)
    ensures
        after@ == support_edited(support@, *edit),
{
    match edit {
        ObjectEdit::Direction(axis, on) => SupportSpec {
            region: support.region,
            directions: toggle_direction(support.directions, *axis, *on),
        },
        ObjectEdit::Shape(shape, _) => SupportSpec {
            region: *shape,
            directions: support.directions,
        },
        _ => support,
    }
}

fn edit_case(case: LoadCase, edit: &ObjectEdit) -> (after: LoadCase)
    ensures
        after@ == case_edited(case@, *edit),
{
    match edit {
        ObjectEdit::CaseName(name) => LoadCase {
            name: name.clone(),
            weight: case.weight,
            loads: case.loads,
        },
        ObjectEdit::CaseWeight(weight) => LoadCase {
            name: case.name,
            weight: *weight,
            loads: case.loads,
        },
        _ => case,
    }
}

fn edit_load_row(load: LoadSpec, edit: &ObjectEdit) -> (after: LoadSpec)
    ensures
        after == load_row_edited(load, *edit),
{
    match edit {
        ObjectEdit::Load(edit) => edit_load(load, *edit),
        ObjectEdit::Shape(shape, _) => match load {
            LoadSpec::Force { region: _, vector } => LoadSpec::Force { region: *shape, vector },
            LoadSpec::Torque { region: _, axis_point, axis_dir, magnitude_nmm } => {
                LoadSpec::Torque { region: *shape, axis_point, axis_dir, magnitude_nmm }
            },
            LoadSpec::Gravity { .. } => load,
        },
        _ => load,
    }
}

/// Use a row of an object.
pub fn edit_object(config: &mut Config, selection: Selection, edit: &ObjectEdit)
    ensures
        final(config)@ == object_edited(old(config)@, selection, *edit),
{
    let ghost before = config@;
    match selection {
        Selection::Domain(index) => {
            if index < config.domain.len() {
                let after = edit_domain(config.domain[index], edit);
                config.domain.set(index, after);
            }
        },
        Selection::Keepout(index) => {
            if index < config.keepout.len() {
                let after = edit_region(config.keepout[index], edit);
                config.keepout.set(index, after);
            }
        },
        Selection::Keepin(index) => {
            if index < config.keepin.len() {
                let after = edit_region(config.keepin[index], edit);
                config.keepin.set(index, after);
            }
        },
        Selection::Support(index) => {
            if index < config.supports.len() {
                let after = edit_support(config.supports[index].copy(), edit);
                config.supports.set(index, after);
                assert(config@.supports =~= object_edited(before, selection, *edit).supports);
            }
        },
        Selection::LoadCase(index) => {
            if index < config.loadcases.len() {
                let after = edit_case(config.loadcases[index].copy(), edit);
                config.loadcases.set(index, after);
                assert(config@.loadcases =~= object_edited(before, selection, *edit).loadcases);
            }
        },
        Selection::Load { case, load } => {
            if case < config.loadcases.len() && load < config.loadcases[case].loads.len() {
                let mut of = config.loadcases[case].copy();
                let after = edit_load_row(of.loads[load], edit);
                of.loads.set(load, after);
                config.loadcases.set(case, of);
                assert(config@.loadcases =~= object_edited(before, selection, *edit).loadcases);
            }
        },
    }
}

/// A configuration after a row of the panel was used.
pub open spec fn row_edited(
    config: ConfigView,
    edit: RowEdit,
    presets: Seq<MaterialPreset>,
) -> ConfigView {
    match edit {
        RowEdit::Section(edit) => section_edited(config, edit, presets),
        RowEdit::Object(selection, edit) => object_edited(config, selection, edit),
        RowEdit::Reset(section, smallest) => section_reset(section, config, smallest),
    }
}

/// A document after the bookkeeping of a widget: a change is a step that can be
/// undone.
pub open spec fn recorded(state: StateView, used: Usage) -> StateView {
    match used {
        Usage::Gesture(gesture) => gestured(state, gesture),
        Usage::Once(widget) => edit_ended(edit_begun(state, widget), widget),
    }
}

/// A document after a row of the panel was used.
pub open spec fn row_used(
    state: StateView,
    used: Usage,
    edit: RowEdit,
    presets: Seq<MaterialPreset>,
) -> StateView {
    let booked = recorded(state, used);
    if wrote(used) {
        StateView { config: row_edited(booked.config, edit, presets), ..booked }
    } else {
        booked
    }
}

/// True when a row put a shape elsewhere than it was asked to.
pub open spec fn moved(edit: RowEdit) -> bool {
    edit matches RowEdit::Object(_, ObjectEdit::Shape(_, true))
}

/// Use a row of the panel: record what its widget did, and write what came of it.
/// Answers whether anything did.
///
/// The step that leads back is recorded before anything is written, so it holds
/// the document as it was.
pub fn use_row(
    state: &mut EditorState,
    field: &mut Field,
    used: Usage,
    edit: RowEdit,
    presets: &Vec<MaterialPreset>,
) -> (changed: bool)
    requires
        presets@.len() > 0,
    ensures
        changed == wrote(used),
        final(state)@ == row_used(old(state)@, used, edit, presets@),
        *final(field) == (Field {
            touched: old(field).touched || wrote(used),
            clamped: old(field).clamped || (wrote(used) && moved(edit)),
            ..*old(field)
        }),
{
    let changed = match used {
        Usage::Gesture(gesture) => field.apply(state, gesture),
        Usage::Once(widget) => {
            field.choose_once(state, widget);
            true
        },
    };
    if changed {
        let config = state.config_mut();
        match edit {
            RowEdit::Section(edit) => {
                edit_section(config, edit, presets);
            },
            RowEdit::Object(selection, edit) => {
                edit_object(config, selection, &edit);
                if let ObjectEdit::Shape(_, true) = edit {
                    field.clamped = true;
                }
            },
            RowEdit::Reset(section, smallest) => {
                section.reset(config, smallest);
            },
        }
    }
    changed
}

/// Whatever a row of the panel writes, using it is one undo step, and that step
/// leads back to the document as it was.
pub proof fn law_a_row_is_one_undo_step(
    state: StateView,
    used: Usage,
    edit: RowEdit,
    presets: Seq<MaterialPreset>,
)
    requires
        wrote(used),
        state.interaction != Some(widget_of(used)),
    ensures
        ({
            let after = row_used(state, used, edit, presets);
            &&& after.undo == state.undo.push(state.config)
            &&& after.redo.len() == 0
            &&& undone(after).config == state.config
            &&& undone(after).undo == state.undo
        }),
{
    let after = row_used(state, used, edit, presets);
    assert(after.undo.drop_last() =~= state.undo);
}

/// A widget that is held on to goes on writing into the step it began: no further
/// one is recorded until it is let go.
pub proof fn law_a_held_widget_records_no_further_step(
    state: StateView,
    gesture: Gesture,
    edit: RowEdit,
    presets: Seq<MaterialPreset>,
)
    requires
        gesture.changed,
        state.interaction == Some(gesture.widget),
    ensures
        ({
            let after = row_used(state, Usage::Gesture(gesture), edit, presets);
            &&& after.undo == state.undo
            &&& after.config == row_edited(state.config, edit, presets)
            &&& after.interaction == (if gesture.drag_stopped || gesture.lost_focus {
                None
            } else {
                state.interaction
            })
        }),
{
}

/// A widget that nobody changed writes nothing, whatever its row would write.
pub proof fn law_a_row_nobody_changed_writes_nothing(
    state: StateView,
    used: Usage,
    edit: RowEdit,
    presets: Seq<MaterialPreset>,
)
    requires
        !wrote(used),
    ensures
        ({
            let after = row_used(state, used, edit, presets);
            &&& after.config == state.config
            &&& after.undo == state.undo
            &&& after.redo == state.redo
            &&& after.saved == state.saved
        }),
{
}

/// A row of a section writes that section and nothing else: no object is touched,
/// and where a run writes is never one of them. The one exception is the engine,
/// which takes a growth table it has no use for along.
pub proof fn law_a_row_writes_its_own_section(
    config: ConfigView,
    edit: SectionEdit,
    presets: Seq<MaterialPreset>,
)
    ensures
        ({
            let after = section_edited(config, edit, presets);
            let section = section_of(edit);
            &&& after.name == config.name
            &&& after.domain == config.domain
            &&& after.keepout == config.keepout
            &&& after.keepin == config.keepin
            &&& after.supports == config.supports
            &&& after.loadcases == config.loadcases
            &&& after.output.stl_path == config.output.stl_path
            &&& after.output.stress_json == config.output.stress_json
            &&& section != Section::Engine ==> after.engine == config.engine
                && after.project_engine == config.project_engine && after.solver == config.solver
            &&& section != Section::Resolution ==> after.resolution == config.resolution
            &&& section != Section::Material ==> after.material == config.material
            &&& section != Section::Optimization ==> after.optimization == config.optimization
            &&& section != Section::Output ==> after.output == config.output
            &&& section != Section::Growth ==> after.growth == config.growth || (edit is Engine
                && after.growth is None)
        }),
{
}

/// A row of an object writes that object and nothing else: every other object
/// stays what it was and where it was in its list, and no section is touched.
pub proof fn law_a_row_writes_its_own_object(
    config: ConfigView,
    selection: Selection,
    edit: ObjectEdit,
    other: Selection,
)
    requires
        other != selection,
    ensures
        ({
            let after = object_edited(config, selection, edit);
            &&& shape_at(after, other) == shape_at(config, other)
            &&& after.domain.len() == config.domain.len()
            &&& after.keepout.len() == config.keepout.len()
            &&& after.keepin.len() == config.keepin.len()
            &&& after.supports.len() == config.supports.len()
            &&& after.loadcases.len() == config.loadcases.len()
            &&& forall|case: int|
                0 <= case < config.loadcases.len() ==> (#[trigger] after.loadcases[case]).loads.len()
                    == config.loadcases[case].loads.len()
            &&& after == (ConfigView {
                domain: after.domain,
                keepout: after.keepout,
                keepin: after.keepin,
                supports: after.supports,
                loadcases: after.loadcases,
                ..config
            })
        }),
{
}

/// A shape that was written is the shape that is read: of an object that has one,
/// the one it was given.
pub proof fn law_a_written_shape_is_read_back(
    config: ConfigView,
    selection: Selection,
    shape: ShapeSpec,
    clamped: bool,
)
    ensures
        shape_at(object_edited(config, selection, ObjectEdit::Shape(shape, clamped)), selection)
            == (if shape_at(config, selection) is Some {
            Some(shape)
        } else {
            None
        }),
{
}

/// Resetting a section forgets whatever its rows wrote. What it keeps is the mass
/// target, which has no default, and the smallest feature where no grid says how
/// small one can be; and a table a row wrote into the file stays there, empty.
pub proof fn law_a_reset_forgets_what_a_row_wrote(
    config: ConfigView,
    edit: SectionEdit,
    presets: Seq<MaterialPreset>,
    smallest: Option<Scalar>,
)
    ensures
        ({
            let section = section_of(edit);
            let kept = section_reset(section, config, smallest);
            let after = section_reset(section, section_edited(config, edit, presets), smallest);
            match edit {
                SectionEdit::Engine(_)
                | SectionEdit::Resolution(_)
                | SectionEdit::Material(_)
                | SectionEdit::Output(_) => after == kept,
                SectionEdit::Backend(_) | SectionEdit::Tolerance(_) => {
                    &&& after == (ConfigView { solver: after.solver, ..kept })
                    &&& config.solver is Some ==> after == kept
                    &&& after.solver matches Some(table) && table.backend is None
                        && table.tolerance is None
                },
                SectionEdit::Optimization(OptimizationEdit::MassFraction(value)) => {
                    after.optimization.mass_fraction == value
                },
                SectionEdit::Optimization(OptimizationEdit::MinFeature(value)) => {
                    &&& smallest is Some ==> after == kept
                    &&& smallest is None ==> after.optimization.min_feature_mm == value
                },
                SectionEdit::Optimization(_) => after == kept,
                SectionEdit::Growth(_) => {
                    &&& after == (ConfigView { growth: after.growth, ..kept })
                    &&& config.growth is Some ==> after == kept
                },
            }
        }),
{
}

} // verus!
