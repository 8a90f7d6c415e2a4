//! The document under edit: its undo history, the sections that can be put back
//! to their defaults, and the bookkeeping around one widget.

use vstd::prelude::*;
use vstd::string::*;

use crate::config::{
    growth_of, text_of, Config, ConfigView, GrowthConfig, GrowthView, MaterialConfig,
    MaterialView, OptimizationConfig, OutputConfig, OutputView, ResolutionConfig, SolverConfig,
    UpdateScheme,
};
use crate::constants::{
    DEFAULT_ENGINE, DEFAULT_MATERIAL_PRESET, GROWTH_ENGINE, VIEW_EDIT_DEFAULT_VOXEL_BITS,
    VIEW_EDIT_DEFAULT_VOXEL_TEXT,
};
use crate::sameness::{
    same_config, same_growth, same_list, same_material, same_number, same_optimization,
    same_optional_growth, same_optional_solver, same_output, same_resolution, same_solver,
};
use crate::scalar::Scalar;

verus! {

/// The document under edit, with the steps that lead back from it.
#[derive(Debug)]
pub struct EditorState {
    config: Config,
    undo: Vec<Config>,
    redo: Vec<Config>,
    interaction: Option<u64>,
    saved: Config,
    built_voxel_mm: Option<Scalar>,
}

/// What a document under edit is at one moment.
#[verifier::ext_equal]
pub struct StateView {
    /// The configuration on screen.
    pub config: ConfigView,
    /// What undoing leads back to, the next one last.
    pub undo: Seq<ConfigView>,
    /// What redoing leads on to, the next one last.
    pub redo: Seq<ConfigView>,
    /// The widget whose interaction is open.
    pub interaction: Option<u64>,
    /// The configuration as it was last written.
    pub saved: ConfigView,
    /// Voxel size of the grid the last successful build laid out.
    pub built_voxel_mm: Option<Scalar>,
}

impl View for EditorState {
    type V = StateView;

    closed spec fn view(&self) -> StateView {
        StateView {
            config: self.config@,
            undo: self.undo@.map_values(|c: Config| c@),
            redo: self.redo@.map_values(|c: Config| c@),
            interaction: self.interaction,
            saved: self.saved@,
            built_voxel_mm: self.built_voxel_mm,
        }
    }
}

/// The voxel size a document is really solved on: the one it names, and otherwise
/// that of the grid the last successful build laid out.
pub open spec fn voxel_of(state: StateView) -> Option<Scalar> {
    match state.config.resolution.voxel_size_mm {
        Some(voxel_mm) => Some(voxel_mm),
        None => state.built_voxel_mm,
    }
}

/// A document after a widget opened an interaction: a step is put on the undo
/// history, unless the interaction is the one already open.
pub open spec fn edit_begun(state: StateView, widget: u64) -> StateView {
    if state.interaction == Some(widget) {
        state
    } else {
        StateView {
            undo: state.undo.push(state.config),
            redo: seq![],
            interaction: Some(widget),
            ..state
        }
    }
}

/// A document after a widget was let go.
pub open spec fn edit_ended(state: StateView, widget: u64) -> StateView {
    if state.interaction == Some(widget) {
        StateView { interaction: None, ..state }
    } else {
        state
    }
}

/// A document one step back, where there is one.
pub open spec fn undone(state: StateView) -> StateView {
    if state.undo.len() == 0 {
        state
    } else {
        StateView {
            config: state.undo.last(),
            undo: state.undo.drop_last(),
            redo: state.redo.push(state.config),
            interaction: None,
            ..state
        }
    }
}

/// A document one step on again, where there is one.
pub open spec fn redone(state: StateView) -> StateView {
    if state.redo.len() == 0 {
        state
    } else {
        StateView {
            config: state.redo.last(),
            undo: state.undo.push(state.config),
            redo: state.redo.drop_last(),
            interaction: None,
            ..state
        }
    }
}

impl EditorState {
    /// A document as it was read, with nothing to undo.
    pub fn open(config: Config) -> (state: EditorState)
        ensures
            state@ == (StateView {
                config: config@,
                undo: seq![],
                redo: seq![],
                interaction: None,
                saved: config@,
                built_voxel_mm: None,
            }),
    {
        let saved = config.copy();
        let state = EditorState {
            config,
            undo: Vec::new(),
            redo: Vec::new(),
            interaction: None,
            saved,
            built_voxel_mm: None,
        };
        assert(state@.undo =~= Seq::<ConfigView>::empty());
        assert(state@.redo =~= Seq::<ConfigView>::empty());
        state
    }

    /// The configuration on screen.
    pub fn config(&self) -> (config: &Config)
        ensures
            config@ == self@.config,
    {
        &self.config
    }

    /// The configuration on screen, to be written to.
    pub fn config_mut(&mut self) -> (config: &mut Config)
        ensures
            config@ == old(self)@.config,
            final(self)@ == (StateView { config: final(config)@, ..old(self)@ }),
    {
        &mut self.config
    }

    /// Record the grid a successful build laid out.
    pub fn set_built_voxel_mm(&mut self, voxel_mm: Option<Scalar>)
        ensures
            final(self)@ == (StateView { built_voxel_mm: voxel_mm, ..old(self)@ }),
    {
        self.built_voxel_mm = voxel_mm;
    }

    /// Open the interaction of a widget. The first change of it is a step that
    /// can be undone; further ones are part of that step.
    pub fn begin_edit(&mut self, widget: u64)
        ensures
            final(self)@ == edit_begun(old(self)@, widget),
    {
        match self.interaction {
            Some(open) => {
                if open == widget {
                    return;
                }
            },
            None => {},
        }
        let ghost before = self@;
        self.undo.push(self.config.copy());
        self.redo = Vec::new();
        self.interaction = Some(widget);
        assert(self@.undo =~= before.undo.push(before.config));
        assert(self@.redo =~= Seq::<ConfigView>::empty());
    }

    /// Close the interaction of a widget, if it is the open one.
    pub fn end_edit(&mut self, widget: u64)
        ensures
            final(self)@ == edit_ended(old(self)@, widget),
    {
        match self.interaction {
            Some(open) => {
                if open == widget {
                    self.interaction = None;
                }
            },
            None => {},
        }
    }

    /// Go one step back. Returns whether there was one.
    pub fn undo(&mut self) -> (stepped: bool)
        ensures
            stepped == (old(self)@.undo.len() > 0),
            final(self)@ == undone(old(self)@),
    {
        let ghost before = self@;
        match self.undo.pop() {
            None => {
                assert(self@.undo =~= before.undo);
                false
            },
            Some(config) => {
                let mut config = config;
                core::mem::swap(&mut self.config, &mut config);
                self.redo.push(config);
                self.interaction = None;
                assert(self@.undo =~= before.undo.drop_last());
                assert(self@.redo =~= before.redo.push(before.config));
                true
            },
        }
    }

    /// Go one step on again. Returns whether there was one.
    pub fn redo(&mut self) -> (stepped: bool)
        ensures
            stepped == (old(self)@.redo.len() > 0),
            final(self)@ == redone(old(self)@),
    {
        let ghost before = self@;
        match self.redo.pop() {
            None => {
                assert(self@.redo =~= before.redo);
                false
            },
            Some(config) => {
                let mut config = config;
                core::mem::swap(&mut self.config, &mut config);
                self.undo.push(config);
                self.interaction = None;
                assert(self@.redo =~= before.redo.drop_last());
                assert(self@.undo =~= before.undo.push(before.config));
                true
            },
        }
    }

    /// How many steps can be undone.
    pub fn undo_depth(&self) -> (depth: usize)
        ensures
            depth == self@.undo.len(),
    {
        self.undo.len()
    }

    /// How many steps can be redone.
    pub fn redo_depth(&self) -> (depth: usize)
        ensures
            depth == self@.redo.len(),
    {
        self.redo.len()
    }

    /// True while the configuration on screen is not the one that was written.
    pub fn is_dirty(&self) -> (answer: bool)
        ensures
            answer == !same_config(self@.config, self@.saved),
    {
        !self.config.same(&self.saved)
    }

    /// Record that the configuration on screen was written.
    pub fn mark_saved(&mut self)
        ensures
            final(self)@ == (StateView { saved: old(self)@.config, ..old(self)@ }),
    {
        self.saved = self.config.copy();
    }

    /// The voxel size the configuration on screen is really solved on, when
    /// there is one to be had.
    ///
    /// The key itself when it names one, which is never stale whatever the last
    /// build did, and otherwise the grid the last successful build derived. A
    /// cell target that has never built has no voxel size at all yet, and says
    /// so rather than inventing one.
    pub fn effective_voxel_mm(&self) -> (voxel_mm: Option<Scalar>)
        ensures
            voxel_mm == voxel_of(self@),
    {
        match self.config.resolution.voxel_size_mm {
            Some(voxel_mm) => Some(voxel_mm),
            None => self.built_voxel_mm,
        }
    }

    /// The smallest feature the density filter can resolve on the grid the
    /// configuration on screen is solved on, `at` being what that is at a voxel
    /// size, and nothing where there is no grid yet.
    pub fn smallest_feature<F: FnOnce(Scalar) -> Scalar>(&self, at: F) -> (smallest: Option<Scalar>)
        requires
            forall|voxel_mm: Scalar| #[trigger] at.requires((voxel_mm,)),
        ensures
            match voxel_of(self@) {
                Some(voxel_mm) => smallest matches Some(smallest) && at.ensures(
                    (voxel_mm,),
                    smallest,
                ),
                None => smallest is None,
            },
    {
        match self.effective_voxel_mm() {
            Some(voxel_mm) => Some(at(voxel_mm)),
            None => None,
        }
    }
}

/// What a widget did this frame.
#[derive(Clone, Copy, Debug, PartialEq, Eq, Structural)]
pub struct Gesture {
    /// The widget's own id, which owns the interaction, so two fields on the
    /// same row cannot be mistaken for one another.
    pub widget: u64,
    /// The widget changed its value.
    pub changed: bool,
    /// A drag of the widget ended.
    pub drag_stopped: bool,
    /// The widget lost the focus.
    pub lost_focus: bool,
}

/// The interaction bookkeeping of one panel over one frame.
#[derive(Clone, Copy, Debug, PartialEq, Eq, Structural)]
pub struct Field {
    /// True when any widget of the panel changed a value this frame.
    pub touched: bool,
    /// Whether a shape committed through the panel is kept inside the domain.
    pub containment: bool,
    /// Set when one was, so the panel can say so.
    pub clamped: bool,
}

/// A document after a widget's gesture: a change opens the interaction, letting
/// go closes it.
pub open spec fn gestured(state: StateView, gesture: Gesture) -> StateView {
    let begun = if gesture.changed {
        edit_begun(state, gesture.widget)
    } else {
        state
    };
    if gesture.drag_stopped || gesture.lost_focus {
        edit_ended(begun, gesture.widget)
    } else {
        begun
    }
}

impl Field {
    /// The bookkeeping of a fresh frame.
    pub fn new(containment: bool) -> (field: Field)
        ensures
            field == (Field { touched: false, containment, clamped: false }),
    {
        Field { touched: false, containment, clamped: false }
    }

    /// Record what a widget did. Returns whether it changed anything.
    pub fn apply(&mut self, state: &mut EditorState, gesture: Gesture) -> (changed: bool)
        ensures
            changed == gesture.changed,
            *final(self) == (Field { touched: old(self).touched || gesture.changed, ..*old(self) }),
            final(state)@ == gestured(old(state)@, gesture),
    {
        if gesture.changed {
            state.begin_edit(gesture.widget);
            self.touched = true;
        }
        if gesture.drag_stopped || gesture.lost_focus {
            state.end_edit(gesture.widget);
        }
        gesture.changed
    }

    /// Record a widget that is chosen in one gesture - a dropdown, a button -
    /// and so opens and closes its own interaction.
    pub fn choose_once(&mut self, state: &mut EditorState, widget: u64)
        ensures
            *final(self) == (Field { touched: true, ..*old(self) }),
            final(state)@ == edit_ended(edit_begun(old(state)@, widget), widget),
    {
        state.begin_edit(widget);
        state.end_edit(widget);
        self.touched = true;
    }

    /// True when any widget of this panel changed a value this frame.
    pub fn touched(&self) -> (answer: bool)
        ensures
            answer == self.touched,
    {
        self.touched
    }
}

/// A scalar section of the panel, for the button that puts one back to its
/// defaults.
///
/// The six sections that have defaults to go back to. The objects - the shapes,
/// the supports, the loads - deliberately have no such button: geometry is what
/// the user drew, and there is no default position for a load to return to.
#[derive(Clone, Copy, Debug, PartialEq, Eq, Structural)]
pub enum Section {
    /// `engine`, `[solver]` and the `[growth]` table the engine decides the
    /// legality of.
    Engine,
    /// `[resolution]`.
    Resolution,
    /// `[material]`.
    Material,
    /// `[optimization]` and its three sub-tables.
    Optimization,
    /// `[growth]`, shown under that engine alone.
    Growth,
    /// `[output]`.
    Output,
}

/// A growth table with nothing in it.
pub open spec fn empty_growth() -> GrowthView {
    GrowthView {
        seed: None,
        attractor_per_cm3: None,
        attraction_radius_mm: None,
        kill_radius_mm: None,
        step_mm: None,
        murray_exponent: None,
        max_radius_mm: None,
        max_steps: None,
        prune: None,
        symmetry: None,
    }
}

/// A configuration with one section put back to what a configuration that never
/// mentioned it would run at.
pub open spec fn section_reset(
    section: Section,
    config: ConfigView,
    smallest_feature_mm: Option<Scalar>,
) -> ConfigView {
    match section {
        Section::Engine => ConfigView {
            engine: None,
            project_engine: None,
            growth: None,
            solver: match config.solver {
                Some(_) => Some(SolverConfig { backend: None, tolerance: None }),
                None => None,
            },
            ..config
        },
        Section::Resolution => ConfigView {
            resolution: ResolutionConfig {
                voxel_size_mm: Some(Scalar { bits: VIEW_EDIT_DEFAULT_VOXEL_BITS }),
                target_cells: None,
            },
            ..config
        },
        Section::Material => ConfigView {
            material: MaterialView {
                preset: Some(DEFAULT_MATERIAL_PRESET@),
                youngs_modulus_mpa: None,
                poisson_ratio: None,
                density_g_cm3: None,
                yield_strength_mpa: None,
            },
            ..config
        },
        Section::Optimization => ConfigView {
            optimization: OptimizationConfig {
                mass_fraction: config.optimization.mass_fraction,
                min_feature_mm: match smallest_feature_mm {
                    Some(smallest) => smallest,
                    None => config.optimization.min_feature_mm,
                },
                penalty: None,
                max_iterations: None,
                convergence_tol: None,
                update: None,
                overhang: None,
                wireframe: None,
                local_volume: None,
            },
            ..config
        },
        Section::Growth => ConfigView {
            growth: match config.growth {
                Some(_) => Some(empty_growth()),
                None => None,
            },
            ..config
        },
        Section::Output => ConfigView {
            output: OutputView {
                stl_path: config.output.stl_path,
                iso_level: None,
                smoothing_iterations: None,
                supersample: None,
                voids: None,
                islands: None,
                boundaries: None,
                trim: None,
                trim_stress_fraction: None,
                reinforce: None,
                reinforce_thickness_mm: None,
                stress_json: config.output.stress_json,
            },
            ..config
        },
    }
}

impl Section {
    /// Put this section's keys back to what a configuration that never
    /// mentioned them would run at.
    ///
    /// `smallest_feature_mm` is the smallest feature the density filter can
    /// resolve on the grid the configuration is solved on, which one key needs:
    /// `[optimization] min_feature_mm` is a length rather than a factor, so it
    /// has no fixed default. Without a grid to measure it on it is left where it
    /// is, which is the only honest answer.
    ///
    /// Every coupling the interactive controls honour is honoured here, because
    /// a reset has to land a configuration that still builds: leaving the growth
    /// engine takes the `[growth]` table with it exactly as the engine combo
    /// does, and the resolution goes on carrying exactly one of its two keys.
    ///
    /// A table whose keys are all optional is emptied rather than removed: an
    /// empty table resolves to precisely what no table at all does, and removing
    /// it would take a comment block the file may have had with no key left to
    /// hang on.
    pub fn reset(self, config: &mut Config, smallest_feature_mm: Option<Scalar>)
        ensures
            final(config)@ == section_reset(self, old(config)@, smallest_feature_mm),
    {
        match self {
            Section::Engine => {
                config.engine = None;
                config.project.engine = None;
                // A `[growth]` table is only legal under that engine, and the
                // default engine is not it.
                config.growth = None;
                if config.solver.is_some() {
                    config.solver = Some(SolverConfig { backend: None, tolerance: None });
                }
            },
            Section::Resolution => {
                config.resolution = ResolutionConfig {
                    voxel_size_mm: Some(Scalar { bits: VIEW_EDIT_DEFAULT_VOXEL_BITS }),
                    target_cells: None,
                };
            },
            Section::Material => {
                config.material = MaterialConfig {
                    preset: Some(DEFAULT_MATERIAL_PRESET.to_owned()),
                    youngs_modulus_mpa: None,
                    poisson_ratio: None,
                    density_g_cm3: None,
                    yield_strength_mpa: None,
                };
            },
            Section::Optimization => {
                // The mass target is design intent and there is no default to
                // invent for it: how heavy the part may be is what the user
                // came to decide. It keeps its value, and the button says so.
                let mass_fraction = config.optimization.mass_fraction;
                let min_feature_mm = match smallest_feature_mm {
                    Some(smallest) => smallest,
                    None => config.optimization.min_feature_mm,
                };
                config.optimization = OptimizationConfig {
                    mass_fraction,
                    min_feature_mm,
                    penalty: None,
                    max_iterations: None,
                    convergence_tol: None,
                    update: None,
                    overhang: None,
                    wireframe: None,
                    local_volume: None,
                };
            },
            Section::Growth => {
                if config.growth.is_some() {
                    config.growth = Some(GrowthConfig {
                        seed: None,
                        attractor_per_cm3: None,
                        attraction_radius_mm: None,
                        kill_radius_mm: None,
                        step_mm: None,
                        murray_exponent: None,
                        max_radius_mm: None,
                        max_steps: None,
                        prune: None,
                        symmetry: None,
                    });
                }
            },
            Section::Output => {
                // The two destinations are left where they are: where a run
                // writes is a decision about the project and not about the
                // geometry. A reset puts properties back; it does not move
                // deliverables.
                config.output.iso_level = None;
                config.output.smoothing_iterations = None;
                config.output.supersample = None;
                config.output.voids = None;
                config.output.islands = None;
                config.output.boundaries = None;
                config.output.trim = None;
                config.output.trim_stress_fraction = None;
                config.output.reinforce = None;
                config.output.reinforce_thickness_mm = None;
            },
        }
    }

    /// What the button says on hover: what it puts back, what goes off with it,
    /// and that undoing it is one step.
    pub fn tooltip(self) -> (text: String)
        ensures
            text@ == tooltip_of(self),
    {
        match self {
            Section::Engine => {
                let mut text = TOOLTIP_ENGINE_HEAD.to_owned();
                text.append(DEFAULT_ENGINE);
                text.append(TOOLTIP_ENGINE_TAIL);
                text
            },
            Section::Resolution => {
                let mut text = TOOLTIP_RESOLUTION_HEAD.to_owned();
                text.append(VIEW_EDIT_DEFAULT_VOXEL_TEXT);
                text.append(TOOLTIP_RESOLUTION_TAIL);
                text
            },
            Section::Material => {
                let mut text = TOOLTIP_MATERIAL_HEAD.to_owned();
                text.append(DEFAULT_MATERIAL_PRESET);
                text.append(TOOLTIP_MATERIAL_TAIL);
                text
            },
            Section::Optimization => TOOLTIP_OPTIMIZATION.to_owned(),
            Section::Growth => TOOLTIP_GROWTH.to_owned(),
            Section::Output => TOOLTIP_OUTPUT.to_owned(),
        }
    }
}

/// The engine section's explanation, up to the engine's name.
pub const TOOLTIP_ENGINE_HEAD: &'static str = "put the engine section back to its defaults: the ";

/// The engine section's explanation, behind the engine's name.
pub const TOOLTIP_ENGINE_TAIL: &'static str = " engine, and the solver backend and tolerance a run picks for itself. Leaving the growth engine takes the [growth] table with it, exactly as switching engine by hand does, so what a reset lands on still builds. One click is one undo step";

/// The resolution section's explanation, up to the voxel size.
pub const TOOLTIP_RESOLUTION_HEAD: &'static str = "put the resolution back to its default: a voxel size of ";

/// The resolution section's explanation, behind the voxel size.
pub const TOOLTIP_RESOLUTION_TAIL: &'static str = " mm, and no cell target. A configuration carries exactly one of the two, so the reset writes one and takes the other out. One click is one undo step";

/// The material section's explanation, up to the preset's name.
pub const TOOLTIP_MATERIAL_HEAD: &'static str = "put the material back to the ";

/// The material section's explanation, behind the preset's name.
pub const TOOLTIP_MATERIAL_TAIL: &'static str = " preset and drop any custom properties with it: a configuration carries a preset or four values of your own, never both. One click is one undo step";

/// The optimization section's explanation.
pub const TOOLTIP_OPTIMIZATION: &'static str = "put the optimization controls back to their defaults, and switch the overhang constraint, the guide wireframe and the local volume cap off with them - a sub-table that is not there is a feature that is not running. Two keys are not touched that way: mass fraction is yours and keeps its value, and min feature returns to the smallest the filter can resolve at this voxel size. One click is one undo step";

/// The growth section's explanation.
pub const TOOLTIP_GROWTH: &'static str = "put every [growth] key back to its default, symmetry included, so the table resolves to exactly what the engine would pick on its own and the four lengths follow min feature again. One click is one undo step";

/// The output section's explanation.
pub const TOOLTIP_OUTPUT: &'static str = "put every [output] control back to its default: the iso level, the smoothing and the supersampling, and the void, island, boundary, trim and reinforcement policies, which go back to warn, cull, exact and off. Both paths stay as they are - the stl and the stress report are where this project writes, which is not a property of the part. One click is one undo step";

/// What a section's button says on hover.
pub open spec fn tooltip_of(section: Section) -> Seq<char> {
    match section {
        Section::Engine => TOOLTIP_ENGINE_HEAD@ + DEFAULT_ENGINE@ + TOOLTIP_ENGINE_TAIL@,
        Section::Resolution => TOOLTIP_RESOLUTION_HEAD@ + VIEW_EDIT_DEFAULT_VOXEL_TEXT@
            + TOOLTIP_RESOLUTION_TAIL@,
        Section::Material => TOOLTIP_MATERIAL_HEAD@ + DEFAULT_MATERIAL_PRESET@
            + TOOLTIP_MATERIAL_TAIL@,
        Section::Optimization => TOOLTIP_OPTIMIZATION@,
        Section::Growth => TOOLTIP_GROWTH@,
        Section::Output => TOOLTIP_OUTPUT@,
    }
}

/// Whether `section` already holds exactly what a reset would leave it holding.
///
/// The predicate is the reset itself, applied to a copy: a section is at its
/// defaults exactly when resetting it would change nothing. There is no second
/// statement of what those defaults are for the first to drift from.
pub fn at_defaults(state: &EditorState, section: Section, smallest_feature_mm: Option<Scalar>) -> (answer:
    bool)
    ensures
        answer == same_config(
            section_reset(section, state@.config, smallest_feature_mm),
            state@.config,
        ),
{
    let mut probe = state.config.copy();
    section.reset(&mut probe, smallest_feature_mm);
    probe.same(&state.config)
}

/// Everything one click of a section's reset button does.
///
/// The interaction is opened and closed in the same gesture - a button has no
/// value to drag - so the whole section going back to its defaults is one undo
/// step, and one undo puts every key of it back exactly as it was.
pub fn reset_section(
    state: &mut EditorState,
    section: Section,
    widget: u64,
    smallest_feature_mm: Option<Scalar>,
)
    ensures
        final(state)@ == section_clicked(
            old(state)@,
            section,
            widget,
            smallest_feature_mm,
        ),
{
    state.begin_edit(widget);
    section.reset(&mut state.config, smallest_feature_mm);
    state.end_edit(widget);
}

/// A document after one click of a section's reset button.
pub open spec fn section_clicked(
    state: StateView,
    section: Section,
    widget: u64,
    smallest_feature_mm: Option<Scalar>,
) -> StateView {
    let begun = edit_begun(state, widget);
    edit_ended(
        StateView {
            config: section_reset(section, begun.config, smallest_feature_mm),
            ..begun
        },
        widget,
    )
}

/// One click on a reset is one undo step, and that step puts the whole
/// configuration back exactly as it was.
pub proof fn law_one_undo_puts_a_reset_back(
    state: StateView,
    section: Section,
    widget: u64,
    smallest_feature_mm: Option<Scalar>,
)
    requires
        state.interaction != Some(widget),
    ensures
        ({
            let clicked = section_clicked(state, section, widget, smallest_feature_mm);
            &&& clicked.undo.len() == state.undo.len() + 1
            &&& undone(clicked).config == state.config
            &&& undone(clicked).undo == state.undo
            &&& clicked.interaction is None
        }),
{
    let clicked = section_clicked(state, section, widget, smallest_feature_mm);
    assert(clicked.undo.drop_last() =~= state.undo);
}

/// However many values one widget is dragged through, letting it go leaves one
/// undo step, and that step leads back to before the drag.
pub proof fn law_a_drag_is_one_undo_step(
    state: StateView,
    widget: u64,
    written: Seq<ConfigView>,
)
    requires
        state.interaction != Some(widget),
    ensures
        ({
            let dragged = edit_ended(dragged_through(state, widget, written), widget);
            written.len() > 0 ==> dragged.undo == state.undo.push(state.config)
                && undone(dragged).config == state.config && undone(dragged).undo == state.undo
        }),
    decreases written.len(),
{
    if written.len() > 0 {
        lemma_dragged(state, widget, written);
        let dragged = edit_ended(dragged_through(state, widget, written), widget);
        assert(dragged.undo.drop_last() =~= state.undo);
    }
}

/// A document whose widget wrote one value after another.
pub open spec fn dragged_through(
    state: StateView,
    widget: u64,
    written: Seq<ConfigView>,
) -> StateView
    decreases written.len(),
{
    if written.len() == 0 {
        state
    } else {
        let before = dragged_through(state, widget, written.drop_last());
        StateView { config: written.last(), ..edit_begun(before, widget) }
    }
}

proof fn lemma_dragged(state: StateView, widget: u64, written: Seq<ConfigView>)
    requires
        state.interaction != Some(widget),
        written.len() > 0,
    ensures
        dragged_through(state, widget, written) == (StateView {
            config: written.last(),
            undo: state.undo.push(state.config),
            redo: seq![],
            interaction: Some(widget),
            ..state
        }),
    decreases written.len(),
{
    if written.len() == 1 {
        assert(dragged_through(state, widget, written.drop_last()) == state);
    } else {
        lemma_dragged(state, widget, written.drop_last());
    }
}

/// Redoing what was undone leads back to where undoing started.
pub proof fn law_redo_takes_back_an_undo(state: StateView)
    requires
        state.undo.len() > 0,
    ensures
        redone(undone(state)).config == state.config,
        redone(undone(state)).undo == state.undo,
        redone(undone(state)).redo == state.redo,
{
    assert(redone(undone(state)).undo =~= state.undo);
    assert(redone(undone(state)).redo =~= state.redo);
}

/// A reset touches its own section and nothing else: every table that is not its
/// own stays as it was, the objects above all. The one exception is written into
/// the engine's reset, because a growth table under any other engine is a
/// configuration that does not build.
pub proof fn law_a_reset_leaves_the_rest_alone(
    section: Section,
    config: ConfigView,
    smallest_feature_mm: Option<Scalar>,
)
    ensures
        ({
            let after = section_reset(section, config, smallest_feature_mm);
            &&& after.name == config.name
            &&& after.domain == config.domain
            &&& after.keepout == config.keepout
            &&& after.keepin == config.keepin
            &&& after.supports == config.supports
            &&& after.loadcases == config.loadcases
            &&& after.output.stl_path == config.output.stl_path
            &&& after.output.stress_json == config.output.stress_json
            &&& after.optimization.mass_fraction == config.optimization.mass_fraction
            &&& section != Section::Engine ==> after.engine == config.engine
                && after.project_engine == config.project_engine && after.solver == config.solver
            &&& section != Section::Resolution ==> after.resolution == config.resolution
            &&& section != Section::Material ==> after.material == config.material
            &&& section != Section::Optimization ==> after.optimization == config.optimization
            &&& section != Section::Output ==> after.output == config.output
            &&& section != Section::Growth && section != Section::Engine ==> after.growth
                == config.growth
        }),
{
}

/// Resetting twice is resetting once, and a section that was just reset is at
/// its defaults. A configuration that holds something that is not a number is
/// the exception: it is not even the same as itself.
pub proof fn law_a_reset_section_is_at_its_defaults(
    section: Section,
    config: ConfigView,
    smallest_feature_mm: Option<Scalar>,
)
    requires
        same_config(config, config),
        same_number(smallest_feature_mm, smallest_feature_mm),
    ensures
        ({
            let after = section_reset(section, config, smallest_feature_mm);
            &&& section_reset(section, after, smallest_feature_mm) == after
            &&& same_config(section_reset(section, after, smallest_feature_mm), after)
        }),
{
}

/// The smallest feature a document's own grid resolves, `at` being what that is at a
/// voxel size.
pub open spec fn smallest_of(state: StateView, at: spec_fn(Scalar) -> Scalar) -> Option<Scalar> {
    match voxel_of(state) {
        Some(voxel_mm) => Some(at(voxel_mm)),
        None => None,
    }
}

/// Right after a section of a document was reset it is at its defaults, measured on
/// the grid the document has then, and resetting it once more changes no key. The
/// document holds no value that is not a number, and the smallest feature of a grid
/// whose voxel size is a number is one.
pub proof fn law_a_document_is_at_its_defaults_after_a_reset(
    state: StateView,
    section: Section,
    widget: u64,
    at: spec_fn(Scalar) -> Scalar,
)
    requires
        same_config(state.config, state.config),
        state.built_voxel_mm matches Some(voxel_mm) ==> !voxel_mm.nan(),
        forall|voxel_mm: Scalar| !voxel_mm.nan() ==> !(#[trigger] at(voxel_mm)).nan(),
    ensures
        ({
            let after = section_clicked(state, section, widget, smallest_of(state, at));
            &&& same_config(
                section_reset(section, after.config, smallest_of(after, at)),
                after.config,
            )
            &&& section_clicked(after, section, widget, smallest_of(after, at)).config
                == after.config
        }),
{
    let smallest = smallest_of(state, at);
    let after = section_clicked(state, section, widget, smallest);
    assert(after.config == section_reset(section, state.config, smallest));
    if section != Section::Resolution {
        assert(smallest_of(after, at) == smallest);
    }
    assert(same_number(smallest, smallest));
    law_a_reset_section_is_at_its_defaults(section, state.config, smallest);
    if section == Section::Resolution {
        law_a_reset_section_is_at_its_defaults(section, state.config, None);
    }
}

/// The couplings between the keys of a configuration that a run insists on: one
/// of the two resolution keys, a preset or four values of one's own, a growth
/// table under that engine alone, the local volume cap under the scheme that
/// prices it, and no overhang constraint under the growth engine.
pub open spec fn couplings_hold(config: ConfigView) -> bool {
    let material = config.material;
    &&& (config.resolution.voxel_size_mm is Some) != (config.resolution.target_cells is Some)
    &&& if material.preset is Some {
        material.youngs_modulus_mpa is None && material.poisson_ratio is None
            && material.density_g_cm3 is None && material.yield_strength_mpa is None
    } else {
        material.youngs_modulus_mpa is Some && material.poisson_ratio is Some
            && material.density_g_cm3 is Some && material.yield_strength_mpa is Some
    }
    &&& config.growth is Some ==> grows(config)
    &&& config.optimization.local_volume is Some ==> config.optimization.update == Some(
        UpdateScheme::Mma,
    )
    &&& config.optimization.overhang is Some ==> !grows(config)
}

/// True when the configuration names the growth engine, wherever it keeps the
/// key.
pub open spec fn grows(config: ConfigView) -> bool {
    match config.project_engine {
        Some(engine) => engine == GROWTH_ENGINE@,
        None => config.engine == Some(GROWTH_ENGINE@),
    }
}

/// A reset lands a configuration whose couplings hold, from every state in which
/// they held.
pub proof fn law_a_reset_keeps_the_couplings(
    section: Section,
    config: ConfigView,
    smallest_feature_mm: Option<Scalar>,
)
    requires
        couplings_hold(config),
    ensures
        couplings_hold(section_reset(section, config, smallest_feature_mm)),
{
}

} // verus!
