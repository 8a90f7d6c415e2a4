//! The scalar sections of the editor's panel: which rows each one offers, and
//! what each row writes into the configuration.

use vstd::prelude::*;
use vstd::string::*;

use crate::config::{
    growth_of, list_of, symmetry_of, text_of, Axis, BoundaryFidelity, BuildDirection, Config,
    ConfigView, GrowthConfig, GrowthView, IslandPolicy, LocalVolumeConfig, MaterialConfig,
    MaterialView, OptimizationConfig, OutputConfig, OutputView, OverhangConfig, ReinforcePolicy,
    ResolutionConfig, SolverBackend, SolverConfig, SymmetryConfig, SymmetryKind, SymmetryView,
    TrimPolicy, UpdateScheme, WireframeConfig,
};
use crate::constants::{
    DEFAULT_ENGINE, DEFAULT_SOLVER_BACKEND, DEFAULT_SYMMETRY_AXIS, GROWTH_ENGINE, GROWTH_SYMMETRY_MAX_ORDER,
    GROWTH_SYMMETRY_MIN_ORDER, VIEW_EDIT_DEFAULT_BUILD_DIRECTION, VIEW_EDIT_DEFAULT_SYMMETRY_ORDER,
    VIEW_EDIT_DEFAULT_SYMMETRY_PLANE, VIEW_EDIT_DEFAULT_TARGET_CELLS, VIEW_EDIT_DEFAULT_VOXEL_BITS,
};
use crate::editor::{couplings_hold, empty_growth, grows};
use crate::scalar::Scalar;
use crate::voids::VoidPolicy;

verus! {

/// What a checkbox over an optional key writes: the default where it was ticked,
/// nothing where it was not.
pub fn optional_value<T>(present: bool, default: T) -> (value: Option<T>)
    ensures
        value == (if present {
            Some(default)
        } else {
            None
        }),
        value is Some <==> present,
        present ==> value->0 == default,
{
    if present {
        Some(default)
    } else {
        None
    }
}

/// A configuration with another engine chosen. The key is written where the file
/// already keeps it, and a growth table is only legal with that engine.
pub open spec fn engine_chosen(config: ConfigView, engine: Seq<char>) -> ConfigView {
    let named = if config.project_engine is Some {
        ConfigView { project_engine: Some(engine), ..config }
    } else {
        ConfigView { engine: Some(engine), ..config }
    };
    if engine == GROWTH_ENGINE@ {
        named
    } else {
        ConfigView { growth: None, ..named }
    }
}

/// Choose another engine.
pub fn choose_engine(config: &mut Config, selected: String)
    ensures
        final(config)@ == engine_chosen(old(config)@, selected@),
{
    if selected != GROWTH_ENGINE.to_owned() {
        config.growth = None;
    }
    if config.project.engine.is_some() {
        config.project.engine = Some(selected);
    } else {
        config.engine = Some(selected);
    }
}

/// The engine a configuration runs on.
pub open spec fn engine_named(config: ConfigView) -> Seq<char> {
    match config.project_engine {
        Some(engine) => engine,
        None => match config.engine {
            Some(engine) => engine,
            None => DEFAULT_ENGINE@,
        },
    }
}

/// The engine the engine combo shows.
pub fn shown_engine(config: &Config) -> (engine: String)
    ensures
        engine@ == engine_named(config@),
{
    match &config.project.engine {
        Some(engine) => engine.clone(),
        None => match &config.engine {
            Some(engine) => engine.clone(),
            None => DEFAULT_ENGINE.to_owned(),
        },
    }
}

/// Whether the configuration names the growth engine, which is what the growth
/// section is offered by.
pub fn is_growth(config: &Config) -> (answer: bool)
    ensures
        answer == grows(config@),
{
    match &config.project.engine {
        Some(engine) => *engine == GROWTH_ENGINE.to_owned(),
        None => match &config.engine {
            Some(engine) => *engine == GROWTH_ENGINE.to_owned(),
            None => false,
        },
    }
}

/// Write the backend into the `[solver]` table, keeping the other key.
///
/// The table is replaced whole rather than edited in place, so each of the two
/// widgets over it has to carry the other's key across: a tolerance a user
/// pinned may not be dropped by a click on the backend combo.
pub fn write_solver_backend(config: &mut Config, backend: SolverBackend)
    ensures
        final(config)@ == (ConfigView {
            solver: Some(solver_with_backend(old(config)@.solver, backend)),
            ..old(config)@
        }),
{
    let tolerance = match config.solver {
        Some(solver) => solver.tolerance,
        None => None,
    };
    config.solver = Some(SolverConfig { backend: Some(backend), tolerance });
}

/// The same the other way round. `None` is the checkbox unticked, which takes
/// the key out and leaves the table.
pub fn write_solver_tolerance(config: &mut Config, tolerance: Option<Scalar>)
    ensures
        final(config)@ == (ConfigView {
            solver: Some(solver_with_tolerance(old(config)@.solver, tolerance)),
            ..old(config)@
        }),
{
    let backend = match config.solver {
        Some(solver) => solver.backend,
        None => None,
    };
    config.solver = Some(SolverConfig { backend, tolerance });
}

/// The backend a run of a configuration uses: the one its `[solver]` table names,
/// and the default where there is no table or the table names none.
pub open spec fn backend_of(solver: Option<SolverConfig>) -> SolverBackend {
    match solver {
        Some(SolverConfig { backend: Some(backend), .. }) => backend,
        _ => DEFAULT_SOLVER_BACKEND,
    }
}

/// The backend the solver combo shows: the one a run of the configuration would
/// use.
pub fn shown_backend(config: &Config) -> (backend: SolverBackend)
    ensures
        backend == backend_of(config@.solver),
{
    match config.solver {
        Some(solver) => match solver.backend {
            Some(backend) => backend,
            None => DEFAULT_SOLVER_BACKEND,
        },
        None => DEFAULT_SOLVER_BACKEND,
    }
}

/// What a click writes into the solver combo is what the next frame reads, and
/// writing the tolerance beside it changes nothing about what is shown. A table
/// without the key shows what no table shows.
pub proof fn law_the_solver_combo_reads_back_what_was_clicked(
    solver: Option<SolverConfig>,
    backend: SolverBackend,
    tolerance: Option<Scalar>,
)
    ensures
        backend_of(Some(solver_with_backend(solver, backend))) == backend,
        backend_of(Some(solver_with_tolerance(solver, tolerance))) == backend_of(solver),
        backend_of(Some(SolverConfig { backend: None, tolerance })) == backend_of(None),
{
}

/// What a row of the resolution section writes.
#[derive(Clone, Copy, Debug)]
pub enum ResolutionEdit {
    /// How the grid is described: by a voxel size, or by a number of cells.
    BySize(bool),
    /// The voxel size.
    VoxelSize(Scalar),
    /// The number of cells.
    TargetCells(usize),
}

/// A resolution after one of its rows was used. Its two keys take turns: writing
/// one is only offered while it is the one that is there.
pub open spec fn resolution_edited(
    resolution: ResolutionConfig,
    edit: ResolutionEdit,
) -> ResolutionConfig {
    match edit {
        ResolutionEdit::BySize(true) => ResolutionConfig {
            voxel_size_mm: Some(Scalar { bits: VIEW_EDIT_DEFAULT_VOXEL_BITS }),
            target_cells: None,
        },
        ResolutionEdit::BySize(false) => ResolutionConfig {
            voxel_size_mm: None,
            target_cells: Some(VIEW_EDIT_DEFAULT_TARGET_CELLS),
        },
        ResolutionEdit::VoxelSize(value) => if resolution.voxel_size_mm is Some {
            ResolutionConfig { voxel_size_mm: Some(value), ..resolution }
        } else {
            resolution
        },
        ResolutionEdit::TargetCells(value) => if resolution.target_cells is Some {
            ResolutionConfig { target_cells: Some(value), ..resolution }
        } else {
            resolution
        },
    }
}

/// Use a row of the resolution section.
pub fn edit_resolution(resolution: &mut ResolutionConfig, edit: ResolutionEdit)
    ensures
        *final(resolution) == resolution_edited(*old(resolution), edit),
{
    match edit {
        ResolutionEdit::BySize(by_size) => {
            if by_size {
                resolution.voxel_size_mm = Some(Scalar { bits: VIEW_EDIT_DEFAULT_VOXEL_BITS });
                resolution.target_cells = None;
            } else {
                resolution.target_cells = Some(VIEW_EDIT_DEFAULT_TARGET_CELLS);
                resolution.voxel_size_mm = None;
            }
        },
        ResolutionEdit::VoxelSize(value) => {
            if resolution.voxel_size_mm.is_some() {
                resolution.voxel_size_mm = Some(value);
            }
        },
        ResolutionEdit::TargetCells(value) => {
            if resolution.target_cells.is_some() {
                resolution.target_cells = Some(value);
            }
        },
    }
}

/// A built-in material.
#[derive(Debug)]
pub struct MaterialPreset {
    /// What the file calls it.
    pub key: String,
    /// Young's modulus in MPa.
    pub youngs_modulus_mpa: Scalar,
    /// Poisson's ratio.
    pub poisson_ratio: Scalar,
    /// Density in g/cm3.
    pub density_g_cm3: Scalar,
    /// Yield strength in MPa.
    pub yield_strength_mpa: Scalar,
}

/// One of a material's four properties.
#[derive(Clone, Copy, Debug, PartialEq, Eq, Structural)]
pub enum MaterialProperty {
    /// Young's modulus.
    YoungsModulus,
    /// Poisson's ratio.
    PoissonRatio,
    /// Density.
    Density,
    /// Yield strength.
    YieldStrength,
}

/// What a row of the material section writes.
#[derive(Debug)]
pub enum MaterialEdit {
    /// Whether the material is a preset or four values of one's own.
    ByPreset(bool),
    /// The preset.
    Preset(String),
    /// One of the four values.
    Property(MaterialProperty, Scalar),
}

/// The first preset at or behind a place that a key names, and the first of all
/// where it names none.
pub open spec fn preset_named(
    presets: Seq<MaterialPreset>,
    key: Option<Seq<char>>,
    from: int,
) -> int
    decreases presets.len() - from,
{
    if from >= presets.len() {
        0
    } else if key == Some(presets[from].key@) {
        from
    } else {
        preset_named(presets, key, from + 1)
    }
}

/// A material after one of its rows was used.
pub open spec fn material_edited(
    material: MaterialView,
    edit: MaterialEdit,
    presets: Seq<MaterialPreset>,
) -> MaterialView {
    match edit {
        MaterialEdit::ByPreset(true) => MaterialView {
            preset: Some(presets[0].key@),
            youngs_modulus_mpa: None,
            poisson_ratio: None,
            density_g_cm3: None,
            yield_strength_mpa: None,
        },
        MaterialEdit::ByPreset(false) => {
            let source = presets[preset_named(presets, material.preset, 0)];
            MaterialView {
                preset: None,
                youngs_modulus_mpa: Some(source.youngs_modulus_mpa),
                poisson_ratio: Some(source.poisson_ratio),
                density_g_cm3: Some(source.density_g_cm3),
                yield_strength_mpa: Some(source.yield_strength_mpa),
            }
        },
        MaterialEdit::Preset(key) => if material.preset is Some {
            MaterialView { preset: Some(key@), ..material }
        } else {
            material
        },
        MaterialEdit::Property(property, value) => if material.preset is Some {
            material
        } else {
            match property {
                MaterialProperty::YoungsModulus => if material.youngs_modulus_mpa is Some {
                    MaterialView { youngs_modulus_mpa: Some(value), ..material }
                } else {
                    material
                },
                MaterialProperty::PoissonRatio => if material.poisson_ratio is Some {
                    MaterialView { poisson_ratio: Some(value), ..material }
                } else {
                    material
                },
                MaterialProperty::Density => if material.density_g_cm3 is Some {
                    MaterialView { density_g_cm3: Some(value), ..material }
                } else {
                    material
                },
                MaterialProperty::YieldStrength => if material.yield_strength_mpa is Some {
                    MaterialView { yield_strength_mpa: Some(value), ..material }
                } else {
                    material
                },
            }
        },
    }
}

/// Where the first preset a key names stands.
fn find_preset(presets: &Vec<MaterialPreset>, key: &Option<String>) -> (found: usize)
    requires
        presets@.len() > 0,
    ensures
        found < presets@.len(),
        found == preset_named(presets@, text_of(*key), 0),
{
    let mut p: usize = 0;
    while p < presets.len()
        invariant
            presets@.len() > 0,
            p <= presets@.len(),
            preset_named(presets@, text_of(*key), 0) == preset_named(
                presets@,
                text_of(*key),
                p as int,
            ),
        decreases presets@.len() - p,
    {
        if let Some(name) = key {
            if presets[p].key == *name {
                return p;
            }
        }
        p += 1;
    }
    0
}

/// Use a row of the material section.
///
/// Custom values start from whatever preset was selected, so switching is a
/// starting point rather than a blank form.
pub fn edit_material(
    material: &mut MaterialConfig,
    edit: MaterialEdit,
    presets: &Vec<MaterialPreset>,
)
    requires
        presets@.len() > 0,
    ensures
        final(material)@ == material_edited(old(material)@, edit, presets@),
{
    match edit {
        MaterialEdit::ByPreset(by_preset) => {
            if by_preset {
                material.preset = Some(presets[0].key.clone());
                material.youngs_modulus_mpa = None;
                material.poisson_ratio = None;
                material.density_g_cm3 = None;
                material.yield_strength_mpa = None;
            } else {
                let source = find_preset(presets, &material.preset);
                material.youngs_modulus_mpa = Some(presets[source].youngs_modulus_mpa);
                material.poisson_ratio = Some(presets[source].poisson_ratio);
                material.density_g_cm3 = Some(presets[source].density_g_cm3);
                material.yield_strength_mpa = Some(presets[source].yield_strength_mpa);
                material.preset = None;
            }
        },
        MaterialEdit::Preset(key) => {
            if material.preset.is_some() {
                material.preset = Some(key);
            }
        },
        MaterialEdit::Property(property, value) => {
            if material.preset.is_some() {
                return;
            }
            match property {
                MaterialProperty::YoungsModulus => {
                    if material.youngs_modulus_mpa.is_some() {
                        material.youngs_modulus_mpa = Some(value);
                    }
                },
                MaterialProperty::PoissonRatio => {
                    if material.poisson_ratio.is_some() {
                        material.poisson_ratio = Some(value);
                    }
                },
                MaterialProperty::Density => {
                    if material.density_g_cm3.is_some() {
                        material.density_g_cm3 = Some(value);
                    }
                },
                MaterialProperty::YieldStrength => {
                    if material.yield_strength_mpa.is_some() {
                        material.yield_strength_mpa = Some(value);
                    }
                },
            }
        },
    }
}

/// One row of the optimization section.
#[derive(Clone, Copy, Debug, PartialEq, Eq, Structural)]
pub enum OptimizationRow {
    /// The mass target.
    MassFraction,
    /// The smallest feature.
    MinFeature,
    /// The interpolation's exponent.
    Penalty,
    /// The budget of iterations.
    MaxIterations,
    /// The change a run has converged at.
    ConvergenceTol,
    /// The update scheme.
    Update,
    /// The switch of the overhang constraint.
    Overhang,
    /// The overhang constraint's build direction.
    BuildDirection,
    /// The switch of the guide wireframe.
    Wireframe,
    /// The guide wire's radius.
    WireRadius,
    /// How long the wire is held.
    HoldIterations,
    /// The density the wire is held at.
    SeedDensity,
    /// The switch of the local volume cap.
    LocalVolume,
    /// The cap itself.
    MaxFraction,
    /// The radius of the neighbourhood it is measured over.
    LocalRadius,
}

/// The rows the optimization section offers, in order. The rows of a sub-table
/// follow its switch, while it is on.
pub open spec fn optimization_rows_of(optimization: OptimizationConfig) -> Seq<OptimizationRow> {
    seq![
        OptimizationRow::MassFraction,
        OptimizationRow::MinFeature,
        OptimizationRow::Penalty,
        OptimizationRow::MaxIterations,
        OptimizationRow::ConvergenceTol,
        OptimizationRow::Update,
        OptimizationRow::Overhang,
    ] + (if optimization.overhang is Some {
        seq![OptimizationRow::BuildDirection]
    } else {
        seq![]
    }) + seq![OptimizationRow::Wireframe] + (if optimization.wireframe is Some {
        seq![
            OptimizationRow::WireRadius,
            OptimizationRow::HoldIterations,
            OptimizationRow::SeedDensity,
        ]
    } else {
        seq![]
    }) + seq![OptimizationRow::LocalVolume] + (if optimization.local_volume is Some {
        seq![OptimizationRow::MaxFraction, OptimizationRow::LocalRadius]
    } else {
        seq![]
    })
}

/// The rows the optimization section offers.
pub fn optimization_rows(optimization: &OptimizationConfig) -> (rows: Vec<OptimizationRow>)
    ensures
        rows@ == optimization_rows_of(*optimization),
{
    let mut rows: Vec<OptimizationRow> = Vec::new();
    rows.push(OptimizationRow::MassFraction);
    rows.push(OptimizationRow::MinFeature);
    rows.push(OptimizationRow::Penalty);
    rows.push(OptimizationRow::MaxIterations);
    rows.push(OptimizationRow::ConvergenceTol);
    rows.push(OptimizationRow::Update);
    rows.push(OptimizationRow::Overhang);
    if optimization.overhang.is_some() {
        rows.push(OptimizationRow::BuildDirection);
    }
    rows.push(OptimizationRow::Wireframe);
    if optimization.wireframe.is_some() {
        rows.push(OptimizationRow::WireRadius);
        rows.push(OptimizationRow::HoldIterations);
        rows.push(OptimizationRow::SeedDensity);
    }
    rows.push(OptimizationRow::LocalVolume);
    if optimization.local_volume.is_some() {
        rows.push(OptimizationRow::MaxFraction);
        rows.push(OptimizationRow::LocalRadius);
    }
    assert(rows@ =~= optimization_rows_of(*optimization));
    rows
}

/// What a row of the optimization section writes.
#[derive(Clone, Copy, Debug)]
pub enum OptimizationEdit {
    /// The mass target.
    MassFraction(Scalar),
    /// The smallest feature.
    MinFeature(Scalar),
    /// The interpolation's exponent, or its key taken out.
    Penalty(Option<Scalar>),
    /// The budget of iterations, or its key taken out.
    MaxIterations(Option<usize>),
    /// The change a run has converged at, or its key taken out.
    ConvergenceTol(Option<Scalar>),
    /// The update scheme.
    Update(UpdateScheme),
    /// The overhang constraint switched on or off.
    Overhang(bool),
    /// The build direction.
    BuildDirection(BuildDirection),
    /// The guide wireframe switched on or off.
    Wireframe(bool),
    /// The guide wire's radius, or its key taken out.
    WireRadius(Option<Scalar>),
    /// How long the wire is held, or the key taken out.
    HoldIterations(Option<usize>),
    /// The density the wire is held at, or the key taken out.
    SeedDensity(Option<Scalar>),
    /// The local volume cap switched on or off.
    LocalVolume(bool),
    /// The cap itself, or its key taken out.
    MaxFraction(Option<Scalar>),
    /// The radius of the neighbourhood, or its key taken out.
    LocalRadius(Option<Scalar>),
}

/// The row that writes an edit.
pub open spec fn optimization_row_of(edit: OptimizationEdit) -> OptimizationRow {
    match edit {
        OptimizationEdit::MassFraction(_) => OptimizationRow::MassFraction,
        OptimizationEdit::MinFeature(_) => OptimizationRow::MinFeature,
        OptimizationEdit::Penalty(_) => OptimizationRow::Penalty,
        OptimizationEdit::MaxIterations(_) => OptimizationRow::MaxIterations,
        OptimizationEdit::ConvergenceTol(_) => OptimizationRow::ConvergenceTol,
        OptimizationEdit::Update(_) => OptimizationRow::Update,
        OptimizationEdit::Overhang(_) => OptimizationRow::Overhang,
        OptimizationEdit::BuildDirection(_) => OptimizationRow::BuildDirection,
        OptimizationEdit::Wireframe(_) => OptimizationRow::Wireframe,
        OptimizationEdit::WireRadius(_) => OptimizationRow::WireRadius,
        OptimizationEdit::HoldIterations(_) => OptimizationRow::HoldIterations,
        OptimizationEdit::SeedDensity(_) => OptimizationRow::SeedDensity,
        OptimizationEdit::LocalVolume(_) => OptimizationRow::LocalVolume,
        OptimizationEdit::MaxFraction(_) => OptimizationRow::MaxFraction,
        OptimizationEdit::LocalRadius(_) => OptimizationRow::LocalRadius,
    }
}

/// An optimization table after one of its rows was used. A sub-table being there
/// is what switches it on; a row of one that is not there writes nothing.
pub open spec fn optimization_edited(
    optimization: OptimizationConfig,
    edit: OptimizationEdit,
) -> OptimizationConfig {
    match edit {
        OptimizationEdit::MassFraction(value) => OptimizationConfig {
            mass_fraction: value,
            ..optimization
        },
        OptimizationEdit::MinFeature(value) => OptimizationConfig {
            min_feature_mm: value,
            ..optimization
        },
        OptimizationEdit::Penalty(value) => OptimizationConfig { penalty: value, ..optimization },
        OptimizationEdit::MaxIterations(value) => OptimizationConfig {
            max_iterations: value,
            ..optimization
        },
        OptimizationEdit::ConvergenceTol(value) => OptimizationConfig {
            convergence_tol: value,
            ..optimization
        },
        OptimizationEdit::Update(value) => OptimizationConfig {
            update: Some(value),
            ..optimization
        },
        OptimizationEdit::Overhang(on) => OptimizationConfig {
            overhang: if on {
                Some(OverhangConfig { build_direction: VIEW_EDIT_DEFAULT_BUILD_DIRECTION })
            } else {
                None
            },
            ..optimization
        },
        OptimizationEdit::BuildDirection(value) => OptimizationConfig {
            overhang: match optimization.overhang {
                Some(_) => Some(OverhangConfig { build_direction: value }),
                None => None,
            },
            ..optimization
        },
        OptimizationEdit::Wireframe(on) => OptimizationConfig {
            wireframe: if on {
                Some(
                    WireframeConfig { radius_mm: None, hold_iterations: None, seed_density: None },
                )
            } else {
                None
            },
            ..optimization
        },
        OptimizationEdit::WireRadius(value) => OptimizationConfig {
            wireframe: match optimization.wireframe {
                Some(wire) => Some(WireframeConfig { radius_mm: value, ..wire }),
                None => None,
            },
            ..optimization
        },
        OptimizationEdit::HoldIterations(value) => OptimizationConfig {
            wireframe: match optimization.wireframe {
                Some(wire) => Some(WireframeConfig { hold_iterations: value, ..wire }),
                None => None,
            },
            ..optimization
        },
        OptimizationEdit::SeedDensity(value) => OptimizationConfig {
            wireframe: match optimization.wireframe {
                Some(wire) => Some(WireframeConfig { seed_density: value, ..wire }),
                None => None,
            },
            ..optimization
        },
        OptimizationEdit::LocalVolume(on) => OptimizationConfig {
            local_volume: if on {
                Some(LocalVolumeConfig { max_fraction: None, radius_mm: None })
            } else {
                None
            },
            ..optimization
        },
        OptimizationEdit::MaxFraction(value) => OptimizationConfig {
            local_volume: match optimization.local_volume {
                Some(cap) => Some(LocalVolumeConfig { max_fraction: value, ..cap }),
                None => None,
            },
            ..optimization
        },
        OptimizationEdit::LocalRadius(value) => OptimizationConfig {
            local_volume: match optimization.local_volume {
                Some(cap) => Some(LocalVolumeConfig { radius_mm: value, ..cap }),
                None => None,
            },
            ..optimization
        },
    }
}

/// Use a row of the optimization section.
pub fn edit_optimization(optimization: &mut OptimizationConfig, edit: OptimizationEdit)
    ensures
        *final(optimization) == optimization_edited(*old(optimization), edit),
{
    match edit {
        OptimizationEdit::MassFraction(value) => {
            optimization.mass_fraction = value;
        },
        OptimizationEdit::MinFeature(value) => {
            optimization.min_feature_mm = value;
        },
        OptimizationEdit::Penalty(value) => {
            optimization.penalty = value;
        },
        OptimizationEdit::MaxIterations(value) => {
            optimization.max_iterations = value;
        },
        OptimizationEdit::ConvergenceTol(value) => {
            optimization.convergence_tol = value;
        },
        OptimizationEdit::Update(value) => {
            optimization.update = Some(value);
        },
        OptimizationEdit::Overhang(on) => {
            optimization.overhang = optional_value(
                on,
                OverhangConfig { build_direction: VIEW_EDIT_DEFAULT_BUILD_DIRECTION },
            );
        },
        OptimizationEdit::BuildDirection(value) => {
            if optimization.overhang.is_some() {
                optimization.overhang = Some(OverhangConfig { build_direction: value });
            }
        },
        OptimizationEdit::Wireframe(on) => {
            optimization.wireframe = optional_value(
                on,
                WireframeConfig { radius_mm: None, hold_iterations: None, seed_density: None },
            );
        },
        OptimizationEdit::WireRadius(value) => {
            if let Some(wire) = optimization.wireframe {
                optimization.wireframe = Some(WireframeConfig { radius_mm: value, ..wire });
            }
        },
        OptimizationEdit::HoldIterations(value) => {
            if let Some(wire) = optimization.wireframe {
                optimization.wireframe = Some(WireframeConfig { hold_iterations: value, ..wire });
            }
        },
        OptimizationEdit::SeedDensity(value) => {
            if let Some(wire) = optimization.wireframe {
                optimization.wireframe = Some(WireframeConfig { seed_density: value, ..wire });
            }
        },
        OptimizationEdit::LocalVolume(on) => {
            optimization.local_volume = optional_value(
                on,
                LocalVolumeConfig { max_fraction: None, radius_mm: None },
            );
        },
        OptimizationEdit::MaxFraction(value) => {
            if let Some(cap) = optimization.local_volume {
                optimization.local_volume = Some(LocalVolumeConfig { max_fraction: value, ..cap });
            }
        },
        OptimizationEdit::LocalRadius(value) => {
            if let Some(cap) = optimization.local_volume {
                optimization.local_volume = Some(LocalVolumeConfig { radius_mm: value, ..cap });
            }
        },
    }
}

/// A mirror symmetry about one plane, which is what a newly enabled table and a
/// switch back to mirroring start from.
pub open spec fn mirror_about(plane: Axis) -> SymmetryView {
    SymmetryView { kind: SymmetryKind::Mirror, planes: Some(seq![plane]), order: None, axis: None }
}

/// A mirror symmetry about one plane.
pub fn mirror_symmetry(plane: Axis) -> (symmetry: SymmetryConfig)
    ensures
        symmetry@ == mirror_about(plane),
{
    let mut planes: Vec<Axis> = Vec::new();
    planes.push(plane);
    assert(planes@ =~= seq![plane]);
    SymmetryConfig { kind: SymmetryKind::Mirror, planes: Some(planes), order: None, axis: None }
}

/// The three axes as dropdown options.
pub fn axis_options() -> (axes: [Axis; 3])
    ensures
        axes@ == seq![Axis::X, Axis::Y, Axis::Z],
{
    let axes = [Axis::X, Axis::Y, Axis::Z];
    assert(axes@ =~= seq![Axis::X, Axis::Y, Axis::Z]);
    axes
}

/// The mirror plane a table shows first.
pub open spec fn first_plane(symmetry: SymmetryView) -> Axis {
    match symmetry.planes {
        Some(planes) => if planes.len() > 0 {
            planes[0]
        } else {
            VIEW_EDIT_DEFAULT_SYMMETRY_PLANE
        },
        None => VIEW_EDIT_DEFAULT_SYMMETRY_PLANE,
    }
}

/// The mirror plane a table shows second, where it has one.
pub open spec fn second_plane(symmetry: SymmetryView) -> Option<Axis> {
    match symmetry.planes {
        Some(planes) => if planes.len() > 1 {
            Some(planes[1])
        } else {
            None
        },
        None => None,
    }
}

/// The planes a table is given: both of them where they differ, and the first
/// alone where they do not.
pub open spec fn planes_written(first: Axis, second: Option<Axis>) -> Seq<Axis> {
    match second {
        Some(second) => if second != first {
            seq![first, second]
        } else {
            seq![first]
        },
        None => seq![first],
    }
}

/// The axes the second mirror plane is offered: those the first does not use.
pub fn second_plane_options(first: Axis) -> (axes: Vec<Axis>)
    ensures
        axes@ == seq![Axis::X, Axis::Y, Axis::Z].filter(|axis: Axis| axis != first),
{
    let ghost all = seq![Axis::X, Axis::Y, Axis::Z];
    let ghost other = |axis: Axis| axis != first;
    let mut axes: Vec<Axis> = Vec::new();
    if first != Axis::X {
        axes.push(Axis::X);
    }
    if first != Axis::Y {
        axes.push(Axis::Y);
    }
    if first != Axis::Z {
        axes.push(Axis::Z);
    }
    proof {
        reveal(Seq::filter);
        reveal_with_fuel(Seq::filter, 4);
        assert(all.drop_last().drop_last().drop_last() =~= Seq::<Axis>::empty());
        assert(all.drop_last().drop_last() =~= seq![Axis::X]);
        assert(all.drop_last() =~= seq![Axis::X, Axis::Y]);
        assert(axes@ =~= all.filter(other));
    }
    axes
}

/// What a row of the symmetry block writes.
#[derive(Clone, Copy, Debug, PartialEq, Eq, Structural)]
pub enum SymmetryEdit {
    /// The symmetry switched on or off.
    Present(bool),
    /// How the sector is replicated.
    Kind(SymmetryKind),
    /// The first mirror plane.
    FirstPlane(Axis),
    /// The second mirror plane, or none.
    SecondPlane(Option<Axis>),
    /// The number of sectors.
    Order(usize),
    /// The axis the sectors are turned about.
    RotationAxis(Axis),
}

/// A number of sectors brought into the range a configuration may hold.
pub open spec fn order_clamped(order: usize) -> usize {
    if order < GROWTH_SYMMETRY_MIN_ORDER {
        GROWTH_SYMMETRY_MIN_ORDER
    } else if order > GROWTH_SYMMETRY_MAX_ORDER {
        GROWTH_SYMMETRY_MAX_ORDER
    } else {
        order
    }
}

/// A symmetry table after one of its rows was used.
///
/// Switching kind replaces the table rather than leaving the other kind's keys
/// behind, because a configuration carrying both is rejected, and only the rows
/// of the kind a table has write into it.
pub open spec fn symmetry_edited(symmetry: Option<SymmetryView>, edit: SymmetryEdit) -> Option<
    SymmetryView,
> {
    match edit {
        SymmetryEdit::Present(present) => if present {
            Some(mirror_about(VIEW_EDIT_DEFAULT_SYMMETRY_PLANE))
        } else {
            None
        },
        SymmetryEdit::Kind(kind) => match symmetry {
            None => None,
            Some(_) => match kind {
                SymmetryKind::Mirror => Some(mirror_about(VIEW_EDIT_DEFAULT_SYMMETRY_PLANE)),
                SymmetryKind::Rotational => Some(
                    SymmetryView {
                        kind,
                        planes: None,
                        order: Some(VIEW_EDIT_DEFAULT_SYMMETRY_ORDER),
                        axis: Some(DEFAULT_SYMMETRY_AXIS),
                    },
                ),
            },
        },
        SymmetryEdit::FirstPlane(first) => match symmetry {
            Some(table) => if table.kind == SymmetryKind::Mirror {
                Some(
                    SymmetryView {
                        planes: Some(planes_written(first, second_plane(table))),
                        ..table
                    },
                )
            } else {
                symmetry
            },
            None => None,
        },
        SymmetryEdit::SecondPlane(second) => match symmetry {
            Some(table) => if table.kind == SymmetryKind::Mirror {
                Some(
                    SymmetryView {
                        planes: Some(planes_written(first_plane(table), second)),
                        ..table
                    },
                )
            } else {
                symmetry
            },
            None => None,
        },
        SymmetryEdit::Order(order) => match symmetry {
            Some(table) => if table.kind == SymmetryKind::Rotational {
                Some(SymmetryView { order: Some(order_clamped(order)), ..table })
            } else {
                symmetry
            },
            None => None,
        },
        SymmetryEdit::RotationAxis(axis) => match symmetry {
            Some(table) => if table.kind == SymmetryKind::Rotational {
                Some(SymmetryView { axis: Some(axis), ..table })
            } else {
                symmetry
            },
            None => None,
        },
    }
}

fn planes_for(first: Axis, second: Option<Axis>) -> (planes: Vec<Axis>)
    ensures
        planes@ == planes_written(first, second),
{
    let mut planes: Vec<Axis> = Vec::new();
    planes.push(first);
    if let Some(second) = second {
        if second != first {
            planes.push(second);
        }
    }
    assert(planes@ =~= planes_written(first, second));
    planes
}

/// The number of sectors a table shows.
pub fn shown_order(symmetry: &SymmetryConfig) -> (order: usize)
    ensures
        order == (match symmetry.order {
            Some(order) => order,
            None => VIEW_EDIT_DEFAULT_SYMMETRY_ORDER,
        }),
        symmetry.order is Some ==> order == symmetry.order->0,
{
    match symmetry.order {
        Some(order) => order,
        None => VIEW_EDIT_DEFAULT_SYMMETRY_ORDER,
    }
}

/// The axis of rotation a table shows.
pub fn shown_axis(symmetry: &SymmetryConfig) -> (axis: Axis)
    ensures
        axis == (match symmetry.axis {
            Some(axis) => axis,
            None => DEFAULT_SYMMETRY_AXIS,
        }),
        symmetry.axis is Some ==> axis == symmetry.axis->0,
{
    match symmetry.axis {
        Some(axis) => axis,
        None => DEFAULT_SYMMETRY_AXIS,
    }
}

/// The two planes a table shows.
pub fn shown_planes(symmetry: &SymmetryConfig) -> (shown: (Axis, Option<Axis>))
    ensures
        shown.0 == first_plane(symmetry@),
        shown.1 == second_plane(symmetry@),
{
    match &symmetry.planes {
        Some(planes) => {
            let first: Axis = if planes.len() > 0 {
                planes[0]
            } else {
                VIEW_EDIT_DEFAULT_SYMMETRY_PLANE
            };
            let second: Option<Axis> = if planes.len() > 1 {
                Some(planes[1])
            } else {
                None
            };
            (first, second)
        },
        None => (VIEW_EDIT_DEFAULT_SYMMETRY_PLANE, None),
    }
}

/// Use a row of the symmetry block.
pub fn edit_symmetry(slot: &mut Option<SymmetryConfig>, edit: SymmetryEdit)
    ensures
        symmetry_of(*final(slot)) == symmetry_edited(symmetry_of(*old(slot)), edit),
{
    match edit {
        SymmetryEdit::Present(present) => {
            *slot = if present {
                Some(mirror_symmetry(VIEW_EDIT_DEFAULT_SYMMETRY_PLANE))
            } else {
                None
            };
            return;
        },
        _ => {},
    }
    let taken: Option<SymmetryConfig> = slot.take();
    *slot = match taken {
        None => None,
        Some(table) => Some(edited_table(table, edit)),
    };
}

fn edited_table(table: SymmetryConfig, edit: SymmetryEdit) -> (after: SymmetryConfig)
    requires
        !(edit is Present),
    ensures
        Some(after@) == symmetry_edited(Some(table@), edit),
{
    let mut table = table;
    match edit {
        SymmetryEdit::Present(_) => {},
        SymmetryEdit::Kind(kind) => {
            return match kind {
                SymmetryKind::Mirror => mirror_symmetry(VIEW_EDIT_DEFAULT_SYMMETRY_PLANE),
                SymmetryKind::Rotational => SymmetryConfig {
                    kind,
                    planes: None,
                    order: Some(VIEW_EDIT_DEFAULT_SYMMETRY_ORDER),
                    axis: Some(DEFAULT_SYMMETRY_AXIS),
                },
            };
        },
        SymmetryEdit::FirstPlane(first) => {
            if table.kind == SymmetryKind::Mirror {
                let (_, second) = shown_planes(&table);
                table.planes = Some(planes_for(first, second));
            }
        },
        SymmetryEdit::SecondPlane(second) => {
            if table.kind == SymmetryKind::Mirror {
                let (first, _) = shown_planes(&table);
                table.planes = Some(planes_for(first, second));
            }
        },
        SymmetryEdit::Order(order) => {
            if table.kind == SymmetryKind::Rotational {
                table.order = Some(
                    if order < GROWTH_SYMMETRY_MIN_ORDER {
                        GROWTH_SYMMETRY_MIN_ORDER
                    } else if order > GROWTH_SYMMETRY_MAX_ORDER {
                        GROWTH_SYMMETRY_MAX_ORDER
                    } else {
                        order
                    },
                );
            }
        },
        SymmetryEdit::RotationAxis(axis) => {
            if table.kind == SymmetryKind::Rotational {
                table.axis = Some(axis);
            }
        },
    }
    table
}

/// A symmetry table a run accepts: the keys of its own kind and no others, its
/// planes one axis or two different ones, its sectors within the range.
pub open spec fn symmetry_legal(symmetry: SymmetryView) -> bool {
    match symmetry.kind {
        SymmetryKind::Mirror => {
            &&& symmetry.order is None
            &&& symmetry.axis is None
            &&& symmetry.planes matches Some(planes) && (planes.len() == 1 || planes.len() == 2
                && planes[0] != planes[1])
        },
        SymmetryKind::Rotational => {
            &&& symmetry.planes is None
            &&& symmetry.axis is Some
            &&& symmetry.order matches Some(order) && GROWTH_SYMMETRY_MIN_ORDER <= order
                <= GROWTH_SYMMETRY_MAX_ORDER
        },
    }
}

/// Whatever rows of the symmetry block are used, a legal table stays legal: the
/// second mirror plane is never the first, and neither kind keeps the other's
/// keys.
pub proof fn law_symmetry_edits_stay_legal(symmetry: Option<SymmetryView>, edit: SymmetryEdit)
    requires
        symmetry matches Some(table) ==> symmetry_legal(table),
    ensures
        symmetry_edited(symmetry, edit) matches Some(table) ==> symmetry_legal(table),
{
}

/// What a row of the growth section writes.
#[derive(Clone, Copy, Debug)]
pub enum GrowthEdit {
    /// The seed, or its key taken out.
    Seed(Option<u64>),
    /// Attraction points per cm3, or the key taken out.
    AttractorPerCm3(Option<Scalar>),
    /// The exponent of Murray's law, or its key taken out.
    MurrayExponent(Option<Scalar>),
    /// How far a tip sees a point, or the key taken out.
    AttractionRadius(Option<Scalar>),
    /// How close a branch comes to consume one, or the key taken out.
    KillRadius(Option<Scalar>),
    /// The length of a step, or its key taken out.
    Step(Option<Scalar>),
    /// The thickest strut, or its key taken out.
    MaxRadius(Option<Scalar>),
    /// The cap on steps, or its key taken out.
    MaxSteps(Option<usize>),
    /// Whether free tips are removed.
    Prune(bool),
    /// A row of the symmetry block.
    Symmetry(SymmetryEdit),
}

/// A growth table after one of its rows was used. The table appears in the file
/// the moment one of its keys is pinned.
pub open spec fn growth_edited(growth: Option<GrowthView>, edit: GrowthEdit) -> GrowthView {
    let table = match growth {
        Some(growth) => growth,
        None => empty_growth(),
    };
    match edit {
        GrowthEdit::Seed(value) => GrowthView { seed: value, ..table },
        GrowthEdit::AttractorPerCm3(value) => GrowthView { attractor_per_cm3: value, ..table },
        GrowthEdit::MurrayExponent(value) => GrowthView { murray_exponent: value, ..table },
        GrowthEdit::AttractionRadius(value) => GrowthView { attraction_radius_mm: value, ..table },
        GrowthEdit::KillRadius(value) => GrowthView { kill_radius_mm: value, ..table },
        GrowthEdit::Step(value) => GrowthView { step_mm: value, ..table },
        GrowthEdit::MaxRadius(value) => GrowthView { max_radius_mm: value, ..table },
        GrowthEdit::MaxSteps(value) => GrowthView { max_steps: value, ..table },
        GrowthEdit::Prune(value) => GrowthView { prune: Some(value), ..table },
        GrowthEdit::Symmetry(edit) => GrowthView {
            symmetry: symmetry_edited(table.symmetry, edit),
            ..table
        },
    }
}

/// Use a row of the growth section.
pub fn edit_growth(slot: &mut Option<GrowthConfig>, edit: GrowthEdit)
    ensures
        growth_of(*final(slot)) == Some(growth_edited(growth_of(*old(slot)), edit)),
{
    let taken: Option<GrowthConfig> = slot.take();
    let mut growth = match taken {
        Some(growth) => growth,
        None => GrowthConfig {
            seed: None,
            attractor_per_cm3: None,
            attraction_radius_mm: None,
            kill_radius_mm: None,
            step_mm: None,
            murray_exponent: None,
            max_radius_mm: None,
            max_steps: None,
            prune: None,
            symmetry: None,
        },
    };
    match edit {
        GrowthEdit::Seed(value) => {
            growth.seed = value;
        },
        GrowthEdit::AttractorPerCm3(value) => {
            growth.attractor_per_cm3 = value;
        },
        GrowthEdit::MurrayExponent(value) => {
            growth.murray_exponent = value;
        },
        GrowthEdit::AttractionRadius(value) => {
            growth.attraction_radius_mm = value;
        },
        GrowthEdit::KillRadius(value) => {
            growth.kill_radius_mm = value;
        },
        GrowthEdit::Step(value) => {
            growth.step_mm = value;
        },
        GrowthEdit::MaxRadius(value) => {
            growth.max_radius_mm = value;
        },
        GrowthEdit::MaxSteps(value) => {
            growth.max_steps = value;
        },
        GrowthEdit::Prune(value) => {
            growth.prune = Some(value);
        },
        GrowthEdit::Symmetry(edit) => {
            edit_symmetry(&mut growth.symmetry, edit);
        },
    }
    *slot = Some(growth);
}

/// One row of the output section.
#[derive(Clone, Copy, Debug, PartialEq, Eq, Structural)]
pub enum OutputRow {
    /// The density the surface is drawn at.
    IsoLevel,
    /// The smoothing passes.
    Smoothing,
    /// The refinement of the meshing lattice.
    Supersample,
    /// What happens to enclosed cavities.
    Voids,
    /// What happens to loose pieces.
    Islands,
    /// How closely the surface follows the shapes.
    Boundaries,
    /// What happens to idle material.
    Trim,
    /// The share of the peak stress that counts as idle.
    TrimFraction,
    /// What happens to thin material.
    Reinforce,
    /// The thickness every member is held to.
    ReinforceThickness,
}

/// True while idle material is removed.
pub open spec fn trims(output: OutputView) -> bool {
    output.trim is Some && output.trim != Some(TrimPolicy::Off)
}

/// True while thin material is thickened.
pub open spec fn reinforces(output: OutputView) -> bool {
    output.reinforce is Some && output.reinforce != Some(ReinforcePolicy::Off)
}

/// The rows the output section offers, in order. A threshold is a control over a
/// pass, and is offered only while the pass is running.
pub open spec fn output_rows_of(output: OutputView) -> Seq<OutputRow> {
    seq![
        OutputRow::IsoLevel,
        OutputRow::Smoothing,
        OutputRow::Supersample,
        OutputRow::Voids,
        OutputRow::Islands,
        OutputRow::Boundaries,
        OutputRow::Trim,
    ] + (if trims(output) {
        seq![OutputRow::TrimFraction]
    } else {
        seq![]
    }) + seq![OutputRow::Reinforce] + (if reinforces(output) {
        seq![OutputRow::ReinforceThickness]
    } else {
        seq![]
    })
}

/// The rows the output section offers.
pub fn output_rows(output: &OutputConfig) -> (rows: Vec<OutputRow>)
    ensures
        rows@ == output_rows_of(output@),
{
    let mut rows: Vec<OutputRow> = Vec::new();
    rows.push(OutputRow::IsoLevel);
    rows.push(OutputRow::Smoothing);
    rows.push(OutputRow::Supersample);
    rows.push(OutputRow::Voids);
    rows.push(OutputRow::Islands);
    rows.push(OutputRow::Boundaries);
    rows.push(OutputRow::Trim);
    let trim: TrimPolicy = match output.trim {
        Some(trim) => trim,
        None => TrimPolicy::Off,
    };
    if trim != TrimPolicy::Off {
        rows.push(OutputRow::TrimFraction);
    }
    rows.push(OutputRow::Reinforce);
    let reinforce: ReinforcePolicy = match output.reinforce {
        Some(reinforce) => reinforce,
        None => ReinforcePolicy::Off,
    };
    if reinforce != ReinforcePolicy::Off {
        rows.push(OutputRow::ReinforceThickness);
    }
    assert(rows@ =~= output_rows_of(output@));
    rows
}

/// What a row of the output section writes.
#[derive(Clone, Copy, Debug)]
pub enum OutputEdit {
    /// The density the surface is drawn at, or its key taken out.
    IsoLevel(Option<Scalar>),
    /// The smoothing passes, or their key taken out.
    Smoothing(Option<usize>),
    /// The refinement of the meshing lattice, or its key taken out.
    Supersample(Option<usize>),
    /// What happens to enclosed cavities.
    Voids(VoidPolicy),
    /// What happens to loose pieces.
    Islands(IslandPolicy),
    /// How closely the surface follows the shapes.
    Boundaries(BoundaryFidelity),
    /// What happens to idle material.
    Trim(TrimPolicy),
    /// The share of the peak stress that counts as idle, or its key taken out.
    TrimFraction(Option<Scalar>),
    /// What happens to thin material.
    Reinforce(ReinforcePolicy),
    /// The thickness every member is held to, or its key taken out.
    ReinforceThickness(Option<Scalar>),
}

/// An output table after one of its rows was used.
pub open spec fn output_edited(output: OutputView, edit: OutputEdit) -> OutputView {
    match edit {
        OutputEdit::IsoLevel(value) => OutputView { iso_level: value, ..output },
        OutputEdit::Smoothing(value) => OutputView { smoothing_iterations: value, ..output },
        OutputEdit::Supersample(value) => OutputView { supersample: value, ..output },
        OutputEdit::Voids(value) => OutputView { voids: Some(value), ..output },
        OutputEdit::Islands(value) => OutputView { islands: Some(value), ..output },
        OutputEdit::Boundaries(value) => OutputView { boundaries: Some(value), ..output },
        OutputEdit::Trim(value) => OutputView { trim: Some(value), ..output },
        OutputEdit::TrimFraction(value) => if trims(output) {
            OutputView { trim_stress_fraction: value, ..output }
        } else {
            output
        },
        OutputEdit::Reinforce(value) => OutputView { reinforce: Some(value), ..output },
        OutputEdit::ReinforceThickness(value) => if reinforces(output) {
            OutputView { reinforce_thickness_mm: value, ..output }
        } else {
            output
        },
    }
}

/// Use a row of the output section. Where a run writes is never one of them: the
/// two paths are a decision about the project, not about the geometry.
pub fn edit_output(output: &mut OutputConfig, edit: OutputEdit)
    ensures
        final(output)@ == output_edited(old(output)@, edit),
{
    match edit {
        OutputEdit::IsoLevel(value) => {
            output.iso_level = value;
        },
        OutputEdit::Smoothing(value) => {
            output.smoothing_iterations = value;
        },
        OutputEdit::Supersample(value) => {
            output.supersample = value;
        },
        OutputEdit::Voids(value) => {
            output.voids = Some(value);
        },
        OutputEdit::Islands(value) => {
            output.islands = Some(value);
        },
        OutputEdit::Boundaries(value) => {
            output.boundaries = Some(value);
        },
        OutputEdit::Trim(value) => {
            output.trim = Some(value);
        },
        OutputEdit::TrimFraction(value) => {
            if let Some(trim) = output.trim {
                if trim != TrimPolicy::Off {
                    output.trim_stress_fraction = value;
                }
            }
        },
        OutputEdit::Reinforce(value) => {
            output.reinforce = Some(value);
        },
        OutputEdit::ReinforceThickness(value) => {
            if let Some(reinforce) = output.reinforce {
                if reinforce != ReinforcePolicy::Off {
                    output.reinforce_thickness_mm = value;
                }
            }
        },
    }
}

/// The line that says where the part is written.
pub fn stl_line(output: &OutputConfig) -> (line: String)
    ensures
        line@ == "stl    "@ + output.stl_path@,
{
    let mut line = "stl    ".to_owned();
    line.append(output.stl_path.as_str());
    line
}

/// The line that says where the stress report is written.
pub fn stress_line(output: &OutputConfig) -> (line: String)
    ensures
        line@ == (match text_of(output.stress_json) {
            Some(path) => "stress "@ + path,
            None => "stress no json report"@,
        }),
{
    match &output.stress_json {
        Some(path) => {
            let mut line = "stress ".to_owned();
            line.append(path.as_str());
            line
        },
        None => "stress no json report".to_owned(),
    }
}

/// A row that is not offered writes nothing.
pub proof fn law_a_row_that_is_not_offered_writes_nothing(
    optimization: OptimizationConfig,
    edit: OptimizationEdit,
)
    requires
        !optimization_rows_of(optimization).contains(optimization_row_of(edit)),
    ensures
        optimization_edited(optimization, edit) == optimization,
{
    let rows = optimization_rows_of(optimization);
    assert(rows[0] == OptimizationRow::MassFraction);
    assert(rows[1] == OptimizationRow::MinFeature);
    assert(rows[2] == OptimizationRow::Penalty);
    assert(rows[3] == OptimizationRow::MaxIterations);
    assert(rows[4] == OptimizationRow::ConvergenceTol);
    assert(rows[5] == OptimizationRow::Update);
    assert(rows[6] == OptimizationRow::Overhang);
    let after = if optimization.overhang is Some {
        8int
    } else {
        7int
    };
    assert(optimization.overhang is Some ==> rows[7] == OptimizationRow::BuildDirection);
    assert(rows[after] == OptimizationRow::Wireframe);
    if optimization.wireframe is Some {
        assert(rows[after + 1] == OptimizationRow::WireRadius);
        assert(rows[after + 2] == OptimizationRow::HoldIterations);
        assert(rows[after + 3] == OptimizationRow::SeedDensity);
    }
    let cap = if optimization.wireframe is Some {
        after + 4
    } else {
        after + 1
    };
    assert(rows[cap] == OptimizationRow::LocalVolume);
    if optimization.local_volume is Some {
        assert(rows[cap + 1] == OptimizationRow::MaxFraction);
        assert(rows[cap + 2] == OptimizationRow::LocalRadius);
    }
}

/// The two keys of the solver table are written independently: writing one keeps
/// the other, in either order.
pub proof fn law_solver_keys_are_independent(
    solver: Option<SolverConfig>,
    backend: SolverBackend,
    tolerance: Option<Scalar>,
)
    ensures
        solver_with_tolerance(Some(solver_with_backend(solver, backend)), tolerance)
            == solver_with_backend(Some(solver_with_tolerance(solver, tolerance)), backend),
        solver_with_tolerance(solver, tolerance).backend == (match solver {
            Some(solver) => solver.backend,
            None => None,
        }),
        solver_with_backend(solver, backend).tolerance == (match solver {
            Some(solver) => solver.tolerance,
            None => None,
        }),
{
}

/// A solver table with its backend written.
pub open spec fn solver_with_backend(
    solver: Option<SolverConfig>,
    backend: SolverBackend,
) -> SolverConfig {
    SolverConfig {
        backend: Some(backend),
        tolerance: match solver {
            Some(solver) => solver.tolerance,
            None => None,
        },
    }
}

/// A solver table with its tolerance written, or taken out.
pub open spec fn solver_with_tolerance(
    solver: Option<SolverConfig>,
    tolerance: Option<Scalar>,
) -> SolverConfig {
    SolverConfig {
        backend: match solver {
            Some(solver) => solver.backend,
            None => None,
        },
        tolerance,
    }
}

/// The couplings of the resolution, the material and the engine survive every
/// row over them: switching from one key to the other writes the one and takes
/// the other out, and leaving the growth engine takes its table along.
pub proof fn law_switching_keeps_the_couplings(
    config: ConfigView,
    resolution: ResolutionEdit,
    material: MaterialEdit,
    presets: Seq<MaterialPreset>,
    engine: Seq<char>,
)
    requires
        couplings_hold(config),
        presets.len() > 0,
    ensures
        couplings_hold(
            ConfigView {
                resolution: resolution_edited(config.resolution, resolution),
                ..config
            },
        ),
        couplings_hold(
            ConfigView { material: material_edited(config.material, material, presets), ..config },
        ),
        config.optimization.overhang is None || engine != GROWTH_ENGINE@ ==> couplings_hold(
            engine_chosen(config, engine),
        ),
{
}

/// One row of the growth section.
#[derive(Clone, Copy, Debug, PartialEq, Eq, Structural)]
pub enum GrowthRow {
    /// The seed.
    Seed,
    /// Attraction points per cm3.
    AttractorPerCm3,
    /// The exponent of Murray's law.
    MurrayExponent,
    /// How far a tip sees a point.
    AttractionRadius,
    /// How close a branch comes to consume one.
    KillRadius,
    /// The length of a step.
    Step,
    /// The thickest strut.
    MaxRadius,
    /// The cap on steps.
    MaxSteps,
    /// Whether free tips are removed.
    Prune,
    /// The switch of the symmetry.
    Symmetry,
    /// How the sector is replicated.
    SymmetryKind,
    /// The first mirror plane.
    FirstPlane,
    /// The second mirror plane.
    SecondPlane,
    /// The number of sectors.
    Order,
    /// The axis the sectors are turned about.
    RotationAxis,
}

/// The rows a symmetry table offers: only the keys of the kind it has.
pub open spec fn symmetry_rows_of(symmetry: Option<SymmetryView>) -> Seq<GrowthRow> {
    match symmetry {
        None => seq![GrowthRow::Symmetry],
        Some(table) => match table.kind {
            SymmetryKind::Mirror => seq![
                GrowthRow::Symmetry,
                GrowthRow::SymmetryKind,
                GrowthRow::FirstPlane,
                GrowthRow::SecondPlane,
            ],
            SymmetryKind::Rotational => seq![
                GrowthRow::Symmetry,
                GrowthRow::SymmetryKind,
                GrowthRow::Order,
                GrowthRow::RotationAxis,
            ],
        },
    }
}

/// The rows the growth section offers, in order; none at all under another
/// engine. A growth configuration that pins nothing still gets its controls.
pub open spec fn growth_rows_of(is_growth: bool, growth: Option<GrowthView>) -> Seq<GrowthRow> {
    if is_growth {
        seq![
            GrowthRow::Seed,
            GrowthRow::AttractorPerCm3,
            GrowthRow::MurrayExponent,
            GrowthRow::AttractionRadius,
            GrowthRow::KillRadius,
            GrowthRow::Step,
            GrowthRow::MaxRadius,
            GrowthRow::MaxSteps,
            GrowthRow::Prune,
        ] + symmetry_rows_of(
            match growth {
                Some(growth) => growth.symmetry,
                None => None,
            },
        )
    } else {
        seq![]
    }
}

/// The rows the growth section offers.
pub fn growth_rows(is_growth: bool, growth: &Option<GrowthConfig>) -> (rows: Vec<GrowthRow>)
    ensures
        rows@ == growth_rows_of(is_growth, growth_of(*growth)),
{
    let mut rows: Vec<GrowthRow> = Vec::new();
    if !is_growth {
        assert(rows@ =~= growth_rows_of(is_growth, growth_of(*growth)));
        return rows;
    }
    rows.push(GrowthRow::Seed);
    rows.push(GrowthRow::AttractorPerCm3);
    rows.push(GrowthRow::MurrayExponent);
    rows.push(GrowthRow::AttractionRadius);
    rows.push(GrowthRow::KillRadius);
    rows.push(GrowthRow::Step);
    rows.push(GrowthRow::MaxRadius);
    rows.push(GrowthRow::MaxSteps);
    rows.push(GrowthRow::Prune);
    rows.push(GrowthRow::Symmetry);
    if let Some(growth) = growth {
        if let Some(symmetry) = &growth.symmetry {
            rows.push(GrowthRow::SymmetryKind);
            match symmetry.kind {
                SymmetryKind::Mirror => {
                    rows.push(GrowthRow::FirstPlane);
                    rows.push(GrowthRow::SecondPlane);
                },
                SymmetryKind::Rotational => {
                    rows.push(GrowthRow::Order);
                    rows.push(GrowthRow::RotationAxis);
                },
            }
        }
    }
    assert(rows@ =~= growth_rows_of(is_growth, growth_of(*growth)));
    rows
}

/// One row of the material section.
#[derive(Clone, Copy, Debug, PartialEq, Eq, Structural)]
pub enum MaterialRow {
    /// Whether the material is a preset or four values of one's own.
    GivenAs,
    /// The preset.
    Preset,
    /// One of the four values.
    Property(MaterialProperty),
}

/// A row for a value that is there.
pub open spec fn property_row(property: MaterialProperty, value: Option<Scalar>) -> Seq<
    MaterialRow,
> {
    if value is Some {
        seq![MaterialRow::Property(property)]
    } else {
        seq![]
    }
}

/// The rows the material section offers, in order.
pub open spec fn material_rows_of(material: MaterialView) -> Seq<MaterialRow> {
    if material.preset is Some {
        seq![MaterialRow::GivenAs, MaterialRow::Preset]
    } else {
        seq![MaterialRow::GivenAs] + property_row(
            MaterialProperty::YoungsModulus,
            material.youngs_modulus_mpa,
        ) + property_row(MaterialProperty::PoissonRatio, material.poisson_ratio) + property_row(
            MaterialProperty::Density,
            material.density_g_cm3,
        ) + property_row(MaterialProperty::YieldStrength, material.yield_strength_mpa)
    }
}

/// The rows the material section offers.
pub fn material_rows(material: &MaterialConfig) -> (rows: Vec<MaterialRow>)
    ensures
        rows@ == material_rows_of(material@),
{
    let mut rows: Vec<MaterialRow> = Vec::new();
    rows.push(MaterialRow::GivenAs);
    if material.preset.is_some() {
        rows.push(MaterialRow::Preset);
    } else {
        if material.youngs_modulus_mpa.is_some() {
            rows.push(MaterialRow::Property(MaterialProperty::YoungsModulus));
        }
        if material.poisson_ratio.is_some() {
            rows.push(MaterialRow::Property(MaterialProperty::PoissonRatio));
        }
        if material.density_g_cm3.is_some() {
            rows.push(MaterialRow::Property(MaterialProperty::Density));
        }
        if material.yield_strength_mpa.is_some() {
            rows.push(MaterialRow::Property(MaterialProperty::YieldStrength));
        }
    }
    assert(rows@ =~= material_rows_of(material@));
    rows
}

} // verus!
