//! The configuration document the editor works on.
//!
//! Every type has a view in which a text is its characters and a list its
//! entries, and a comparison that treats numbers as numbers: a value that is not
//! a number equals nothing, not even itself.

use vstd::prelude::*;

use crate::scalar::Scalar;
use crate::shapes::Vec3;
use crate::voids::VoidPolicy;

verus! {

/// A world axis.
#[derive(Clone, Copy, Debug, PartialEq, Eq, Structural)]
pub enum Axis {
    /// The x axis.
    X,
    /// The y axis.
    Y,
    /// The z axis.
    Z,
}

/// How a domain entry joins the design space.
#[derive(Clone, Copy, Debug, PartialEq, Eq, Structural)]
pub enum CsgOpSpec {
    /// The entry is added.
    Add,
    /// The entry is taken out.
    Subtract,
}

/// Which device the finite element solve runs on.
#[derive(Clone, Copy, Debug, PartialEq, Eq, Structural)]
pub enum SolverBackend {
    /// The processor.
    Cpu,
    /// The compute device.
    Gpu,
}

/// Which scheme moves the design variables.
#[derive(Clone, Copy, Debug, PartialEq, Eq, Structural)]
pub enum UpdateScheme {
    /// The optimality criteria step.
    Oc,
    /// The method of moving asymptotes.
    Mma,
}

/// The direction a printer's layers stack in.
#[derive(Clone, Copy, Debug, PartialEq, Eq, Structural)]
pub enum BuildDirection {
    /// Along x.
    XPlus,
    /// Against x.
    XMinus,
    /// Along y.
    YPlus,
    /// Against y.
    YMinus,
    /// Along z.
    ZPlus,
    /// Against z.
    ZMinus,
}

/// What happens to loose pieces of the exported surface.
#[derive(Clone, Copy, Debug, PartialEq, Eq, Structural)]
pub enum IslandPolicy {
    /// They are removed.
    Cull,
    /// They are exported.
    Keep,
}

/// How closely the exported surface follows the configured shapes.
#[derive(Clone, Copy, Debug, PartialEq, Eq, Structural)]
pub enum BoundaryFidelity {
    /// Vertices are projected back onto the analytic surfaces.
    Exact,
    /// The isosurface is exported as the field produced it.
    Voxel,
}

/// What happens to material that carries no load.
#[derive(Clone, Copy, Debug, PartialEq, Eq, Structural)]
pub enum TrimPolicy {
    /// It stays.
    Off,
    /// It goes where its stress is negligible.
    Stress,
}

/// What happens to material too thin to print.
#[derive(Clone, Copy, Debug, PartialEq, Eq, Structural)]
pub enum ReinforcePolicy {
    /// It stays as it is.
    Off,
    /// It is thickened to a floor.
    MinThickness,
}

/// How a grown sector is replicated.
#[derive(Clone, Copy, Debug, PartialEq, Eq, Structural)]
pub enum SymmetryKind {
    /// Reflected about planes.
    Mirror,
    /// Turned about an axis.
    Rotational,
}

impl Default for VoidPolicy {
    fn default() -> (policy: VoidPolicy)
        ensures
            policy == VoidPolicy::Warn,
    {
        VoidPolicy::Warn
    }
}

impl Default for UpdateScheme {
    fn default() -> (scheme: UpdateScheme)
        ensures
            scheme == UpdateScheme::Oc,
    {
        UpdateScheme::Oc
    }
}

impl Default for IslandPolicy {
    fn default() -> (policy: IslandPolicy)
        ensures
            policy == IslandPolicy::Cull,
    {
        IslandPolicy::Cull
    }
}

impl Default for BoundaryFidelity {
    fn default() -> (fidelity: BoundaryFidelity)
        ensures
            fidelity == BoundaryFidelity::Exact,
    {
        BoundaryFidelity::Exact
    }
}

impl Default for TrimPolicy {
    fn default() -> (policy: TrimPolicy)
        ensures
            policy == TrimPolicy::Off,
    {
        TrimPolicy::Off
    }
}

impl Default for ReinforcePolicy {
    fn default() -> (policy: ReinforcePolicy)
        ensures
            policy == ReinforcePolicy::Off,
    {
        ReinforcePolicy::Off
    }
}

/// What a file calls a boundary fidelity.
pub open spec fn fidelity_label(fidelity: BoundaryFidelity) -> Seq<char> {
    match fidelity {
        BoundaryFidelity::Exact => "exact"@,
        BoundaryFidelity::Voxel => "voxel"@,
    }
}

impl BoundaryFidelity {
    /// What a file calls it.
    pub fn label(self) -> (label: &'static str)
        ensures
            label@ == fidelity_label(self),
    {
        match self {
            BoundaryFidelity::Exact => "exact",
            BoundaryFidelity::Voxel => "voxel",
        }
    }
}

/// What a file calls a trim policy.
pub open spec fn trim_label(policy: TrimPolicy) -> Seq<char> {
    match policy {
        TrimPolicy::Off => "off"@,
        TrimPolicy::Stress => "stress"@,
    }
}

impl TrimPolicy {
    /// What a file calls it.
    pub fn label(self) -> (label: &'static str)
        ensures
            label@ == trim_label(self),
    {
        match self {
            TrimPolicy::Off => "off",
            TrimPolicy::Stress => "stress",
        }
    }
}

/// What a file calls a reinforcement policy.
pub open spec fn reinforce_label(policy: ReinforcePolicy) -> Seq<char> {
    match policy {
        ReinforcePolicy::Off => "off"@,
        ReinforcePolicy::MinThickness => "min_thickness"@,
    }
}

impl ReinforcePolicy {
    /// What a file calls it.
    pub fn label(self) -> (label: &'static str)
        ensures
            label@ == reinforce_label(self),
    {
        match self {
            ReinforcePolicy::Off => "off",
            ReinforcePolicy::MinThickness => "min_thickness",
        }
    }
}

/// A shape as the file writes it.
#[derive(Clone, Copy, Debug)]
pub enum ShapeSpec {
    /// A box.
    Box {
        /// Lowest corner.
        min: Vec3,
        /// Highest corner.
        max: Vec3,
        /// Turn about each axis in degrees, where the file carries one.
        rotation_deg: Option<Vec3>,
    },
    /// A cylinder.
    Cylinder {
        /// Centre of one cap.
        p1: Vec3,
        /// Centre of the other.
        p2: Vec3,
        /// Radius.
        radius: Scalar,
    },
    /// A sphere.
    Sphere {
        /// Centre.
        center: Vec3,
        /// Radius.
        radius: Scalar,
    },
    /// An ellipsoid.
    Ellipsoid {
        /// Centre.
        center: Vec3,
        /// Semi-axes.
        radii: Vec3,
        /// Turn about each axis in degrees, where the file carries one.
        rotation_deg: Option<Vec3>,
    },
    /// A tube.
    Tube {
        /// One end of the centre line.
        p1: Vec3,
        /// The other end.
        p2: Vec3,
        /// The point the centre line curves through, where there is one.
        bend: Option<Vec3>,
        /// Radius.
        radius: Scalar,
    },
    /// A cone.
    Cone {
        /// Centre of the wide cap.
        p1: Vec3,
        /// Centre of the other.
        p2: Vec3,
        /// Radius at the first.
        radius1: Scalar,
        /// Radius at the second.
        radius2: Scalar,
    },
    /// A triangular prism.
    Triangle {
        /// First corner.
        a: Vec3,
        /// Second corner.
        b: Vec3,
        /// Third corner.
        c: Vec3,
        /// Thickness.
        thickness: Scalar,
    },
}

/// The `[solver]` table.
#[derive(Clone, Copy, Debug)]
pub struct SolverConfig {
    /// The device, where one is named.
    pub backend: Option<SolverBackend>,
    /// The relative residual, where one is pinned.
    pub tolerance: Option<Scalar>,
}

/// The `[resolution]` table.
#[derive(Clone, Copy, Debug)]
pub struct ResolutionConfig {
    /// Edge length of a voxel.
    pub voxel_size_mm: Option<Scalar>,
    /// Number of cells to derive it from.
    pub target_cells: Option<usize>,
}

/// The `[material]` table.
#[derive(Debug)]
pub struct MaterialConfig {
    /// A built-in material.
    pub preset: Option<String>,
    /// Young's modulus in MPa.
    pub youngs_modulus_mpa: Option<Scalar>,
    /// Poisson's ratio.
    pub poisson_ratio: Option<Scalar>,
    /// Density in g/cm3.
    pub density_g_cm3: Option<Scalar>,
    /// Yield strength in MPa.
    pub yield_strength_mpa: Option<Scalar>,
}

/// The `[optimization.overhang]` table.
#[derive(Clone, Copy, Debug, PartialEq, Eq, Structural)]
pub struct OverhangConfig {
    /// The direction the layers stack in.
    pub build_direction: BuildDirection,
}

/// The `[optimization.wireframe]` table.
#[derive(Clone, Copy, Debug)]
pub struct WireframeConfig {
    /// Radius of the guide wire.
    pub radius_mm: Option<Scalar>,
    /// Iterations the wire is held for.
    pub hold_iterations: Option<usize>,
    /// Density the wire is held at.
    pub seed_density: Option<Scalar>,
}

/// The `[optimization.local_volume]` table.
#[derive(Clone, Copy, Debug)]
pub struct LocalVolumeConfig {
    /// Largest share of material a neighbourhood may hold.
    pub max_fraction: Option<Scalar>,
    /// Radius of the neighbourhood.
    pub radius_mm: Option<Scalar>,
}

/// The `[optimization]` table.
#[derive(Clone, Copy, Debug)]
pub struct OptimizationConfig {
    /// Share of the design space that ends up as material.
    pub mass_fraction: Scalar,
    /// Smallest feature the design may hold.
    pub min_feature_mm: Scalar,
    /// Exponent of the material interpolation.
    pub penalty: Option<Scalar>,
    /// Budget of iterations.
    pub max_iterations: Option<usize>,
    /// Change below which a run has converged.
    pub convergence_tol: Option<Scalar>,
    /// Update scheme.
    pub update: Option<UpdateScheme>,
    /// Overhang constraint, where it is on.
    pub overhang: Option<OverhangConfig>,
    /// Guide wireframe, where it is on.
    pub wireframe: Option<WireframeConfig>,
    /// Local volume cap, where it is on.
    pub local_volume: Option<LocalVolumeConfig>,
}

/// The `[growth.symmetry]` table.
#[derive(Debug)]
pub struct SymmetryConfig {
    /// How the sector is replicated.
    pub kind: SymmetryKind,
    /// Normals of the mirror planes.
    pub planes: Option<Vec<Axis>>,
    /// Number of sectors of a full turn.
    pub order: Option<usize>,
    /// Axis the sectors are turned about.
    pub axis: Option<Axis>,
}

/// The `[growth]` table.
#[derive(Debug)]
pub struct GrowthConfig {
    /// Seed of the scattering.
    pub seed: Option<u64>,
    /// Attraction points per cm3.
    pub attractor_per_cm3: Option<Scalar>,
    /// How far a tip sees a point.
    pub attraction_radius_mm: Option<Scalar>,
    /// How close a branch has to come to consume one.
    pub kill_radius_mm: Option<Scalar>,
    /// Length of a growth step.
    pub step_mm: Option<Scalar>,
    /// Exponent of Murray's law.
    pub murray_exponent: Option<Scalar>,
    /// Thickest strut.
    pub max_radius_mm: Option<Scalar>,
    /// Cap on growth steps.
    pub max_steps: Option<usize>,
    /// Whether free tips are removed.
    pub prune: Option<bool>,
    /// Symmetry, where there is one.
    pub symmetry: Option<SymmetryConfig>,
}

/// The `[output]` table.
#[derive(Debug)]
pub struct OutputConfig {
    /// Where the part is written.
    pub stl_path: String,
    /// Density the surface is drawn at.
    pub iso_level: Option<Scalar>,
    /// Smoothing passes.
    pub smoothing_iterations: Option<usize>,
    /// Refinement of the meshing lattice.
    pub supersample: Option<usize>,
    /// What happens to enclosed cavities.
    pub voids: Option<VoidPolicy>,
    /// What happens to loose pieces.
    pub islands: Option<IslandPolicy>,
    /// How closely the surface follows the shapes.
    pub boundaries: Option<BoundaryFidelity>,
    /// What happens to idle material.
    pub trim: Option<TrimPolicy>,
    /// Share of the peak stress that counts as idle.
    pub trim_stress_fraction: Option<Scalar>,
    /// What happens to thin material.
    pub reinforce: Option<ReinforcePolicy>,
    /// Thickness every member is held to.
    pub reinforce_thickness_mm: Option<Scalar>,
    /// Where the stress report is written.
    pub stress_json: Option<String>,
}

/// One entry of the design space.
#[derive(Clone, Copy, Debug)]
pub struct DomainEntry {
    /// Its shape.
    pub shape: ShapeSpec,
    /// How it joins the rest.
    pub op: CsgOpSpec,
}

/// One support.
#[derive(Debug)]
pub struct SupportSpec {
    /// The region it holds.
    pub region: ShapeSpec,
    /// The directions it holds, all of them where the key is absent.
    pub directions: Option<Vec<Axis>>,
}

/// One load.
#[derive(Clone, Copy, Debug)]
pub enum LoadSpec {
    /// A force over a region.
    Force {
        /// The region.
        region: ShapeSpec,
        /// The force in newtons.
        vector: Vec3,
    },
    /// A torque over a region.
    Torque {
        /// The region.
        region: ShapeSpec,
        /// A point of the axis.
        axis_point: Vec3,
        /// The direction of the axis.
        axis_dir: Vec3,
        /// The torque in newton-millimetres.
        magnitude_nmm: Scalar,
    },
    /// Self weight.
    Gravity {
        /// Which way it pulls.
        direction: Option<Vec3>,
        /// How hard it pulls.
        g_mm_s2: Option<Scalar>,
    },
}

/// One load case.
#[derive(Debug)]
pub struct LoadCase {
    /// What the reports call it.
    pub name: String,
    /// How much it counts.
    pub weight: Option<Scalar>,
    /// Its loads.
    pub loads: Vec<LoadSpec>,
}

/// The `[project]` table.
#[derive(Debug)]
pub struct ProjectConfig {
    /// Name of the project.
    pub name: String,
    /// Engine, where this table is where the file keeps it.
    pub engine: Option<String>,
}

/// A whole configuration.
#[derive(Debug)]
pub struct Config {
    /// The `[project]` table.
    pub project: ProjectConfig,
    /// The engine, where the file keeps it at the top.
    pub engine: Option<String>,
    /// The `[solver]` table.
    pub solver: Option<SolverConfig>,
    /// The `[resolution]` table.
    pub resolution: ResolutionConfig,
    /// The `[material]` table.
    pub material: MaterialConfig,
    /// The `[optimization]` table.
    pub optimization: OptimizationConfig,
    /// The `[growth]` table.
    pub growth: Option<GrowthConfig>,
    /// The `[output]` table.
    pub output: OutputConfig,
    /// The design space.
    pub domain: Vec<DomainEntry>,
    /// Regions that must stay empty.
    pub keepout: Vec<ShapeSpec>,
    /// Regions forced solid.
    pub keepin: Vec<ShapeSpec>,
    /// The supports.
    pub supports: Vec<SupportSpec>,
    /// The load cases.
    pub loadcases: Vec<LoadCase>,
}

/// A text that may be absent, as its characters.
pub open spec fn text_of(text: Option<String>) -> Option<Seq<char>> {
    match text {
        Some(text) => Some(text@),
        None => None,
    }
}

/// A list that may be absent, as its entries.
pub open spec fn list_of<T>(list: Option<Vec<T>>) -> Option<Seq<T>> {
    match list {
        Some(list) => Some(list@),
        None => None,
    }
}

/// What a [`MaterialConfig`] says.
#[verifier::ext_equal]
pub struct MaterialView {
    /// See [`MaterialConfig::preset`].
    pub preset: Option<Seq<char>>,
    /// See [`MaterialConfig::youngs_modulus_mpa`].
    pub youngs_modulus_mpa: Option<Scalar>,
    /// See [`MaterialConfig::poisson_ratio`].
    pub poisson_ratio: Option<Scalar>,
    /// See [`MaterialConfig::density_g_cm3`].
    pub density_g_cm3: Option<Scalar>,
    /// See [`MaterialConfig::yield_strength_mpa`].
    pub yield_strength_mpa: Option<Scalar>,
}

/// What a [`SymmetryConfig`] says.
#[verifier::ext_equal]
pub struct SymmetryView {
    /// See [`SymmetryConfig::kind`].
    pub kind: SymmetryKind,
    /// See [`SymmetryConfig::planes`].
    pub planes: Option<Seq<Axis>>,
    /// See [`SymmetryConfig::order`].
    pub order: Option<usize>,
    /// See [`SymmetryConfig::axis`].
    pub axis: Option<Axis>,
}

/// What a [`GrowthConfig`] says.
#[verifier::ext_equal]
pub struct GrowthView {
    /// See [`GrowthConfig::seed`].
    pub seed: Option<u64>,
    /// See [`GrowthConfig::attractor_per_cm3`].
    pub attractor_per_cm3: Option<Scalar>,
    /// See [`GrowthConfig::attraction_radius_mm`].
    pub attraction_radius_mm: Option<Scalar>,
    /// See [`GrowthConfig::kill_radius_mm`].
    pub kill_radius_mm: Option<Scalar>,
    /// See [`GrowthConfig::step_mm`].
    pub step_mm: Option<Scalar>,
    /// See [`GrowthConfig::murray_exponent`].
    pub murray_exponent: Option<Scalar>,
    /// See [`GrowthConfig::max_radius_mm`].
    pub max_radius_mm: Option<Scalar>,
    /// See [`GrowthConfig::max_steps`].
    pub max_steps: Option<usize>,
    /// See [`GrowthConfig::prune`].
    pub prune: Option<bool>,
    /// See [`GrowthConfig::symmetry`].
    pub symmetry: Option<SymmetryView>,
}

/// What an [`OutputConfig`] says.
#[verifier::ext_equal]
pub struct OutputView {
    /// See [`OutputConfig::stl_path`].
    pub stl_path: Seq<char>,
    /// See [`OutputConfig::iso_level`].
    pub iso_level: Option<Scalar>,
    /// See [`OutputConfig::smoothing_iterations`].
    pub smoothing_iterations: Option<usize>,
    /// See [`OutputConfig::supersample`].
    pub supersample: Option<usize>,
    /// See [`OutputConfig::voids`].
    pub voids: Option<VoidPolicy>,
    /// See [`OutputConfig::islands`].
    pub islands: Option<IslandPolicy>,
    /// See [`OutputConfig::boundaries`].
    pub boundaries: Option<BoundaryFidelity>,
    /// See [`OutputConfig::trim`].
    pub trim: Option<TrimPolicy>,
    /// See [`OutputConfig::trim_stress_fraction`].
    pub trim_stress_fraction: Option<Scalar>,
    /// See [`OutputConfig::reinforce`].
    pub reinforce: Option<ReinforcePolicy>,
    /// See [`OutputConfig::reinforce_thickness_mm`].
    pub reinforce_thickness_mm: Option<Scalar>,
    /// See [`OutputConfig::stress_json`].
    pub stress_json: Option<Seq<char>>,
}

/// What a [`SupportSpec`] says.
#[verifier::ext_equal]
pub struct SupportView {
    /// See [`SupportSpec::region`].
    pub region: ShapeSpec,
    /// See [`SupportSpec::directions`].
    pub directions: Option<Seq<Axis>>,
}

/// What a [`LoadCase`] says.
#[verifier::ext_equal]
pub struct LoadCaseView {
    /// See [`LoadCase::name`].
    pub name: Seq<char>,
    /// See [`LoadCase::weight`].
    pub weight: Option<Scalar>,
    /// See [`LoadCase::loads`].
    pub loads: Seq<LoadSpec>,
}

/// What a [`Config`] says.
#[verifier::ext_equal]
pub struct ConfigView {
    /// Name of the project.
    pub name: Seq<char>,
    /// Engine in the `[project]` table.
    pub project_engine: Option<Seq<char>>,
    /// See [`Config::engine`].
    pub engine: Option<Seq<char>>,
    /// See [`Config::solver`].
    pub solver: Option<SolverConfig>,
    /// See [`Config::resolution`].
    pub resolution: ResolutionConfig,
    /// See [`Config::material`].
    pub material: MaterialView,
    /// See [`Config::optimization`].
    pub optimization: OptimizationConfig,
    /// See [`Config::growth`].
    pub growth: Option<GrowthView>,
    /// See [`Config::output`].
    pub output: OutputView,
    /// See [`Config::domain`].
    pub domain: Seq<DomainEntry>,
    /// See [`Config::keepout`].
    pub keepout: Seq<ShapeSpec>,
    /// See [`Config::keepin`].
    pub keepin: Seq<ShapeSpec>,
    /// See [`Config::supports`].
    pub supports: Seq<SupportView>,
    /// See [`Config::loadcases`].
    pub loadcases: Seq<LoadCaseView>,
}

impl View for MaterialConfig {
    type V = MaterialView;

    open spec fn view(&self) -> MaterialView {
        MaterialView {
            preset: text_of(self.preset),
            youngs_modulus_mpa: self.youngs_modulus_mpa,
            poisson_ratio: self.poisson_ratio,
            density_g_cm3: self.density_g_cm3,
            yield_strength_mpa: self.yield_strength_mpa,
        }
    }
}

impl View for SymmetryConfig {
    type V = SymmetryView;

    open spec fn view(&self) -> SymmetryView {
        SymmetryView {
            kind: self.kind,
            planes: list_of(self.planes),
            order: self.order,
            axis: self.axis,
        }
    }
}

/// What a symmetry table that may be absent says.
pub open spec fn symmetry_of(symmetry: Option<SymmetryConfig>) -> Option<SymmetryView> {
    match symmetry {
        Some(symmetry) => Some(symmetry@),
        None => None,
    }
}

impl View for GrowthConfig {
    type V = GrowthView;

    open spec fn view(&self) -> GrowthView {
        GrowthView {
            seed: self.seed,
            attractor_per_cm3: self.attractor_per_cm3,
            attraction_radius_mm: self.attraction_radius_mm,
            kill_radius_mm: self.kill_radius_mm,
            step_mm: self.step_mm,
            murray_exponent: self.murray_exponent,
            max_radius_mm: self.max_radius_mm,
            max_steps: self.max_steps,
            prune: self.prune,
            symmetry: symmetry_of(self.symmetry),
        }
    }
}

/// What a growth table that may be absent says.
pub open spec fn growth_of(growth: Option<GrowthConfig>) -> Option<GrowthView> {
    match growth {
        Some(growth) => Some(growth@),
        None => None,
    }
}

impl View for OutputConfig {
    type V = OutputView;

    open spec fn view(&self) -> OutputView {
        OutputView {
            stl_path: self.stl_path@,
            iso_level: self.iso_level,
            smoothing_iterations: self.smoothing_iterations,
            supersample: self.supersample,
            voids: self.voids,
            islands: self.islands,
            boundaries: self.boundaries,
            trim: self.trim,
            trim_stress_fraction: self.trim_stress_fraction,
            reinforce: self.reinforce,
            reinforce_thickness_mm: self.reinforce_thickness_mm,
            stress_json: text_of(self.stress_json),
        }
    }
}

impl View for SupportSpec {
    type V = SupportView;

    open spec fn view(&self) -> SupportView {
        SupportView { region: self.region, directions: list_of(self.directions) }
    }
}

impl View for LoadCase {
    type V = LoadCaseView;

    open spec fn view(&self) -> LoadCaseView {
        LoadCaseView { name: self.name@, weight: self.weight, loads: self.loads@ }
    }
}

impl View for Config {
    type V = ConfigView;

    open spec fn view(&self) -> ConfigView {
        ConfigView {
            name: self.project.name@,
            project_engine: text_of(self.project.engine),
            engine: text_of(self.engine),
            solver: self.solver,
            resolution: self.resolution,
            material: self.material@,
            optimization: self.optimization,
            growth: growth_of(self.growth),
            output: self.output@,
            domain: self.domain@,
            keepout: self.keepout@,
            keepin: self.keepin@,
            supports: self.supports@.map_values(|s: SupportSpec| s@),
            loadcases: self.loadcases@.map_values(|c: LoadCase| c@),
        }
    }
}

fn copy_text(text: &Option<String>) -> (copy: Option<String>)
    ensures
        text_of(copy) == text_of(*text),
{
    match text {
        Some(text) => Some(text.clone()),
        None => None,
    }
}

fn copy_list<T: Copy>(list: &Vec<T>) -> (copy: Vec<T>)
    ensures
        copy@ == list@,
{
    let mut copy: Vec<T> = Vec::new();
    let mut k: usize = 0;
    while k < list.len()
        invariant
            k <= list@.len(),
            copy@ == list@.take(k as int),
        decreases list@.len() - k,
    {
        copy.push(list[k]);
        assert(copy@ =~= list@.take(k + 1));
        k += 1;
    }
    assert(list@.take(k as int) =~= list@);
    copy
}

fn copy_optional_list<T: Copy>(list: &Option<Vec<T>>) -> (copy: Option<Vec<T>>)
    ensures
        list_of(copy) == list_of(*list),
{
    match list {
        Some(list) => Some(copy_list(list)),
        None => None,
    }
}

impl MaterialConfig {
    /// A second configuration that says the same.
    pub fn copy(&self) -> (copy: MaterialConfig)
        ensures
            copy@ == self@,
    {
        MaterialConfig {
            preset: copy_text(&self.preset),
            youngs_modulus_mpa: self.youngs_modulus_mpa,
            poisson_ratio: self.poisson_ratio,
            density_g_cm3: self.density_g_cm3,
            yield_strength_mpa: self.yield_strength_mpa,
        }
    }
}

impl SymmetryConfig {
    /// A second table that says the same.
    pub fn copy(&self) -> (copy: SymmetryConfig)
        ensures
            copy@ == self@,
    {
        SymmetryConfig {
            kind: self.kind,
            planes: copy_optional_list(&self.planes),
            order: self.order,
            axis: self.axis,
        }
    }
}

impl GrowthConfig {
    /// A second table that says the same.
    pub fn copy(&self) -> (copy: GrowthConfig)
        ensures
            copy@ == self@,
    {
        let symmetry = match &self.symmetry {
            Some(symmetry) => Some(symmetry.copy()),
            None => None,
        };
        GrowthConfig {
            seed: self.seed,
            attractor_per_cm3: self.attractor_per_cm3,
            attraction_radius_mm: self.attraction_radius_mm,
            kill_radius_mm: self.kill_radius_mm,
            step_mm: self.step_mm,
            murray_exponent: self.murray_exponent,
            max_radius_mm: self.max_radius_mm,
            max_steps: self.max_steps,
            prune: self.prune,
            symmetry,
        }
    }
}

impl OutputConfig {
    /// A second table that says the same.
    pub fn copy(&self) -> (copy: OutputConfig)
        ensures
            copy@ == self@,
    {
        OutputConfig {
            stl_path: self.stl_path.clone(),
            iso_level: self.iso_level,
            smoothing_iterations: self.smoothing_iterations,
            supersample: self.supersample,
            voids: self.voids,
            islands: self.islands,
            boundaries: self.boundaries,
            trim: self.trim,
            trim_stress_fraction: self.trim_stress_fraction,
            reinforce: self.reinforce,
            reinforce_thickness_mm: self.reinforce_thickness_mm,
            stress_json: copy_text(&self.stress_json),
        }
    }
}

impl SupportSpec {
    /// A second support that says the same.
    pub fn copy(&self) -> (copy: SupportSpec)
        ensures
            copy@ == self@,
    {
        SupportSpec { region: self.region, directions: copy_optional_list(&self.directions) }
    }
}

impl LoadCase {
    /// A second load case that says the same.
    pub fn copy(&self) -> (copy: LoadCase)
        ensures
            copy@ == self@,
    {
        LoadCase {
            name: self.name.clone(),
            weight: self.weight,
            loads: copy_list(&self.loads),
        }
    }
}

impl Config {
    /// A second configuration that says the same.
    pub fn copy(&self) -> (copy: Config)
        ensures
            copy@ == self@,
    {
        let growth = match &self.growth {
            Some(growth) => Some(growth.copy()),
            None => None,
        };
        let mut supports: Vec<SupportSpec> = Vec::new();
        let mut s: usize = 0;
        while s < self.supports.len()
            invariant
                s <= self.supports@.len(),
                supports@.len() == s,
                forall|k: int| 0 <= k < s ==> (#[trigger] supports@[k])@ == self.supports@[k]@,
            decreases self.supports@.len() - s,
        {
            supports.push(self.supports[s].copy());
            s += 1;
        }
        let mut loadcases: Vec<LoadCase> = Vec::new();
        let mut c: usize = 0;
        while c < self.loadcases.len()
            invariant
                c <= self.loadcases@.len(),
                loadcases@.len() == c,
                forall|k: int| 0 <= k < c ==> (#[trigger] loadcases@[k])@ == self.loadcases@[k]@,
            decreases self.loadcases@.len() - c,
        {
            loadcases.push(self.loadcases[c].copy());
            c += 1;
        }
        let copy = Config {
            project: ProjectConfig {
                name: self.project.name.clone(),
                engine: copy_text(&self.project.engine),
            },
            engine: copy_text(&self.engine),
            solver: self.solver,
            resolution: self.resolution,
            material: self.material.copy(),
            optimization: self.optimization,
            growth,
            output: self.output.copy(),
            domain: copy_list(&self.domain),
            keepout: copy_list(&self.keepout),
            keepin: copy_list(&self.keepin),
            supports,
            loadcases,
        };
        assert(copy@.supports =~= self@.supports);
        assert(copy@.loadcases =~= self@.loadcases);
        copy
    }
}

} // verus!
