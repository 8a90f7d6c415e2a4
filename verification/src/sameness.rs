//! When two configurations are the same.
//!
//! Numbers are the same as numbers are: the two zeros are one number, and what
//! is not a number is the same as nothing. Everything else is the same when it
//! is written the same.

use vstd::prelude::*;

use crate::config::{
    symmetry_of, Axis, BoundaryFidelity, Config, ConfigView, DomainEntry, GrowthConfig, GrowthView,
    IslandPolicy, LoadCase, LoadCaseView, LoadSpec, LocalVolumeConfig, MaterialConfig,
    MaterialView, OptimizationConfig, OutputConfig, OutputView, OverhangConfig, ReinforcePolicy,
    ResolutionConfig, ShapeSpec, SolverBackend, SolverConfig, SupportSpec, SupportView,
    SymmetryConfig, SymmetryView, TrimPolicy, UpdateScheme, WireframeConfig,
};
use crate::config::{growth_of, list_of, text_of};
use crate::scalar::Scalar;
use crate::shapes::Vec3;
use crate::voids::VoidPolicy;

verus! {

/// Two numbers that may be absent.
pub open spec fn same_number(a: Option<Scalar>, b: Option<Scalar>) -> bool {
    match (a, b) {
        (Some(a), Some(b)) => a.equals(b),
        (None, None) => true,
        _ => false,
    }
}

/// Two points.
pub open spec fn same_point(a: Vec3, b: Vec3) -> bool {
    a[0].equals(b[0]) && a[1].equals(b[1]) && a[2].equals(b[2])
}

/// Two points that may be absent.
pub open spec fn same_optional_point(a: Option<Vec3>, b: Option<Vec3>) -> bool {
    match (a, b) {
        (Some(a), Some(b)) => same_point(a, b),
        (None, None) => true,
        _ => false,
    }
}

/// Two shapes.
pub open spec fn same_shape(a: ShapeSpec, b: ShapeSpec) -> bool {
    match (a, b) {
        (
            ShapeSpec::Box { min, max, rotation_deg },
            ShapeSpec::Box { min: min_b, max: max_b, rotation_deg: rotation_b },
        ) => same_point(min, min_b) && same_point(max, max_b) && same_optional_point(
            rotation_deg,
            rotation_b,
        ),
        (
            ShapeSpec::Cylinder { p1, p2, radius },
            ShapeSpec::Cylinder { p1: p1_b, p2: p2_b, radius: radius_b },
        ) => same_point(p1, p1_b) && same_point(p2, p2_b) && radius.equals(radius_b),
        (
            ShapeSpec::Sphere { center, radius },
            ShapeSpec::Sphere { center: center_b, radius: radius_b },
        ) => same_point(center, center_b) && radius.equals(radius_b),
        (
            ShapeSpec::Ellipsoid { center, radii, rotation_deg },
            ShapeSpec::Ellipsoid { center: center_b, radii: radii_b, rotation_deg: rotation_b },
        ) => same_point(center, center_b) && same_point(radii, radii_b) && same_optional_point(
            rotation_deg,
            rotation_b,
        ),
        (
            ShapeSpec::Tube { p1, p2, bend, radius },
            ShapeSpec::Tube { p1: p1_b, p2: p2_b, bend: bend_b, radius: radius_b },
        ) => same_point(p1, p1_b) && same_point(p2, p2_b) && same_optional_point(bend, bend_b)
            && radius.equals(radius_b),
        (
            ShapeSpec::Cone { p1, p2, radius1, radius2 },
            ShapeSpec::Cone { p1: p1_b, p2: p2_b, radius1: radius1_b, radius2: radius2_b },
        ) => same_point(p1, p1_b) && same_point(p2, p2_b) && radius1.equals(radius1_b)
            && radius2.equals(radius2_b),
        (
            ShapeSpec::Triangle { a, b, c, thickness },
            ShapeSpec::Triangle { a: a_b, b: b_b, c: c_b, thickness: thickness_b },
        ) => same_point(a, a_b) && same_point(b, b_b) && same_point(c, c_b) && thickness.equals(
            thickness_b,
        ),
        _ => false,
    }
}

/// Two loads.
pub open spec fn same_load(a: LoadSpec, b: LoadSpec) -> bool {
    match (a, b) {
        (
            LoadSpec::Force { region, vector },
            LoadSpec::Force { region: region_b, vector: vector_b },
        ) => same_shape(region, region_b) && same_point(vector, vector_b),
        (
            LoadSpec::Torque { region, axis_point, axis_dir, magnitude_nmm },
            LoadSpec::Torque {
                region: region_b,
                axis_point: point_b,
                axis_dir: dir_b,
                magnitude_nmm: magnitude_b,
            },
        ) => same_shape(region, region_b) && same_point(axis_point, point_b) && same_point(
            axis_dir,
            dir_b,
        ) && magnitude_nmm.equals(magnitude_b),
        (
            LoadSpec::Gravity { direction, g_mm_s2 },
            LoadSpec::Gravity { direction: direction_b, g_mm_s2: g_b },
        ) => same_optional_point(direction, direction_b) && same_number(g_mm_s2, g_b),
        _ => false,
    }
}

/// Two entries of the design space.
pub open spec fn same_entry(a: DomainEntry, b: DomainEntry) -> bool {
    same_shape(a.shape, b.shape) && a.op == b.op
}

/// Two lists, entry by entry.
pub open spec fn same_list<T>(a: Seq<T>, b: Seq<T>, same: spec_fn(T, T) -> bool) -> bool {
    a.len() == b.len() && forall|k: int| #![trigger a[k]] 0 <= k < a.len() ==> same(a[k], b[k])
}

/// Two solver tables.
pub open spec fn same_solver(a: SolverConfig, b: SolverConfig) -> bool {
    &&& a.backend == b.backend
    &&& same_number(a.tolerance, b.tolerance)
}

/// Two solver tables that may be absent.
pub open spec fn same_optional_solver(a: Option<SolverConfig>, b: Option<SolverConfig>) -> bool {
    match (a, b) {
        (Some(a), Some(b)) => same_solver(a, b),
        (None, None) => true,
        _ => false,
    }
}

/// Two resolution tables.
pub open spec fn same_resolution(a: ResolutionConfig, b: ResolutionConfig) -> bool {
    &&& same_number(a.voxel_size_mm, b.voxel_size_mm)
    &&& a.target_cells == b.target_cells
}

/// Two wireframe tables.
pub open spec fn same_wireframe(a: WireframeConfig, b: WireframeConfig) -> bool {
    &&& same_number(a.radius_mm, b.radius_mm)
    &&& a.hold_iterations == b.hold_iterations
    &&& same_number(a.seed_density, b.seed_density)
}

/// Two wireframe tables that may be absent.
pub open spec fn same_optional_wireframe(a: Option<WireframeConfig>, b: Option<WireframeConfig>) -> bool {
    match (a, b) {
        (Some(a), Some(b)) => same_wireframe(a, b),
        (None, None) => true,
        _ => false,
    }
}

/// Two local volume tables.
pub open spec fn same_local_volume(a: LocalVolumeConfig, b: LocalVolumeConfig) -> bool {
    &&& same_number(a.max_fraction, b.max_fraction)
    &&& same_number(a.radius_mm, b.radius_mm)
}

/// Two local volume tables that may be absent.
pub open spec fn same_optional_local_volume(a: Option<LocalVolumeConfig>, b: Option<LocalVolumeConfig>) -> bool {
    match (a, b) {
        (Some(a), Some(b)) => same_local_volume(a, b),
        (None, None) => true,
        _ => false,
    }
}

/// Two optimization tables.
pub open spec fn same_optimization(a: OptimizationConfig, b: OptimizationConfig) -> bool {
    &&& a.mass_fraction.equals(b.mass_fraction)
    &&& a.min_feature_mm.equals(b.min_feature_mm)
    &&& same_number(a.penalty, b.penalty)
    &&& a.max_iterations == b.max_iterations
    &&& same_number(a.convergence_tol, b.convergence_tol)
    &&& a.update == b.update
    &&& a.overhang == b.overhang
    &&& same_optional_wireframe(a.wireframe, b.wireframe)
    &&& same_optional_local_volume(a.local_volume, b.local_volume)
}

/// Two material tables.
pub open spec fn same_material(a: MaterialView, b: MaterialView) -> bool {
    &&& a.preset == b.preset
    &&& same_number(a.youngs_modulus_mpa, b.youngs_modulus_mpa)
    &&& same_number(a.poisson_ratio, b.poisson_ratio)
    &&& same_number(a.density_g_cm3, b.density_g_cm3)
    &&& same_number(a.yield_strength_mpa, b.yield_strength_mpa)
}

/// Two symmetry tables.
pub open spec fn same_symmetry(a: SymmetryView, b: SymmetryView) -> bool {
    &&& a.kind == b.kind
    &&& a.planes == b.planes
    &&& a.order == b.order
    &&& a.axis == b.axis
}

/// Two symmetry tables that may be absent.
pub open spec fn same_optional_symmetry(a: Option<SymmetryView>, b: Option<SymmetryView>) -> bool {
    match (a, b) {
        (Some(a), Some(b)) => same_symmetry(a, b),
        (None, None) => true,
        _ => false,
    }
}

/// Two growth tables.
pub open spec fn same_growth(a: GrowthView, b: GrowthView) -> bool {
    &&& a.seed == b.seed
    &&& same_number(a.attractor_per_cm3, b.attractor_per_cm3)
    &&& same_number(a.attraction_radius_mm, b.attraction_radius_mm)
    &&& same_number(a.kill_radius_mm, b.kill_radius_mm)
    &&& same_number(a.step_mm, b.step_mm)
    &&& same_number(a.murray_exponent, b.murray_exponent)
    &&& same_number(a.max_radius_mm, b.max_radius_mm)
    &&& a.max_steps == b.max_steps
    &&& a.prune == b.prune
    &&& same_optional_symmetry(a.symmetry, b.symmetry)
}

/// Two growth tables that may be absent.
pub open spec fn same_optional_growth(a: Option<GrowthView>, b: Option<GrowthView>) -> bool {
    match (a, b) {
        (Some(a), Some(b)) => same_growth(a, b),
        (None, None) => true,
        _ => false,
    }
}

/// Two output tables.
pub open spec fn same_output(a: OutputView, b: OutputView) -> bool {
    &&& a.stl_path == b.stl_path
    &&& same_number(a.iso_level, b.iso_level)
    &&& a.smoothing_iterations == b.smoothing_iterations
    &&& a.supersample == b.supersample
    &&& a.voids == b.voids
    &&& a.islands == b.islands
    &&& a.boundaries == b.boundaries
    &&& a.trim == b.trim
    &&& same_number(a.trim_stress_fraction, b.trim_stress_fraction)
    &&& a.reinforce == b.reinforce
    &&& same_number(a.reinforce_thickness_mm, b.reinforce_thickness_mm)
    &&& a.stress_json == b.stress_json
}

/// Two supports.
pub open spec fn same_support(a: SupportView, b: SupportView) -> bool {
    &&& same_shape(a.region, b.region)
    &&& a.directions == b.directions
}

/// Two load cases.
pub open spec fn same_load_case(a: LoadCaseView, b: LoadCaseView) -> bool {
    &&& a.name == b.name
    &&& same_number(a.weight, b.weight)
    &&& same_list(a.loads, b.loads, |x: LoadSpec, y: LoadSpec| same_load(x, y))
}

/// Two configurations.
pub open spec fn same_config(a: ConfigView, b: ConfigView) -> bool {
    &&& a.name == b.name
    &&& a.project_engine == b.project_engine
    &&& a.engine == b.engine
    &&& same_optional_solver(a.solver, b.solver)
    &&& same_resolution(a.resolution, b.resolution)
    &&& same_material(a.material, b.material)
    &&& same_optimization(a.optimization, b.optimization)
    &&& same_optional_growth(a.growth, b.growth)
    &&& same_output(a.output, b.output)
    &&& same_list(a.domain, b.domain, |x: DomainEntry, y: DomainEntry| same_entry(x, y))
    &&& same_list(a.keepout, b.keepout, |x: ShapeSpec, y: ShapeSpec| same_shape(x, y))
    &&& same_list(a.keepin, b.keepin, |x: ShapeSpec, y: ShapeSpec| same_shape(x, y))
    &&& same_list(a.supports, b.supports, |x: SupportView, y: SupportView| same_support(x, y))
    &&& same_list(a.loadcases, b.loadcases, |x: LoadCaseView, y: LoadCaseView| same_load_case(x, y))
}

fn number_same(a: Option<Scalar>, b: Option<Scalar>) -> (answer: bool)
    ensures
        answer == same_number(a, b),
{
    match (a, b) {
        (Some(a), Some(b)) => a.same(b),
        (None, None) => true,
        _ => false,
    }
}

fn point_same(a: &Vec3, b: &Vec3) -> (answer: bool)
    ensures
        answer == same_point(*a, *b),
{
    a[0].same(b[0]) && a[1].same(b[1]) && a[2].same(b[2])
}

fn optional_point_same(a: &Option<Vec3>, b: &Option<Vec3>) -> (answer: bool)
    ensures
        answer == same_optional_point(*a, *b),
{
    match (a, b) {
        (Some(a), Some(b)) => point_same(a, b),
        (None, None) => true,
        _ => false,
    }
}

fn text_same(a: &Option<String>, b: &Option<String>) -> (answer: bool)
    ensures
        answer == (text_of(*a) == text_of(*b)),
{
    match (a, b) {
        (Some(a), Some(b)) => *a == *b,
        (None, None) => true,
        _ => false,
    }
}

fn axis_list_same(a: &Vec<Axis>, b: &Vec<Axis>) -> (answer: bool)
    ensures
        answer == (a@ == b@),
{
    if a.len() != b.len() {
        return false;
    }
    let mut k: usize = 0;
    while k < a.len()
        invariant
            k <= a@.len(),
            a@.len() == b@.len(),
            forall|j: int| 0 <= j < k ==> #[trigger] a@[j] == b@[j],
        decreases a@.len() - k,
    {
        if a[k] != b[k] {
            assert(a@[k as int] != b@[k as int]);
            return false;
        }
        k += 1;
    }
    assert(a@ =~= b@);
    true
}

fn axes_same(a: &Option<Vec<Axis>>, b: &Option<Vec<Axis>>) -> (answer: bool)
    ensures
        answer == (list_of(*a) == list_of(*b)),
{
    match (a, b) {
        (Some(a), Some(b)) => axis_list_same(a, b),
        (None, None) => true,
        _ => false,
    }
}

fn shape_same(a: &ShapeSpec, b: &ShapeSpec) -> (answer: bool)
    ensures
        answer == same_shape(*a, *b),
{
    match (a, b) {
        (
            ShapeSpec::Box { min, max, rotation_deg },
            ShapeSpec::Box { min: min_b, max: max_b, rotation_deg: rotation_b },
        ) => point_same(min, min_b) && point_same(max, max_b) && optional_point_same(
            rotation_deg,
            rotation_b,
        ),
        (
            ShapeSpec::Cylinder { p1, p2, radius },
            ShapeSpec::Cylinder { p1: p1_b, p2: p2_b, radius: radius_b },
        ) => point_same(p1, p1_b) && point_same(p2, p2_b) && radius.same(*radius_b),
        (
            ShapeSpec::Sphere { center, radius },
            ShapeSpec::Sphere { center: center_b, radius: radius_b },
        ) => point_same(center, center_b) && radius.same(*radius_b),
        (
            ShapeSpec::Ellipsoid { center, radii, rotation_deg },
            ShapeSpec::Ellipsoid { center: center_b, radii: radii_b, rotation_deg: rotation_b },
        ) => point_same(center, center_b) && point_same(radii, radii_b) && optional_point_same(
            rotation_deg,
            rotation_b,
        ),
        (
            ShapeSpec::Tube { p1, p2, bend, radius },
            ShapeSpec::Tube { p1: p1_b, p2: p2_b, bend: bend_b, radius: radius_b },
        ) => point_same(p1, p1_b) && point_same(p2, p2_b) && optional_point_same(bend, bend_b)
            && radius.same(*radius_b),
        (
            ShapeSpec::Cone { p1, p2, radius1, radius2 },
            ShapeSpec::Cone { p1: p1_b, p2: p2_b, radius1: radius1_b, radius2: radius2_b },
        ) => point_same(p1, p1_b) && point_same(p2, p2_b) && radius1.same(*radius1_b)
            && radius2.same(*radius2_b),
        (
            ShapeSpec::Triangle { a, b, c, thickness },
            ShapeSpec::Triangle { a: a_b, b: b_b, c: c_b, thickness: thickness_b },
        ) => point_same(a, a_b) && point_same(b, b_b) && point_same(c, c_b) && thickness.same(
            *thickness_b,
        ),
        _ => false,
    }
}

fn load_same(a: &LoadSpec, b: &LoadSpec) -> (answer: bool)
    ensures
        answer == same_load(*a, *b),
{
    match (a, b) {
        (
            LoadSpec::Force { region, vector },
            LoadSpec::Force { region: region_b, vector: vector_b },
        ) => shape_same(region, region_b) && point_same(vector, vector_b),
        (
            LoadSpec::Torque { region, axis_point, axis_dir, magnitude_nmm },
            LoadSpec::Torque {
                region: region_b,
                axis_point: point_b,
                axis_dir: dir_b,
                magnitude_nmm: magnitude_b,
            },
        ) => shape_same(region, region_b) && point_same(axis_point, point_b) && point_same(
            axis_dir,
            dir_b,
        ) && magnitude_nmm.same(*magnitude_b),
        (
            LoadSpec::Gravity { direction, g_mm_s2 },
            LoadSpec::Gravity { direction: direction_b, g_mm_s2: g_b },
        ) => optional_point_same(direction, direction_b) && number_same(*g_mm_s2, *g_b),
        _ => false,
    }
}

fn entry_same(a: &DomainEntry, b: &DomainEntry) -> (answer: bool)
    ensures
        answer == same_entry(*a, *b),
{
    shape_same(&a.shape, &b.shape) && a.op == b.op
}

fn loads_same(a: &Vec<LoadSpec>, b: &Vec<LoadSpec>) -> (answer: bool)
    ensures
        answer == same_list(a@, b@, |x: LoadSpec, y: LoadSpec| same_load(x, y)),
{
    let ghost (first, second) = (a@, b@);
    if a.len() != b.len() {
        return false;
    }
    let mut k: usize = 0;
    while k < a.len()
        invariant
            k <= a@.len(),
            a@.len() == b@.len(),
            first == a@,
            second == b@,
            forall|j: int| #![trigger first[j]] 0 <= j < k ==> same_load(first[j], second[j]),
        decreases a@.len() - k,
    {
        if !load_same(&a[k], &b[k]) {
            assert(!same_load(first[k as int], second[k as int]));
            return false;
        }
        k += 1;
    }
    true
}

fn shapes_same(a: &Vec<ShapeSpec>, b: &Vec<ShapeSpec>) -> (answer: bool)
    ensures
        answer == same_list(a@, b@, |x: ShapeSpec, y: ShapeSpec| same_shape(x, y)),
{
    let ghost (first, second) = (a@, b@);
    if a.len() != b.len() {
        return false;
    }
    let mut k: usize = 0;
    while k < a.len()
        invariant
            k <= a@.len(),
            a@.len() == b@.len(),
            first == a@,
            second == b@,
            forall|j: int| #![trigger first[j]] 0 <= j < k ==> same_shape(first[j], second[j]),
        decreases a@.len() - k,
    {
        if !shape_same(&a[k], &b[k]) {
            assert(!same_shape(first[k as int], second[k as int]));
            return false;
        }
        k += 1;
    }
    true
}

fn entries_same(a: &Vec<DomainEntry>, b: &Vec<DomainEntry>) -> (answer: bool)
    ensures
        answer == same_list(a@, b@, |x: DomainEntry, y: DomainEntry| same_entry(x, y)),
{
    let ghost (first, second) = (a@, b@);
    if a.len() != b.len() {
        return false;
    }
    let mut k: usize = 0;
    while k < a.len()
        invariant
            k <= a@.len(),
            a@.len() == b@.len(),
            first == a@,
            second == b@,
            forall|j: int| #![trigger first[j]] 0 <= j < k ==> same_entry(first[j], second[j]),
        decreases a@.len() - k,
    {
        if !entry_same(&a[k], &b[k]) {
            assert(!same_entry(first[k as int], second[k as int]));
            return false;
        }
        k += 1;
    }
    true
}

/// Whether two keys that may be absent hold the same, `same` telling of two values.
fn optional_same<T: Copy, F: Fn(T, T) -> bool>(a: Option<T>, b: Option<T>, same: F) -> (answer: bool)
    requires
        forall|x: T, y: T| #[trigger] same.requires((x, y)),
        forall|x: T, y: T, told: bool| #[trigger] same.ensures((x, y), told) ==> told == (x == y),
    ensures
        answer == (a == b),
{
    match (a, b) {
        (Some(a), Some(b)) => same(a, b),
        (None, None) => true,
        _ => false,
    }
}

fn optional_count_same(a: Option<usize>, b: Option<usize>) -> (answer: bool)
    ensures
        answer == (a == b),
{
    optional_same(a, b, |x: usize, y: usize| -> (told: bool)
            ensures told == (x == y), { x == y })
}

fn solver_same(a: &SolverConfig, b: &SolverConfig) -> (answer: bool)
    ensures
        answer == same_solver(*a, *b),
{
    optional_same(a.backend, b.backend, |x: SolverBackend, y: SolverBackend| -> (told: bool)
            ensures told == (x == y), { x == y })
        && number_same(a.tolerance, b.tolerance)
}

fn optional_solver_same(a: &Option<SolverConfig>, b: &Option<SolverConfig>) -> (answer: bool)
    ensures
        answer == same_optional_solver(*a, *b),
{
    match (a, b) {
        (Some(a), Some(b)) => solver_same(a, b),
        (None, None) => true,
        _ => false,
    }
}

fn resolution_same(a: &ResolutionConfig, b: &ResolutionConfig) -> (answer: bool)
    ensures
        answer == same_resolution(*a, *b),
{
    number_same(a.voxel_size_mm, b.voxel_size_mm)
        && optional_count_same(a.target_cells, b.target_cells)
}

fn wireframe_same(a: &WireframeConfig, b: &WireframeConfig) -> (answer: bool)
    ensures
        answer == same_wireframe(*a, *b),
{
    number_same(a.radius_mm, b.radius_mm)
        && optional_count_same(a.hold_iterations, b.hold_iterations)
        && number_same(a.seed_density, b.seed_density)
}

fn optional_wireframe_same(a: &Option<WireframeConfig>, b: &Option<WireframeConfig>) -> (answer: bool)
    ensures
        answer == same_optional_wireframe(*a, *b),
{
    match (a, b) {
        (Some(a), Some(b)) => wireframe_same(a, b),
        (None, None) => true,
        _ => false,
    }
}

fn local_volume_same(a: &LocalVolumeConfig, b: &LocalVolumeConfig) -> (answer: bool)
    ensures
        answer == same_local_volume(*a, *b),
{
    number_same(a.max_fraction, b.max_fraction)
        && number_same(a.radius_mm, b.radius_mm)
}

fn optional_local_volume_same(a: &Option<LocalVolumeConfig>, b: &Option<LocalVolumeConfig>) -> (answer: bool)
    ensures
        answer == same_optional_local_volume(*a, *b),
{
    match (a, b) {
        (Some(a), Some(b)) => local_volume_same(a, b),
        (None, None) => true,
        _ => false,
    }
}

fn optimization_same(a: &OptimizationConfig, b: &OptimizationConfig) -> (answer: bool)
    ensures
        answer == same_optimization(*a, *b),
{
    a.mass_fraction.same(b.mass_fraction)
        && a.min_feature_mm.same(b.min_feature_mm)
        && number_same(a.penalty, b.penalty)
        && optional_count_same(a.max_iterations, b.max_iterations)
        && number_same(a.convergence_tol, b.convergence_tol)
        && optional_same(a.update, b.update, |x: UpdateScheme, y: UpdateScheme| -> (told: bool)
            ensures told == (x == y), { x == y })
        && optional_same(a.overhang, b.overhang, |x: OverhangConfig, y: OverhangConfig| -> (told: bool)
            ensures told == (x == y), { x == y })
        && optional_wireframe_same(&a.wireframe, &b.wireframe)
        && optional_local_volume_same(&a.local_volume, &b.local_volume)
}

fn material_same(a: &MaterialConfig, b: &MaterialConfig) -> (answer: bool)
    ensures
        answer == same_material(a@, b@),
{
    text_same(&a.preset, &b.preset)
        && number_same(a.youngs_modulus_mpa, b.youngs_modulus_mpa)
        && number_same(a.poisson_ratio, b.poisson_ratio)
        && number_same(a.density_g_cm3, b.density_g_cm3)
        && number_same(a.yield_strength_mpa, b.yield_strength_mpa)
}

fn symmetry_same(a: &SymmetryConfig, b: &SymmetryConfig) -> (answer: bool)
    ensures
        answer == same_symmetry(a@, b@),
{
    a.kind == b.kind
        && axes_same(&a.planes, &b.planes)
        && optional_count_same(a.order, b.order)
        && optional_same(a.axis, b.axis, |x: Axis, y: Axis| -> (told: bool)
            ensures told == (x == y), { x == y })
}

fn optional_symmetry_same(a: &Option<SymmetryConfig>, b: &Option<SymmetryConfig>) -> (answer: bool)
    ensures
        answer == same_optional_symmetry(symmetry_of(*a), symmetry_of(*b)),
{
    match (a, b) {
        (Some(a), Some(b)) => symmetry_same(a, b),
        (None, None) => true,
        _ => false,
    }
}

fn growth_same(a: &GrowthConfig, b: &GrowthConfig) -> (answer: bool)
    ensures
        answer == same_growth(a@, b@),
{
    optional_same(a.seed, b.seed, |x: u64, y: u64| -> (told: bool)
            ensures told == (x == y), { x == y })
        && number_same(a.attractor_per_cm3, b.attractor_per_cm3)
        && number_same(a.attraction_radius_mm, b.attraction_radius_mm)
        && number_same(a.kill_radius_mm, b.kill_radius_mm)
        && number_same(a.step_mm, b.step_mm)
        && number_same(a.murray_exponent, b.murray_exponent)
        && number_same(a.max_radius_mm, b.max_radius_mm)
        && optional_count_same(a.max_steps, b.max_steps)
        && optional_same(a.prune, b.prune, |x: bool, y: bool| -> (told: bool)
            ensures told == (x == y), { x == y })
        && optional_symmetry_same(&a.symmetry, &b.symmetry)
}

fn optional_growth_same(a: &Option<GrowthConfig>, b: &Option<GrowthConfig>) -> (answer: bool)
    ensures
        answer == same_optional_growth(growth_of(*a), growth_of(*b)),
{
    match (a, b) {
        (Some(a), Some(b)) => growth_same(a, b),
        (None, None) => true,
        _ => false,
    }
}

fn output_same(a: &OutputConfig, b: &OutputConfig) -> (answer: bool)
    ensures
        answer == same_output(a@, b@),
{
    a.stl_path == b.stl_path
        && number_same(a.iso_level, b.iso_level)
        && optional_count_same(a.smoothing_iterations, b.smoothing_iterations)
        && optional_count_same(a.supersample, b.supersample)
        && optional_same(a.voids, b.voids, |x: VoidPolicy, y: VoidPolicy| -> (told: bool)
            ensures told == (x == y), { x == y })
        && optional_same(a.islands, b.islands, |x: IslandPolicy, y: IslandPolicy| -> (told: bool)
            ensures told == (x == y), { x == y })
        && optional_same(a.boundaries, b.boundaries, |x: BoundaryFidelity, y: BoundaryFidelity| -> (told: bool)
            ensures told == (x == y), { x == y })
        && optional_same(a.trim, b.trim, |x: TrimPolicy, y: TrimPolicy| -> (told: bool)
            ensures told == (x == y), { x == y })
        && number_same(a.trim_stress_fraction, b.trim_stress_fraction)
        && optional_same(a.reinforce, b.reinforce, |x: ReinforcePolicy, y: ReinforcePolicy| -> (told: bool)
            ensures told == (x == y), { x == y })
        && number_same(a.reinforce_thickness_mm, b.reinforce_thickness_mm)
        && text_same(&a.stress_json, &b.stress_json)
}

fn support_same(a: &SupportSpec, b: &SupportSpec) -> (answer: bool)
    ensures
        answer == same_support(a@, b@),
{
    shape_same(&a.region, &b.region)
        && axes_same(&a.directions, &b.directions)
}

fn load_case_same(a: &LoadCase, b: &LoadCase) -> (answer: bool)
    ensures
        answer == same_load_case(a@, b@),
{
    a.name == b.name
        && number_same(a.weight, b.weight)
        && loads_same(&a.loads, &b.loads)
}

fn supports_same(a: &Vec<SupportSpec>, b: &Vec<SupportSpec>) -> (answer: bool)
    ensures
        answer == same_list(a@.map_values(|x: SupportSpec| x@), b@.map_values(|x: SupportSpec| x@), |x: SupportView, y: SupportView| same_support(x, y)),
{
    let ghost (first, second) = (a@.map_values(|x: SupportSpec| x@), b@.map_values(|x: SupportSpec| x@));
    if a.len() != b.len() {
        return false;
    }
    let mut k: usize = 0;
    while k < a.len()
        invariant
            k <= a@.len(),
            a@.len() == b@.len(),
            first == a@.map_values(|x: SupportSpec| x@),
            second == b@.map_values(|x: SupportSpec| x@),
            forall|j: int| #![trigger first[j]] 0 <= j < k ==> same_support(first[j], second[j]),
        decreases a@.len() - k,
    {
        if !support_same(&a[k], &b[k]) {
            assert(!same_support(first[k as int], second[k as int]));
            return false;
        }
        k += 1;
    }
    true
}

fn loadcases_same(a: &Vec<LoadCase>, b: &Vec<LoadCase>) -> (answer: bool)
    ensures
        answer == same_list(a@.map_values(|x: LoadCase| x@), b@.map_values(|x: LoadCase| x@), |x: LoadCaseView, y: LoadCaseView| same_load_case(x, y)),
{
    let ghost (first, second) = (a@.map_values(|x: LoadCase| x@), b@.map_values(|x: LoadCase| x@));
    if a.len() != b.len() {
        return false;
    }
    let mut k: usize = 0;
    while k < a.len()
        invariant
            k <= a@.len(),
            a@.len() == b@.len(),
            first == a@.map_values(|x: LoadCase| x@),
            second == b@.map_values(|x: LoadCase| x@),
            forall|j: int| #![trigger first[j]] 0 <= j < k ==> same_load_case(first[j], second[j]),
        decreases a@.len() - k,
    {
        if !load_case_same(&a[k], &b[k]) {
            assert(!same_load_case(first[k as int], second[k as int]));
            return false;
        }
        k += 1;
    }
    true
}

impl Config {
    /// True when two configurations are the same.
    pub fn same(&self, other: &Config) -> (answer: bool)
        ensures
            answer == same_config(self@, other@),
    {
        self.project.name == other.project.name
            && text_same(&self.project.engine, &other.project.engine)
            && text_same(&self.engine, &other.engine)
            && optional_solver_same(&self.solver, &other.solver)
            && resolution_same(&self.resolution, &other.resolution)
            && material_same(&self.material, &other.material)
            && optimization_same(&self.optimization, &other.optimization)
            && optional_growth_same(&self.growth, &other.growth)
            && output_same(&self.output, &other.output)
            && entries_same(&self.domain, &other.domain)
            && shapes_same(&self.keepout, &other.keepout)
            && shapes_same(&self.keepin, &other.keepin)
            && supports_same(&self.supports, &other.supports)
            && loadcases_same(&self.loadcases, &other.loadcases)
    }
}

} // verus!
