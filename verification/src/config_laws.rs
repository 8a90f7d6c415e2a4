//! What holds of a configuration as a whole: what a view of it shows, when two of them
//! are the same, and what a number reads as once it is written out.

use vstd::prelude::*;

use crate::config::{
    fidelity_label, reinforce_label, trim_label, BoundaryFidelity, Config, ConfigView, GrowthConfig,
    GrowthView, LoadCase, LoadSpec, MaterialConfig, MaterialView, OptimizationConfig, OutputConfig,
    OutputView, ReinforcePolicy, ShapeSpec, SupportSpec, SymmetryConfig, TrimPolicy,
};
use crate::sameness::{
    same_config, same_growth, same_load, same_material, same_optimization, same_output, same_shape,
};
use crate::scalar::Scalar;
use crate::shapes::Vec3;
use crate::text::{decimal_of, digit};

verus! {

/// What a view of a configuration shows is what the file's tables hold, table by table.
pub proof fn law_a_view_shows_every_table(config: Config)
    ensures
        config@.name == config.project.name@,
        config@.project_engine is Some <==> config.project.engine is Some,
        config.project.engine is Some ==> config@.project_engine->0 == config.project.engine->0@,
        config@.engine is Some <==> config.engine is Some,
        config.engine is Some ==> config@.engine->0 == config.engine->0@,
        config@.solver == config.solver,
        config@.resolution == config.resolution,
        config@.material == config.material@,
        config@.optimization == config.optimization,
        config@.growth is Some <==> config.growth is Some,
        config.growth is Some ==> config@.growth->0 == config.growth->0@,
        config@.output == config.output@,
        config@.domain == config.domain@,
        config@.keepout == config.keepout@,
        config@.keepin == config.keepin@,
        config@.supports.len() == config.supports@.len(),
        config@.loadcases.len() == config.loadcases@.len(),
        forall|k: int|
            0 <= k < config.supports@.len() ==> #[trigger] config@.supports[k]
                == config.supports@[k]@,
        forall|k: int|
            0 <= k < config.loadcases@.len() ==> #[trigger] config@.loadcases[k]
                == config.loadcases@[k]@,
{
}

/// What a view of one table shows is that table's own entries.
pub proof fn law_a_view_shows_every_entry(
    material: MaterialConfig,
    growth: GrowthConfig,
    symmetry: SymmetryConfig,
    output: OutputConfig,
    support: SupportSpec,
    case: LoadCase,
)
    ensures
        material@.preset is Some <==> material.preset is Some,
        material.preset is Some ==> material@.preset->0 == material.preset->0@,
        material@.youngs_modulus_mpa == material.youngs_modulus_mpa,
        material@.poisson_ratio == material.poisson_ratio,
        material@.density_g_cm3 == material.density_g_cm3,
        material@.yield_strength_mpa == material.yield_strength_mpa,
        growth@.seed == growth.seed,
        growth@.attractor_per_cm3 == growth.attractor_per_cm3,
        growth@.attraction_radius_mm == growth.attraction_radius_mm,
        growth@.kill_radius_mm == growth.kill_radius_mm,
        growth@.step_mm == growth.step_mm,
        growth@.murray_exponent == growth.murray_exponent,
        growth@.max_radius_mm == growth.max_radius_mm,
        growth@.max_steps == growth.max_steps,
        growth@.prune == growth.prune,
        growth@.symmetry is Some <==> growth.symmetry is Some,
        growth.symmetry is Some ==> growth@.symmetry->0 == growth.symmetry->0@,
        symmetry@.kind == symmetry.kind,
        symmetry@.planes is Some <==> symmetry.planes is Some,
        symmetry.planes is Some ==> symmetry@.planes->0 == symmetry.planes->0@,
        symmetry@.order == symmetry.order,
        symmetry@.axis == symmetry.axis,
        output@.stl_path == output.stl_path@,
        output@.iso_level == output.iso_level,
        output@.smoothing_iterations == output.smoothing_iterations,
        output@.supersample == output.supersample,
        output@.voids == output.voids,
        output@.islands == output.islands,
        output@.boundaries == output.boundaries,
        output@.trim == output.trim,
        output@.trim_stress_fraction == output.trim_stress_fraction,
        output@.reinforce == output.reinforce,
        output@.reinforce_thickness_mm == output.reinforce_thickness_mm,
        output@.stress_json is Some <==> output.stress_json is Some,
        output.stress_json is Some ==> output@.stress_json->0 == output.stress_json->0@,
        support@.region == support.region,
        support@.directions is Some <==> support.directions is Some,
        support.directions is Some ==> support@.directions->0 == support.directions->0@,
        case@.name == case.name@,
        case@.weight == case.weight,
        case@.loads == case.loads@,
{
}

/// Two shapes are the same exactly where they are of one kind and agree number for
/// number, a turn or a bend that one has and the other has not telling them apart.
pub proof fn law_the_same_shape_agrees_number_for_number(a: ShapeSpec, b: ShapeSpec)
    ensures
        ({
            let at = |p: Vec3, q: Vec3| forall|d: int| 0 <= d < 3 ==> (#[trigger] p[d]).equals(q[d]);
            let maybe = |p: Option<Vec3>, q: Option<Vec3>|
                (p is Some <==> q is Some) && (p is Some ==> at(p->0, q->0));
            same_shape(a, b) <==> match a {
                ShapeSpec::Box { min, max, rotation_deg } => b is Box && at(min, b->Box_min) && at(
                    max,
                    b->Box_max,
                ) && maybe(rotation_deg, b->Box_rotation_deg),
                ShapeSpec::Cylinder { p1, p2, radius } => b is Cylinder && at(p1, b->Cylinder_p1)
                    && at(p2, b->Cylinder_p2) && radius.equals(b->Cylinder_radius),
                ShapeSpec::Sphere { center, radius } => b is Sphere && at(center, b->Sphere_center)
                    && radius.equals(b->Sphere_radius),
                ShapeSpec::Ellipsoid { center, radii, rotation_deg } => b is Ellipsoid && at(
                    center,
                    b->Ellipsoid_center,
                ) && at(radii, b->radii) && maybe(rotation_deg, b->Ellipsoid_rotation_deg),
                ShapeSpec::Tube { p1, p2, bend, radius } => b is Tube && at(p1, b->Tube_p1) && at(
                    p2,
                    b->Tube_p2,
                ) && maybe(bend, b->bend) && radius.equals(b->Tube_radius),
                ShapeSpec::Cone { p1, p2, radius1, radius2 } => b is Cone && at(p1, b->Cone_p1)
                    && at(p2, b->Cone_p2) && radius1.equals(b->radius1) && radius2.equals(
                    b->radius2,
                ),
                ShapeSpec::Triangle { a: first, b: second, c: third, thickness } => b is Triangle
                    && at(first, b->a) && at(second, b->b) && at(third, b->c) && thickness.equals(
                    b->thickness,
                ),
            }
        }),
        same_shape(a, b) == same_shape(b, a),
{
    let at = |p: Vec3, q: Vec3| forall|d: int| 0 <= d < 3 ==> (#[trigger] p[d]).equals(q[d]);
    assert forall|p: Vec3, q: Vec3| #[trigger] at(p, q) == (p[0].equals(q[0]) && p[1].equals(q[1])
        && p[2].equals(q[2])) by {
        if at(p, q) {
            assert(p[0].equals(q[0]) && p[1].equals(q[1]) && p[2].equals(q[2]));
        } else if p[0].equals(q[0]) && p[1].equals(q[1]) && p[2].equals(q[2]) {
            assert forall|d: int| 0 <= d < 3 implies (#[trigger] p[d]).equals(q[d]) by {
                assert(d == 0 || d == 1 || d == 2);
            }
        }
    }
}

/// Two loads are the same exactly where they are of one kind and agree in their region
/// and number for number.
pub proof fn law_the_same_load_agrees_number_for_number(a: LoadSpec, b: LoadSpec)
    ensures
        ({
            let at = |p: Vec3, q: Vec3| p[0].equals(q[0]) && p[1].equals(q[1]) && p[2].equals(q[2]);
            same_load(a, b) <==> match a {
                LoadSpec::Force { region, vector } => b is Force && same_shape(
                    region,
                    b->Force_region,
                ) && at(vector, b->vector),
                LoadSpec::Torque { region, axis_point, axis_dir, magnitude_nmm } => b is Torque
                    && same_shape(region, b->Torque_region) && at(axis_point, b->axis_point) && at(
                    axis_dir,
                    b->axis_dir,
                ) && magnitude_nmm.equals(b->magnitude_nmm),
                LoadSpec::Gravity { direction, g_mm_s2 } => {
                    &&& b is Gravity
                    &&& direction is Some <==> b->direction is Some
                    &&& direction is Some ==> at(direction->0, b->direction->0)
                    &&& g_mm_s2 is Some <==> b->g_mm_s2 is Some
                    &&& g_mm_s2 is Some ==> g_mm_s2->0.equals(b->g_mm_s2->0)
                },
            }
        }),
        same_load(a, b) == same_load(b, a),
{
    match a {
        LoadSpec::Force { region, vector } => {
            if b is Force {
                law_the_same_shape_agrees_number_for_number(region, b->Force_region);
            }
        },
        LoadSpec::Torque { region, axis_point, axis_dir, magnitude_nmm } => {
            if b is Torque {
                law_the_same_shape_agrees_number_for_number(region, b->Torque_region);
            }
        },
        LoadSpec::Gravity { .. } => {},
    }
}

/// Two materials are the same exactly where they name one preset and agree in each of
/// the four numbers, an absent one agreeing with an absent one alone.
pub proof fn law_the_same_material_agrees_in_every_entry(a: MaterialView, b: MaterialView)
    ensures
        ({
            let near = |p: Option<Scalar>, q: Option<Scalar>|
                (p is Some <==> q is Some) && (p is Some ==> p->0.equals(q->0));
            same_material(a, b) <==> {
                &&& a.preset == b.preset
                &&& near(a.youngs_modulus_mpa, b.youngs_modulus_mpa)
                &&& near(a.poisson_ratio, b.poisson_ratio)
                &&& near(a.density_g_cm3, b.density_g_cm3)
                &&& near(a.yield_strength_mpa, b.yield_strength_mpa)
            }
        }),
{
}

/// Two optimization tables are the same exactly where they agree in every entry of
/// theirs and of the tables in them.
pub proof fn law_the_same_optimization_agrees_in_every_entry(
    a: OptimizationConfig,
    b: OptimizationConfig,
)
    ensures
        ({
            let near = |p: Option<Scalar>, q: Option<Scalar>|
                (p is Some <==> q is Some) && (p is Some ==> p->0.equals(q->0));
            same_optimization(a, b) <==> {
                &&& a.mass_fraction.equals(b.mass_fraction)
                &&& a.min_feature_mm.equals(b.min_feature_mm)
                &&& near(a.penalty, b.penalty)
                &&& a.max_iterations == b.max_iterations
                &&& near(a.convergence_tol, b.convergence_tol)
                &&& a.update == b.update
                &&& a.overhang == b.overhang
                &&& a.wireframe is Some <==> b.wireframe is Some
                &&& a.wireframe is Some ==> {
                    &&& near(a.wireframe->0.radius_mm, b.wireframe->0.radius_mm)
                    &&& a.wireframe->0.hold_iterations == b.wireframe->0.hold_iterations
                    &&& near(a.wireframe->0.seed_density, b.wireframe->0.seed_density)
                }
                &&& a.local_volume is Some <==> b.local_volume is Some
                &&& a.local_volume is Some ==> {
                    &&& near(a.local_volume->0.max_fraction, b.local_volume->0.max_fraction)
                    &&& near(a.local_volume->0.radius_mm, b.local_volume->0.radius_mm)
                }
            }
        }),
{
}

/// Two growth tables are the same exactly where they agree in every entry of theirs and
/// of the symmetry in them.
pub proof fn law_the_same_growth_agrees_in_every_entry(a: GrowthView, b: GrowthView)
    ensures
        ({
            let near = |p: Option<Scalar>, q: Option<Scalar>|
                (p is Some <==> q is Some) && (p is Some ==> p->0.equals(q->0));
            same_growth(a, b) <==> {
                &&& a.seed == b.seed
                &&& near(a.attractor_per_cm3, b.attractor_per_cm3)
                &&& near(a.attraction_radius_mm, b.attraction_radius_mm)
                &&& near(a.kill_radius_mm, b.kill_radius_mm)
                &&& near(a.step_mm, b.step_mm)
                &&& near(a.murray_exponent, b.murray_exponent)
                &&& near(a.max_radius_mm, b.max_radius_mm)
                &&& a.max_steps == b.max_steps
                &&& a.prune == b.prune
                &&& a.symmetry == b.symmetry
            }
        }),
{
}

/// Two output tables are the same exactly where they agree in every entry.
pub proof fn law_the_same_output_agrees_in_every_entry(a: OutputView, b: OutputView)
    ensures
        ({
            let near = |p: Option<Scalar>, q: Option<Scalar>|
                (p is Some <==> q is Some) && (p is Some ==> p->0.equals(q->0));
            same_output(a, b) <==> {
                &&& a.stl_path == b.stl_path
                &&& near(a.iso_level, b.iso_level)
                &&& a.smoothing_iterations == b.smoothing_iterations
                &&& a.supersample == b.supersample
                &&& a.voids == b.voids
                &&& a.islands == b.islands
                &&& a.boundaries == b.boundaries
                &&& a.trim == b.trim
                &&& near(a.trim_stress_fraction, b.trim_stress_fraction)
                &&& a.reinforce == b.reinforce
                &&& near(a.reinforce_thickness_mm, b.reinforce_thickness_mm)
                &&& a.stress_json == b.stress_json
            }
        }),
{
}

/// Two configurations are the same exactly where they agree in every table and entry
/// for entry in every list; numbers agree as numbers, so that the two zeros are one and
/// what is no number is never the same as anything.
pub proof fn law_the_same_configuration_agrees_everywhere(a: ConfigView, b: ConfigView)
    ensures
        ({
            let near = |p: Option<Scalar>, q: Option<Scalar>|
                (p is Some <==> q is Some) && (p is Some ==> p->0.equals(q->0));
            same_config(a, b) <==> {
                &&& a.name == b.name
                &&& a.project_engine == b.project_engine
                &&& a.engine == b.engine
                &&& a.solver is Some <==> b.solver is Some
                &&& a.solver is Some ==> a.solver->0.backend == b.solver->0.backend && near(
                    a.solver->0.tolerance,
                    b.solver->0.tolerance,
                )
                &&& near(a.resolution.voxel_size_mm, b.resolution.voxel_size_mm)
                &&& a.resolution.target_cells == b.resolution.target_cells
                &&& same_material(a.material, b.material)
                &&& same_optimization(a.optimization, b.optimization)
                &&& a.growth is Some <==> b.growth is Some
                &&& a.growth is Some ==> same_growth(a.growth->0, b.growth->0)
                &&& same_output(a.output, b.output)
                &&& a.domain.len() == b.domain.len()
                &&& a.keepout.len() == b.keepout.len()
                &&& a.keepin.len() == b.keepin.len()
                &&& a.supports.len() == b.supports.len()
                &&& a.loadcases.len() == b.loadcases.len()
                &&& forall|k: int|
                    #![trigger a.domain[k]]
                    0 <= k < a.domain.len() ==> same_shape(a.domain[k].shape, b.domain[k].shape)
                        && a.domain[k].op == b.domain[k].op
                &&& forall|k: int|
                    #![trigger a.keepout[k]]
                    0 <= k < a.keepout.len() ==> same_shape(a.keepout[k], b.keepout[k])
                &&& forall|k: int|
                    #![trigger a.keepin[k]]
                    0 <= k < a.keepin.len() ==> same_shape(a.keepin[k], b.keepin[k])
                &&& forall|k: int|
                    #![trigger a.supports[k]]
                    0 <= k < a.supports.len() ==> same_shape(
                        a.supports[k].region,
                        b.supports[k].region,
                    ) && a.supports[k].directions == b.supports[k].directions
                &&& forall|k: int|
                    #![trigger a.loadcases[k]]
                    0 <= k < a.loadcases.len() ==> {
                        &&& a.loadcases[k].name == b.loadcases[k].name
                        &&& near(a.loadcases[k].weight, b.loadcases[k].weight)
                        &&& a.loadcases[k].loads.len() == b.loadcases[k].loads.len()
                        &&& forall|l: int|
                            #![trigger a.loadcases[k].loads[l]]
                            0 <= l < a.loadcases[k].loads.len() ==> same_load(
                                a.loadcases[k].loads[l],
                                b.loadcases[k].loads[l],
                            )
                    }
            }
        }),
{
}

/// The labels of a choice tell its values apart.
pub proof fn law_labels_tell_the_choices_apart(
    f: BoundaryFidelity,
    g: BoundaryFidelity,
    t: TrimPolicy,
    u: TrimPolicy,
    r: ReinforcePolicy,
    s: ReinforcePolicy,
)
    ensures
        fidelity_label(f) == fidelity_label(g) <==> f == g,
        trim_label(t) == trim_label(u) <==> t == u,
        reinforce_label(r) == reinforce_label(s) <==> r == s,
        trim_label(t) == "off"@ <==> t == TrimPolicy::Off,
        reinforce_label(r) == "off"@ <==> r == ReinforcePolicy::Off,
{
    reveal_strlit("exact");
    reveal_strlit("voxel");
    reveal_strlit("off");
    reveal_strlit("stress");
    reveal_strlit("min_thickness");
    assert("exact"@[0] == 'e' && "voxel"@[0] == 'v');
    assert("off"@.len() == 3 && "stress"@.len() == 6 && "min_thickness"@.len() == 13);
}

/// What digits written one behind the other stand for.
pub open spec fn number_written(text: Seq<char>) -> int
    decreases text.len(),
{
    if text.len() == 0 {
        0
    } else {
        10 * number_written(text.drop_last()) + (text.last() as u32 - '0' as u32)
    }
}

/// A number written out in decimal reads back as itself, in digits alone, without a
/// zero in front that it could do without.
pub proof fn law_a_number_written_out_reads_back(n: int)
    requires
        n >= 0,
    ensures
        number_written(decimal_of(n)) == n,
        forall|i: int|
            0 <= i < decimal_of(n).len() ==> '0' <= #[trigger] decimal_of(n)[i] && decimal_of(n)[i]
                <= '9',
        decimal_of(n).len() >= 1,
        n > 0 ==> decimal_of(n)[0] != '0',
    decreases n,
{
    if n < 10 {
        let text = decimal_of(n);
        assert(text == seq![digit(n)]);
        assert(text.drop_last() =~= Seq::<char>::empty());
        assert(number_written(Seq::<char>::empty()) == 0);
        assert(text.last() == digit(n));
        assert(number_written(text) == 10 * number_written(text.drop_last()) + (text.last() as u32
            - '0' as u32));
    } else {
        law_a_number_written_out_reads_back(n / 10);
        let text = decimal_of(n);
        assert(text.drop_last() =~= decimal_of(n / 10));
        assert(text.last() == digit(n % 10));
    }
}

} // verus!
