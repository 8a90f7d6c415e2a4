//! The document the editor works on: its sections, its forms and its objects.

use growforge::config::{
    Axis, BoundaryFidelity, BuildDirection, Config, CsgOpSpec, DomainEntry, GrowthConfig,
    IslandPolicy, LoadCase, LoadSpec, LocalVolumeConfig, MaterialConfig, OptimizationConfig,
    OutputConfig, OverhangConfig, ProjectConfig, ReinforcePolicy, ResolutionConfig, ShapeSpec,
    SolverBackend, SolverConfig, SupportSpec, SymmetryKind, TrimPolicy, UpdateScheme,
    WireframeConfig,
};
use growforge::constants::{
    DEFAULT_MATERIAL_PRESET, DEFAULT_SOLVER_BACKEND, GROWTH_ENGINE, GROWTH_SYMMETRY_MAX_ORDER,
    VIEW_EDIT_DEFAULT_BUILD_DIRECTION, VIEW_EDIT_DEFAULT_TARGET_CELLS, VIEW_EDIT_DEFAULT_VOXEL_BITS,
};
use growforge::editor::{at_defaults, reset_section, EditorState, Field, Gesture, Section};
use growforge::forms::{
    axis_options, choose_engine, edit_growth, edit_material, edit_optimization, edit_output,
    edit_resolution, edit_symmetry, growth_rows, is_growth, material_rows, mirror_symmetry,
    optimization_rows, optional_value, output_rows, second_plane_options, shown_axis,
    shown_backend, shown_engine, shown_order, shown_planes, stl_line, stress_line,
    write_solver_backend, write_solver_tolerance, GrowthEdit, GrowthRow, MaterialEdit,
    MaterialPreset, MaterialProperty, MaterialRow, OptimizationEdit, OptimizationRow, OutputEdit,
    OutputRow, ResolutionEdit, SymmetryEdit,
};
use growforge::objects::{
    add_request, edit_load, edit_shape, entries_of, holds, list_heading, load_entries, object_tree,
    shape_rows, toggle_direction, AddRequest, LoadEdit, NewObject, ObjectList, Selection, ShapeEdit, ShapeKind, ShapeRow,
};
use growforge::rows::{
    edit_object, edit_section, shape_of, use_row, ObjectEdit, RowEdit, SectionEdit, Usage,
};
use growforge::scalar::Scalar;
use growforge::voids::VoidPolicy;

/// Smallest feature a reset goes back to, in voxels.
const RESET_MIN_FEATURE_VOXELS: f64 = 3.0;

const SECTIONS: [Section; 6] = [
    Section::Engine,
    Section::Resolution,
    Section::Material,
    Section::Optimization,
    Section::Growth,
    Section::Output,
];

/// The widget id the reset clicks below are attributed to. Any one will do: the
/// interaction is opened and closed inside the call.
const RESET_WIDGET: u64 = 0x9e5e7;

fn s(value: f64) -> Scalar {
    Scalar {
        bits: value.to_bits(),
    }
}

fn v(scalar: Scalar) -> f64 {
    f64::from_bits(scalar.bits)
}

/// Everything a value says.
fn said<T: std::fmt::Debug>(value: &T) -> String {
    format!("{value:?}")
}

fn fixture() -> Config {
    Config {
        project: ProjectConfig {
            name: "fixture".to_string(),
            engine: None,
        },
        engine: None,
        solver: None,
        resolution: ResolutionConfig {
            voxel_size_mm: Some(s(4.0)),
            target_cells: None,
        },
        material: MaterialConfig {
            preset: Some("pla".to_string()),
            youngs_modulus_mpa: None,
            poisson_ratio: None,
            density_g_cm3: None,
            yield_strength_mpa: None,
        },
        optimization: OptimizationConfig {
            mass_fraction: s(0.3),
            min_feature_mm: s(16.0),
            penalty: None,
            max_iterations: Some(20),
            convergence_tol: None,
            update: None,
            overhang: None,
            wireframe: None,
            local_volume: None,
        },
        growth: None,
        output: OutputConfig {
            stl_path: "fixture.stl".to_string(),
            iso_level: Some(s(0.5)),
            smoothing_iterations: None,
            supersample: None,
            voids: None,
            islands: None,
            boundaries: None,
            trim: None,
            trim_stress_fraction: None,
            reinforce: None,
            reinforce_thickness_mm: None,
            stress_json: None,
        },
        domain: vec![DomainEntry {
            shape: ShapeSpec::Box {
                min: [0.0; 3].map(s),
                max: [64.0, 32.0, 32.0].map(s),
                rotation_deg: None,
            },
            op: CsgOpSpec::Add,
        }],
        keepout: vec![ShapeSpec::Sphere {
            center: [20.0; 3].map(s),
            radius: s(3.0),
        }],
        keepin: vec![],
        supports: vec![SupportSpec {
            region: ShapeSpec::Sphere {
                center: [0.0; 3].map(s),
                radius: s(2.0),
            },
            directions: None,
        }],
        loadcases: vec![LoadCase {
            name: "tip".to_string(),
            weight: None,
            loads: vec![LoadSpec::Gravity {
                direction: None,
                g_mm_s2: None,
            }],
        }],
    }
}

fn growth_table() -> GrowthConfig {
    GrowthConfig {
        seed: Some(3),
        attractor_per_cm3: Some(s(5.0)),
        attraction_radius_mm: Some(s(20.0)),
        kill_radius_mm: Some(s(6.0)),
        step_mm: Some(s(2.0)),
        murray_exponent: Some(s(2.5)),
        max_radius_mm: Some(s(12.0)),
        max_steps: Some(500),
        prune: Some(false),
        symmetry: Some(mirror_symmetry(Axis::Z)),
    }
}

/// One undoable edit.
fn edit(state: &mut EditorState, change: impl FnOnce(&mut Config)) {
    state.begin_edit(1);
    change(state.config_mut());
    state.end_edit(1);
}

/// A session over the fixture, its grid built at the voxel size it names.
fn open(config: Config) -> EditorState {
    let mut state = EditorState::open(config);
    let voxel = state.config().resolution.voxel_size_mm;
    state.set_built_voxel_mm(voxel);
    state
}

fn smallest_feature(state: &EditorState) -> Option<Scalar> {
    state.smallest_feature(|voxel| s(RESET_MIN_FEATURE_VOXELS * v(voxel)))
}

fn click_reset(state: &mut EditorState, section: Section) {
    let smallest = smallest_feature(state);
    reset_section(state, section, RESET_WIDGET, smallest);
}

fn is_at_defaults(state: &EditorState, section: Section) -> bool {
    at_defaults(state, section, smallest_feature(state))
}

/// Push every scalar section off its defaults in one undoable edit, so that each
/// reset has something to put back and the other five have something visible to
/// be left alone with.
fn unsettle(state: &mut EditorState) {
    edit(state, |config| {
        config.engine = Some(GROWTH_ENGINE.to_string());
        config.solver = Some(SolverConfig {
            backend: Some(SolverBackend::Cpu),
            tolerance: Some(s(3e-8)),
        });
        config.resolution.voxel_size_mm = None;
        config.resolution.target_cells = Some(9_999);
        config.material = MaterialConfig {
            preset: None,
            youngs_modulus_mpa: Some(s(2000.0)),
            poisson_ratio: Some(s(0.35)),
            density_g_cm3: Some(s(1.1)),
            yield_strength_mpa: Some(s(40.0)),
        };
        config.optimization = OptimizationConfig {
            mass_fraction: s(0.42),
            min_feature_mm: s(30.0),
            penalty: Some(s(4.0)),
            max_iterations: Some(9),
            convergence_tol: Some(s(1e-3)),
            update: Some(UpdateScheme::Mma),
            overhang: Some(OverhangConfig {
                build_direction: BuildDirection::XPlus,
            }),
            wireframe: Some(WireframeConfig {
                radius_mm: Some(s(3.0)),
                hold_iterations: Some(12),
                seed_density: Some(s(0.8)),
            }),
            local_volume: Some(LocalVolumeConfig {
                max_fraction: Some(s(0.55)),
                radius_mm: Some(s(9.0)),
            }),
        };
        config.growth = Some(growth_table());
        let stl_path = config.output.stl_path.clone();
        config.output = OutputConfig {
            stl_path,
            iso_level: Some(s(0.7)),
            smoothing_iterations: Some(7),
            supersample: Some(2),
            voids: Some(VoidPolicy::Fill),
            islands: Some(IslandPolicy::Keep),
            boundaries: Some(BoundaryFidelity::Voxel),
            trim: Some(TrimPolicy::Stress),
            trim_stress_fraction: Some(s(0.02)),
            reinforce: Some(ReinforcePolicy::MinThickness),
            reinforce_thickness_mm: Some(s(2.5)),
            stress_json: Some("stress.json".to_string()),
        };
    });
}

/// Whether the keys a run couples are coupled.
fn builds(config: &Config) -> bool {
    let grows = match &config.project.engine {
        Some(engine) => engine == GROWTH_ENGINE,
        None => config.engine.as_deref() == Some(GROWTH_ENGINE),
    };
    let material = &config.material;
    let own = [
        material.youngs_modulus_mpa,
        material.poisson_ratio,
        material.density_g_cm3,
        material.yield_strength_mpa,
    ];
    let optimization = &config.optimization;
    config.resolution.voxel_size_mm.is_some() != config.resolution.target_cells.is_some()
        && own
            .iter()
            .all(|value| value.is_some() != material.preset.is_some())
        && (config.growth.is_none() || grows)
        && (optimization.local_volume.is_none() || optimization.update == Some(UpdateScheme::Mma))
        && (optimization.overhang.is_none() || !grows)
}

#[test]
fn every_section_reset_writes_its_own_defaults_and_leaves_the_rest_alone() {
    let mut state = open(fixture());
    let voxel = v(state
        .config()
        .resolution
        .voxel_size_mm
        .expect("the fixture names a voxel size"));
    unsettle(&mut state);
    let moved = state.config().copy();

    // The engine: the key in either of its spellings, both keys of the `[solver]`
    // table, and the `[growth]` table the default engine may not carry.
    click_reset(&mut state, Section::Engine);
    {
        let config = state.config();
        assert_eq!(config.engine, None);
        assert_eq!(config.project.engine, None);
        let solver = config.solver.expect("an emptied table");
        assert!(
            solver.backend.is_none() && solver.tolerance.is_none(),
            "the [solver] keys are the engine section's own"
        );
        assert!(
            config.growth.is_none(),
            "leaving the growth engine has to take its table with it"
        );
        assert_eq!(said(&config.resolution), said(&moved.resolution));
        assert_eq!(said(&config.material), said(&moved.material));
        assert_eq!(said(&config.optimization), said(&moved.optimization));
        assert_eq!(said(&config.output), said(&moved.output));
    }
    assert!(state.undo());

    // The resolution: exactly one of the two keys, whichever one was there.
    click_reset(&mut state, Section::Resolution);
    {
        let config = state.config();
        assert_eq!(
            config.resolution.voxel_size_mm.map(v),
            Some(f64::from_bits(VIEW_EDIT_DEFAULT_VOXEL_BITS))
        );
        assert_eq!(config.resolution.target_cells, None);
        assert_eq!(config.engine, moved.engine);
        assert_eq!(said(&config.optimization), said(&moved.optimization));
    }
    assert!(state.undo());

    // The material: the default preset, and no custom value left beside it.
    click_reset(&mut state, Section::Material);
    {
        let material = &state.config().material;
        assert_eq!(material.preset.as_deref(), Some(DEFAULT_MATERIAL_PRESET));
        assert!(material.youngs_modulus_mpa.is_none());
        assert!(material.poisson_ratio.is_none());
        assert!(material.density_g_cm3.is_none());
        assert!(material.yield_strength_mpa.is_none());
    }
    assert!(state.undo());

    // The optimization controls, with their two special cases: the mass target is
    // the user's and is left where it is, and the minimum feature comes back to
    // the smallest the density filter resolves - measured here on the grid the
    // last build derived, because this configuration asks for a cell count rather
    // than a voxel size.
    click_reset(&mut state, Section::Optimization);
    {
        let optimization = &state.config().optimization;
        assert_eq!(
            v(optimization.mass_fraction),
            v(moved.optimization.mass_fraction),
            "the mass target is design intent and has no default to return to"
        );
        assert_eq!(
            v(optimization.min_feature_mm),
            RESET_MIN_FEATURE_VOXELS * voxel
        );
        assert!(optimization.penalty.is_none());
        assert!(optimization.max_iterations.is_none());
        assert!(optimization.convergence_tol.is_none());
        assert!(optimization.update.is_none());
        assert!(optimization.overhang.is_none());
        assert!(optimization.wireframe.is_none());
        assert!(optimization.local_volume.is_none());
        assert_eq!(said(&state.config().growth), said(&moved.growth));
    }
    assert!(state.undo());

    // The growth table, symmetry included: every key of it is optional, so
    // "reset" is the table with nothing in it.
    click_reset(&mut state, Section::Growth);
    assert_eq!(
        said(&state.config().growth),
        said(&Some(GrowthConfig {
            seed: None,
            attractor_per_cm3: None,
            attraction_radius_mm: None,
            kill_radius_mm: None,
            step_mm: None,
            murray_exponent: None,
            max_radius_mm: None,
            max_steps: None,
            prune: None,
            symmetry: None,
        }))
    );
    assert_eq!(state.config().engine, moved.engine);
    assert!(state.undo());

    // The output controls, and the two destinations that are not the button's to
    // decide: where a run writes is a decision about the project rather than
    // about the part.
    click_reset(&mut state, Section::Output);
    {
        let output = &state.config().output;
        assert_eq!(output.stl_path, moved.output.stl_path);
        assert_eq!(
            output.stress_json, moved.output.stress_json,
            "the stress report is written where the project says, not where a reset says"
        );
        assert!(output.stress_json.is_some(), "nothing was carried across");
        assert!(output.iso_level.is_none());
        assert_eq!(output.smoothing_iterations, None);
        assert_eq!(output.supersample, None);
        assert_eq!(output.voids, None);
        assert_eq!(output.islands, None);
        assert_eq!(output.boundaries, None);
        assert_eq!(output.trim, None);
        assert!(output.trim_stress_fraction.is_none());
        assert_eq!(output.reinforce, None);
        assert!(output.reinforce_thickness_mm.is_none());
        // The absent policies are the documented defaults, which is what makes
        // taking the keys out the same thing as resetting them.
        assert_eq!(BoundaryFidelity::default(), BoundaryFidelity::Exact);
        assert_eq!(TrimPolicy::default(), TrimPolicy::Off);
        assert_eq!(ReinforcePolicy::default(), ReinforcePolicy::Off);
    }
    assert!(state.undo());

    // And the minimum feature measured on a voxel size the configuration names
    // itself, which is the other of its two sources.
    click_reset(&mut state, Section::Resolution);
    click_reset(&mut state, Section::Optimization);
    assert_eq!(
        v(state.config().optimization.min_feature_mm),
        RESET_MIN_FEATURE_VOXELS * f64::from_bits(VIEW_EDIT_DEFAULT_VOXEL_BITS)
    );
}

#[test]
fn one_undo_puts_a_reset_section_back_exactly_as_it_was() {
    for section in SECTIONS {
        let mut state = open(fixture());
        unsettle(&mut state);
        let before = state.config().copy();
        let depth = state.undo_depth();

        click_reset(&mut state, section);
        assert!(
            !state.config().same(&before),
            "{section:?}: the reset changed nothing to undo"
        );
        assert!(state.is_dirty());
        assert_eq!(
            state.undo_depth(),
            depth + 1,
            "{section:?}: the reset is not one undo step"
        );

        assert!(state.undo());
        assert!(
            state.config().same(&before),
            "{section:?}: one undo did not put the configuration back"
        );
        assert_eq!(said(state.config()), said(&before));
        assert_eq!(state.undo_depth(), depth);
    }
}

#[test]
fn a_section_already_at_its_defaults_offers_nothing_to_reset() {
    // A scaffold: two of its sections carry nothing but defaults already, and two
    // carry a choice of its own.
    let mut scaffold = fixture();
    scaffold.project.engine = Some("simp".to_string());
    scaffold.output.iso_level = None;
    let state = open(scaffold);
    assert!(
        is_at_defaults(&state, Section::Material),
        "the starter names the default preset and nothing else"
    );
    assert!(
        is_at_defaults(&state, Section::Output),
        "the starter writes no [output] key but the path"
    );
    assert!(
        !is_at_defaults(&state, Section::Engine),
        "the starter pins the engine by name, in [project]"
    );
    assert!(
        !is_at_defaults(&state, Section::Resolution),
        "the starter picks a voxel size of its own"
    );

    // Every section in turn: off its defaults, and reset.
    for section in SECTIONS {
        let mut state = open(fixture());
        unsettle(&mut state);
        assert!(
            !is_at_defaults(&state, section),
            "{section:?}: at its defaults after being moved off them"
        );
        click_reset(&mut state, section);
        assert!(
            is_at_defaults(&state, section),
            "{section:?}: not at its defaults after a reset of it"
        );
    }
}

fn reset_every_section_and_check(state: &mut EditorState) {
    assert!(
        builds(state.config()),
        "the state being reset out of does not build: {:?}",
        state.config()
    );
    for section in SECTIONS {
        click_reset(state, section);
        assert!(
            builds(state.config()),
            "{section:?}: the reset landed a configuration that does not build: {:?}",
            state.config()
        );
        assert!(state.undo());
    }
}

#[test]
fn every_section_reset_lands_a_configuration_that_still_builds() {
    // The growth engine, with a full table and a symmetry under it.
    let mut config = fixture();
    config.engine = Some(GROWTH_ENGINE.to_string());
    let mut state = open(config);
    edit(&mut state, |config| config.growth = Some(growth_table()));
    reset_every_section_and_check(&mut state);

    // The local volume cap, which is legal only under the update scheme that
    // prices a second constraint, beside the other two sub-tables.
    let mut state = open(fixture());
    edit(&mut state, |config| {
        config.optimization.update = Some(UpdateScheme::Mma);
        config.optimization.local_volume = Some(LocalVolumeConfig {
            max_fraction: None,
            radius_mm: None,
        });
        config.optimization.overhang = Some(OverhangConfig {
            build_direction: VIEW_EDIT_DEFAULT_BUILD_DIRECTION,
        });
        config.optimization.wireframe = Some(WireframeConfig {
            radius_mm: None,
            hold_iterations: None,
            seed_density: None,
        });
    });
    reset_every_section_and_check(&mut state);
}

#[test]
fn a_saved_reset_takes_the_keys_it_removed_out_of_the_file() {
    let mut state = open(fixture());
    assert_eq!(state.config().output.iso_level.map(v), Some(0.5));

    click_reset(&mut state, Section::Output);
    click_reset(&mut state, Section::Optimization);
    state.mark_saved();
    assert!(!state.is_dirty());

    let saved = state.config();
    assert!(saved.output.iso_level.is_none());
    assert_eq!(saved.optimization.max_iterations, None);
    assert_eq!(saved.output.stl_path, "fixture.stl");
    assert_eq!(
        v(saved.optimization.min_feature_mm),
        12.0,
        "the derived minimum feature was not written"
    );
    assert_eq!(
        v(saved.optimization.mass_fraction),
        0.3,
        "the reset reached a key it does not own"
    );
}

#[test]
fn an_engine_reset_empties_the_solver_table_and_removes_the_growth_one() {
    let mut config = fixture();
    config.engine = Some(GROWTH_ENGINE.to_string());
    config.solver = Some(SolverConfig {
        backend: Some(SolverBackend::Cpu),
        tolerance: Some(s(3e-8)),
    });
    config.growth = Some(GrowthConfig {
        symmetry: Some(mirror_symmetry(Axis::X)),
        ..growth_table()
    });
    let mut state = open(config);
    click_reset(&mut state, Section::Engine);
    let solver = state.config().solver.expect("the emptied table was removed");
    assert!(solver.backend.is_none() && solver.tolerance.is_none());
    assert!(state.config().growth.is_none());
    assert_eq!(state.config().engine, None);
    // A configuration that had no table is not given one.
    let mut plain = open(fixture());
    click_reset(&mut plain, Section::Engine);
    assert!(plain.config().solver.is_none());
}

#[test]
fn a_cell_target_that_never_built_leaves_the_minimum_feature_alone() {
    let mut config = fixture();
    config.resolution = ResolutionConfig {
        voxel_size_mm: None,
        target_cells: Some(100_000_000_000),
    };
    let mut state = EditorState::open(config);
    assert!(
        state.effective_voxel_mm().is_none(),
        "a voxel size was found where there is none"
    );

    edit(&mut state, |config| {
        config.optimization.penalty = Some(s(4.0));
        config.optimization.max_iterations = Some(9);
        config.optimization.wireframe = Some(WireframeConfig {
            radius_mm: Some(s(3.0)),
            hold_iterations: None,
            seed_density: None,
        });
    });
    let before = v(state.config().optimization.min_feature_mm);

    click_reset(&mut state, Section::Optimization);
    let optimization = &state.config().optimization;
    assert_eq!(
        v(optimization.min_feature_mm),
        before,
        "a minimum feature was derived from a grid that does not exist"
    );
    // The rest of the section reset all the same: the click did something.
    assert!(optimization.penalty.is_none());
    assert!(optimization.max_iterations.is_none());
    assert!(optimization.wireframe.is_none());
}

#[test]
fn the_solver_combo_shows_the_backend_a_run_would_use() {
    let mut state = open(fixture());
    // The fixture names no backend at all.
    assert!(state.config().solver.is_none());
    let resolved = DEFAULT_SOLVER_BACKEND;
    assert_eq!(shown_backend(state.config()), resolved);
    assert_ne!(resolved, SolverBackend::Cpu, "the reference backend is not the default");

    // A table without the key inside it is the same absence.
    edit(&mut state, |config| {
        config.solver = Some(SolverConfig {
            backend: None,
            tolerance: None,
        })
    });
    assert_eq!(shown_backend(state.config()), resolved);

    // And a backend the file names is shown as it is written, both ways round: what a
    // click writes is what the next frame reads back.
    for backend in [SolverBackend::Cpu, SolverBackend::Gpu] {
        edit(&mut state, |config| write_solver_backend(config, backend));
        assert_eq!(shown_backend(state.config()), backend);
        edit(&mut state, |config| write_solver_tolerance(config, Some(s(3e-8))));
        assert_eq!(shown_backend(state.config()), backend);
    }
}

#[test]
fn the_smallest_feature_is_read_off_the_documents_own_grid() {
    let mut state = EditorState::open(fixture());
    let twice = |voxel: Scalar| s(2.0 * v(voxel));
    assert_eq!(state.smallest_feature(twice).map(v), Some(8.0));
    state.config_mut().resolution = ResolutionConfig {
        voxel_size_mm: None,
        target_cells: Some(1_000),
    };
    assert!(state.smallest_feature(twice).is_none(), "there is no grid yet");
    state.set_built_voxel_mm(Some(s(5.0)));
    assert_eq!(state.smallest_feature(twice).map(v), Some(10.0));
}

#[test]
fn the_solver_tolerance_row_draws_and_survives_the_backend_combo() {
    let mut state = open(fixture());
    assert!(state.config().solver.is_none());

    // Pinned, with no backend beside it.
    edit(&mut state, |config| {
        write_solver_tolerance(config, Some(s(3e-8)))
    });
    let table = state.config().solver.expect("a table");
    assert_eq!(table.tolerance.map(v), Some(3e-8));
    assert_eq!(table.backend, None);

    // What the backend combo writes when it is clicked, with a tolerance already
    // pinned.
    edit(&mut state, |config| {
        write_solver_backend(config, SolverBackend::Cpu)
    });
    let table = state.config().solver.expect("a table");
    assert_eq!(
        table.tolerance.map(v),
        Some(3e-8),
        "the backend combo dropped a tolerance the user pinned"
    );
    assert_eq!(table.backend, Some(SolverBackend::Cpu));

    // And the other way: the tolerance row keeps the named backend, and unticking
    // it leaves the backend alone.
    edit(&mut state, |config| {
        write_solver_tolerance(config, Some(s(2e-8)))
    });
    let table = state.config().solver.expect("a table");
    assert_eq!(table.backend, Some(SolverBackend::Cpu));
    assert_eq!(table.tolerance.map(v), Some(2e-8));
    edit(&mut state, |config| write_solver_tolerance(config, None));
    let table = state.config().solver.expect("a table");
    assert_eq!(table.backend, Some(SolverBackend::Cpu));
    assert!(table.tolerance.is_none());
}

#[test]
fn the_output_section_draws_the_trim_rows_in_every_state() {
    let mut config = fixture();
    for (trim, fraction, offered) in [
        (None, None, false),
        (Some(TrimPolicy::Off), None, false),
        (Some(TrimPolicy::Stress), None, true),
        (Some(TrimPolicy::Stress), Some(s(0.02)), true),
    ] {
        config.output.trim = trim;
        config.output.trim_stress_fraction = fraction;
        let rows = output_rows(&config.output);
        assert!(rows.contains(&OutputRow::Trim));
        assert_eq!(rows.contains(&OutputRow::TrimFraction), offered);
    }
}

#[test]
fn the_output_section_draws_the_reinforce_rows_in_every_state() {
    let mut config = fixture();
    assert_eq!(config.output.reinforce, None);
    for (reinforce, thickness, offered) in [
        (None, None, false),
        (Some(ReinforcePolicy::Off), None, false),
        (Some(ReinforcePolicy::MinThickness), None, true),
        (Some(ReinforcePolicy::MinThickness), Some(2.5), true),
    ] {
        config.output.reinforce = reinforce;
        config.output.reinforce_thickness_mm = thickness.map(s);
        assert_eq!(
            output_rows(&config.output).contains(&OutputRow::ReinforceThickness),
            offered
        );
        assert_eq!(config.output.reinforce, reinforce);
        assert_eq!(config.output.reinforce_thickness_mm.map(v), thickness);
    }
    assert_eq!(ReinforcePolicy::default(), ReinforcePolicy::Off);
    assert_eq!(ReinforcePolicy::Off.label(), "off");
    assert_eq!(ReinforcePolicy::MinThickness.label(), "min_thickness");
}

#[test]
fn the_output_section_draws_the_boundaries_combo_in_every_state() {
    let mut config = fixture();
    assert_eq!(config.output.boundaries, None);
    for boundaries in [
        None,
        Some(BoundaryFidelity::Exact),
        Some(BoundaryFidelity::Voxel),
    ] {
        config.output.boundaries = boundaries;
        assert!(output_rows(&config.output).contains(&OutputRow::Boundaries));
        assert_eq!(config.output.boundaries, boundaries);
    }
    assert_eq!(BoundaryFidelity::default(), BoundaryFidelity::Exact);
    assert_eq!(BoundaryFidelity::Exact.label(), "exact");
    assert_eq!(BoundaryFidelity::Voxel.label(), "voxel");
    assert_eq!(TrimPolicy::Off.label(), "off");
    assert_eq!(TrimPolicy::Stress.label(), "stress");
}

#[test]
fn a_threshold_is_written_only_while_its_pass_runs() {
    let mut output = fixture().output;
    edit_output(&mut output, OutputEdit::TrimFraction(Some(s(0.02))));
    assert!(output.trim_stress_fraction.is_none());
    edit_output(&mut output, OutputEdit::Trim(TrimPolicy::Stress));
    edit_output(&mut output, OutputEdit::TrimFraction(Some(s(0.02))));
    assert_eq!(output.trim_stress_fraction.map(v), Some(0.02));
    edit_output(&mut output, OutputEdit::Voids(VoidPolicy::Fill));
    edit_output(&mut output, OutputEdit::Smoothing(Some(5)));
    assert_eq!(output.voids, Some(VoidPolicy::Fill));
    assert_eq!(output.smoothing_iterations, Some(5));
    assert_eq!(stl_line(&output), "stl    fixture.stl");
    assert_eq!(stress_line(&output), "stress no json report");
    output.stress_json = Some("stress.json".to_string());
    assert_eq!(stress_line(&output), "stress stress.json");
}

#[test]
fn a_drag_is_one_undo_step_however_many_frames_it_takes() {
    let mut state = open(fixture());
    let mut field = Field::new(true);
    for frame in 0..10 {
        let changed = field.apply(
            &mut state,
            Gesture {
                widget: 7,
                changed: true,
                drag_stopped: false,
                lost_focus: false,
            },
        );
        assert!(changed);
        state.config_mut().optimization.mass_fraction = s(0.3 + 0.01 * frame as f64);
    }
    field.apply(
        &mut state,
        Gesture {
            widget: 7,
            changed: false,
            drag_stopped: true,
            lost_focus: false,
        },
    );
    assert!(field.touched());
    assert_eq!(state.undo_depth(), 1);
    assert!(state.undo());
    assert_eq!(v(state.config().optimization.mass_fraction), 0.3);
    assert!(!state.undo());
    assert!(state.redo());
    assert!((v(state.config().optimization.mass_fraction) - 0.39).abs() < 1e-12);
    assert!(!state.redo());
    assert_eq!(state.redo_depth(), 0);
    field.choose_once(&mut state, 8);
    assert_eq!(state.undo_depth(), 2);
}

#[test]
fn an_optional_row_writes_its_default_and_takes_its_key_out() {
    assert_eq!(optional_value(true, 5), Some(5));
    assert_eq!(optional_value(false, 5), None);
}

#[test]
fn an_engine_is_written_where_the_file_keeps_it() {
    let mut config = fixture();
    choose_engine(&mut config, GROWTH_ENGINE.to_string());
    assert_eq!(config.engine.as_deref(), Some(GROWTH_ENGINE));
    config.growth = Some(growth_table());
    choose_engine(&mut config, "simp".to_string());
    assert_eq!(config.engine.as_deref(), Some("simp"));
    assert!(config.growth.is_none());
    config.project.engine = Some("simp".to_string());
    config.engine = None;
    choose_engine(&mut config, "solid".to_string());
    assert_eq!(config.project.engine.as_deref(), Some("solid"));
    assert_eq!(config.engine, None);
}

#[test]
fn the_two_resolution_keys_take_turns() {
    let mut resolution = fixture().resolution;
    edit_resolution(&mut resolution, ResolutionEdit::TargetCells(7));
    assert_eq!(resolution.target_cells, None);
    edit_resolution(&mut resolution, ResolutionEdit::BySize(false));
    assert!(resolution.voxel_size_mm.is_none());
    assert_eq!(
        resolution.target_cells,
        Some(VIEW_EDIT_DEFAULT_TARGET_CELLS)
    );
    edit_resolution(&mut resolution, ResolutionEdit::TargetCells(7));
    assert_eq!(resolution.target_cells, Some(7));
    edit_resolution(&mut resolution, ResolutionEdit::VoxelSize(s(3.0)));
    assert!(resolution.voxel_size_mm.is_none());
    edit_resolution(&mut resolution, ResolutionEdit::BySize(true));
    assert_eq!(resolution.voxel_size_mm.map(v), Some(2.0));
    assert_eq!(resolution.target_cells, None);
    edit_resolution(&mut resolution, ResolutionEdit::VoxelSize(s(3.0)));
    assert_eq!(resolution.voxel_size_mm.map(v), Some(3.0));
}

fn presets() -> Vec<MaterialPreset> {
    [("pla", 3500.0), ("petg", 2100.0)]
        .into_iter()
        .map(|(key, modulus)| MaterialPreset {
            key: key.to_string(),
            youngs_modulus_mpa: s(modulus),
            poisson_ratio: s(0.36),
            density_g_cm3: s(1.24),
            yield_strength_mpa: s(47.0),
        })
        .collect()
}

#[test]
fn a_material_is_a_preset_or_four_values_of_ones_own() {
    let mut material = fixture().material;
    assert_eq!(
        material_rows(&material),
        vec![MaterialRow::GivenAs, MaterialRow::Preset]
    );
    edit_material(
        &mut material,
        MaterialEdit::Preset("petg".to_string()),
        &presets(),
    );
    edit_material(&mut material, MaterialEdit::ByPreset(false), &presets());
    assert_eq!(material.preset, None);
    assert_eq!(material.youngs_modulus_mpa.map(v), Some(2100.0));
    assert_eq!(material_rows(&material).len(), 5);
    edit_material(
        &mut material,
        MaterialEdit::Property(MaterialProperty::Density, s(1.3)),
        &presets(),
    );
    assert_eq!(material.density_g_cm3.map(v), Some(1.3));
    edit_material(&mut material, MaterialEdit::ByPreset(true), &presets());
    assert_eq!(material.preset.as_deref(), Some("pla"));
    assert!(material.density_g_cm3.is_none());
}

#[test]
fn the_rows_of_a_sub_table_follow_its_switch() {
    let mut optimization = fixture().optimization;
    let rows = optimization_rows(&optimization);
    assert!(rows.contains(&OptimizationRow::Wireframe));
    assert!(!rows.contains(&OptimizationRow::WireRadius));
    edit_optimization(
        &mut optimization,
        OptimizationEdit::WireRadius(Some(s(3.0))),
    );
    assert!(optimization.wireframe.is_none());
    edit_optimization(&mut optimization, OptimizationEdit::Wireframe(true));
    edit_optimization(
        &mut optimization,
        OptimizationEdit::WireRadius(Some(s(3.0))),
    );
    assert_eq!(
        optimization.wireframe.unwrap().radius_mm.map(v),
        Some(3.0)
    );
    assert!(optimization_rows(&optimization).contains(&OptimizationRow::WireRadius));
    edit_optimization(&mut optimization, OptimizationEdit::Overhang(true));
    assert_eq!(
        optimization.overhang.unwrap().build_direction,
        VIEW_EDIT_DEFAULT_BUILD_DIRECTION
    );
    edit_optimization(
        &mut optimization,
        OptimizationEdit::BuildDirection(BuildDirection::YMinus),
    );
    assert_eq!(
        optimization.overhang.unwrap().build_direction,
        BuildDirection::YMinus
    );
}

#[test]
fn a_symmetry_is_always_one_a_run_accepts() {
    assert_eq!(axis_options(), [Axis::X, Axis::Y, Axis::Z]);
    assert_eq!(second_plane_options(Axis::Y), vec![Axis::X, Axis::Z]);
    let mut symmetry = None;
    edit_symmetry(&mut symmetry, SymmetryEdit::Present(true));
    let table = symmetry.as_ref().expect("a table");
    assert_eq!(table.kind, SymmetryKind::Mirror);
    assert_eq!(table.planes, Some(vec![Axis::X]));
    edit_symmetry(&mut symmetry, SymmetryEdit::SecondPlane(Some(Axis::Z)));
    assert_eq!(
        symmetry.as_ref().unwrap().planes,
        Some(vec![Axis::X, Axis::Z])
    );
    // The first plane takes the place of the second rather than standing twice.
    edit_symmetry(&mut symmetry, SymmetryEdit::FirstPlane(Axis::Z));
    let planes = symmetry.as_ref().unwrap().planes.clone().expect("planes");
    assert_eq!(planes[0], Axis::Z);
    assert!(!planes[1..].contains(&Axis::Z));
    edit_symmetry(&mut symmetry, SymmetryEdit::Kind(SymmetryKind::Rotational));
    edit_symmetry(&mut symmetry, SymmetryEdit::Order(500));
    let table = symmetry.as_ref().unwrap();
    assert_eq!(table.order, Some(GROWTH_SYMMETRY_MAX_ORDER));
    assert_eq!(table.planes, None);
    edit_symmetry(&mut symmetry, SymmetryEdit::Present(false));
    assert!(symmetry.is_none());
}

#[test]
fn a_growth_table_appears_when_a_key_is_pinned() {
    let mut growth = None;
    assert!(growth_rows(false, &growth).is_empty());
    assert!(growth_rows(true, &growth).contains(&GrowthRow::Seed));
    edit_growth(&mut growth, GrowthEdit::Seed(Some(7)));
    assert_eq!(growth.as_ref().expect("a table").seed, Some(7));
    edit_growth(
        &mut growth,
        GrowthEdit::Symmetry(SymmetryEdit::Present(true)),
    );
    let rows = growth_rows(true, &growth);
    assert!(rows.contains(&GrowthRow::FirstPlane) && !rows.contains(&GrowthRow::Order));
}

#[test]
fn a_tube_offers_its_bend_while_it_has_one() {
    let tube = ShapeSpec::Tube {
        p1: [0.0; 3].map(s),
        p2: [20.0, 0.0, 0.0].map(s),
        bend: Some([10.0, 6.0, 0.0].map(s)),
        radius: s(2.0),
    };
    assert!(shape_rows(&tube).contains(&ShapeRow::Straighten));
    let straight = edit_shape(tube, ShapeEdit::Straighten);
    assert_eq!(
        shape_rows(&straight),
        vec![ShapeRow::P1, ShapeRow::P2, ShapeRow::Radius]
    );
    let wide = edit_shape(straight, ShapeEdit::Length(ShapeRow::Radius, s(3.0)));
    assert!(matches!(wide, ShapeSpec::Tube { radius, bend: None, .. } if v(radius) == 3.0));
    // A row it does not have writes nothing.
    let same = edit_shape(wide, ShapeEdit::Length(ShapeRow::Thickness, s(9.0)));
    assert_eq!(said(&same), said(&wide));
}

#[test]
fn ticking_every_direction_takes_the_key_out() {
    let held = toggle_direction(None, Axis::Y, false);
    assert_eq!(held, Some(vec![Axis::X, Axis::Z]));
    let back = toggle_direction(held, Axis::Y, true);
    assert_eq!(back, None);
}

#[test]
fn a_support_holds_the_axes_it_lists_or_all_of_them() {
    for axis in [Axis::X, Axis::Y, Axis::Z] {
        assert!(holds(&None, axis));
        assert!(!holds(&Some(vec![]), axis));
        assert_eq!(holds(&Some(vec![Axis::Z, Axis::X]), axis), axis != Axis::Y);
    }
}

#[test]
fn every_list_of_the_tree_has_its_own_entries() {
    let mut config = fixture();
    let again = config.keepout[0];
    config.keepout.push(again);
    assert_eq!(entries_of(&config, ObjectList::Domain), vec![Selection::Domain(0)]);
    assert_eq!(
        entries_of(&config, ObjectList::Keepout),
        vec![Selection::Keepout(0), Selection::Keepout(1)]
    );
    assert!(entries_of(&config, ObjectList::Keepin).is_empty());
    assert_eq!(entries_of(&config, ObjectList::Supports), vec![Selection::Support(0)]);
    assert_eq!(load_entries(&config, 0), vec![Selection::Load { case: 0, load: 0 }]);
    assert!(load_entries(&config, 1).is_empty());
}

#[test]
fn a_symmetry_row_shows_its_key_or_the_default() {
    let mut symmetry = mirror_symmetry(Axis::Y);
    assert_eq!(shown_planes(&symmetry), (Axis::Y, None));
    assert_eq!(shown_order(&symmetry), 4);
    assert_eq!(shown_axis(&symmetry), Axis::Z);
    symmetry.planes = Some(vec![Axis::Z, Axis::X]);
    symmetry.order = Some(7);
    symmetry.axis = Some(Axis::X);
    assert_eq!(shown_planes(&symmetry), (Axis::Z, Some(Axis::X)));
    assert_eq!(shown_order(&symmetry), 7);
    assert_eq!(shown_axis(&symmetry), Axis::X);
    symmetry.planes = None;
    assert_eq!(shown_planes(&symmetry), (Axis::X, None));
}

#[test]
fn a_load_is_edited_by_its_own_rows_alone() {
    let gravity = LoadSpec::Gravity {
        direction: None,
        g_mm_s2: None,
    };
    let pulled = edit_load(gravity, LoadEdit::Gravity(Some(s(9810.0))));
    assert!(matches!(
        pulled,
        LoadSpec::Gravity { g_mm_s2: Some(g), .. } if v(g) == 9810.0
    ));
    let same = edit_load(pulled, LoadEdit::Vector([1.0; 3].map(s)));
    assert_eq!(said(&same), said(&pulled));
}

#[test]
fn the_tree_lists_every_object_and_a_tube_is_drawn_rather_than_dropped() {
    assert_eq!(
        object_tree(&fixture()),
        vec![
            Selection::Domain(0),
            Selection::Keepout(0),
            Selection::Support(0),
            Selection::LoadCase(0),
            Selection::Load { case: 0, load: 0 },
        ]
    );
    assert_eq!(list_heading("keepout", 12), "keepout (12)");
    assert_eq!(
        add_request(ObjectList::Keepout, ShapeKind::Tube),
        AddRequest::Place(NewObject::Keepout(ShapeKind::Tube))
    );
    assert_eq!(
        add_request(ObjectList::Domain, ShapeKind::Box),
        AddRequest::Add(NewObject::Domain(ShapeKind::Box, CsgOpSpec::Add))
    );
}

#[test]
fn a_section_says_what_its_reset_does() {
    for section in SECTIONS {
        assert!(section.tooltip().starts_with("put "), "{section:?}");
    }
    assert!(Section::Resolution.tooltip().contains("a voxel size of 2 mm"));
}

fn dragged(widget: u64, drag_stopped: bool) -> Usage {
    Usage::Gesture(Gesture {
        widget,
        changed: true,
        drag_stopped,
        lost_focus: false,
    })
}

/// One row of every section and of every kind of object.
fn one_of_each() -> Vec<RowEdit> {
    let sphere = ShapeSpec::Sphere {
        center: [1.0, 2.0, 3.0].map(s),
        radius: s(4.0),
    };
    vec![
        RowEdit::Section(SectionEdit::Engine("solid".to_string())),
        RowEdit::Section(SectionEdit::Backend(SolverBackend::Cpu)),
        RowEdit::Section(SectionEdit::Tolerance(Some(s(3e-8)))),
        RowEdit::Section(SectionEdit::Resolution(ResolutionEdit::VoxelSize(s(2.5)))),
        RowEdit::Section(SectionEdit::Material(MaterialEdit::ByPreset(false))),
        RowEdit::Section(SectionEdit::Optimization(OptimizationEdit::Overhang(true))),
        RowEdit::Section(SectionEdit::Output(OutputEdit::Trim(TrimPolicy::Stress))),
        RowEdit::Object(
            Selection::Domain(0),
            ObjectEdit::Operation(CsgOpSpec::Subtract),
        ),
        RowEdit::Object(Selection::Keepout(0), ObjectEdit::Shape(sphere, false)),
        RowEdit::Object(
            Selection::Support(0),
            ObjectEdit::Direction(Axis::Y, false),
        ),
        RowEdit::Object(
            Selection::LoadCase(0),
            ObjectEdit::CaseName("root".to_string()),
        ),
        RowEdit::Object(
            Selection::Load { case: 0, load: 0 },
            ObjectEdit::Load(LoadEdit::Gravity(Some(s(9810.0)))),
        ),
        RowEdit::Reset(Section::Optimization, Some(s(12.0))),
    ]
}

#[test]
fn every_row_of_the_panel_is_one_undo_step() {
    let before = said(&fixture());
    for edit in one_of_each() {
        let what = said(&edit);
        let mut state = EditorState::open(fixture());
        let mut field = Field::new(true);
        assert!(use_row(
            &mut state,
            &mut field,
            Usage::Once(7),
            edit,
            &presets()
        ));
        assert_ne!(said(state.config()), before, "{what} wrote nothing");
        assert!(field.touched());
        assert_eq!(state.undo_depth(), 1, "{what}");
        assert!(state.undo());
        assert_eq!(said(state.config()), before, "{what}");
    }
}

#[test]
fn a_row_that_is_dragged_writes_every_value_into_one_step() {
    let mut state = EditorState::open(fixture());
    let mut field = Field::new(false);
    for step in 0..50 {
        let value = s(0.3 + f64::from(step) / 1000.0);
        let edit = RowEdit::Section(SectionEdit::Optimization(OptimizationEdit::MassFraction(
            value,
        )));
        use_row(
            &mut state,
            &mut field,
            dragged(11, step == 49),
            edit,
            &presets(),
        );
        assert_eq!(v(state.config().optimization.mass_fraction), v(value));
    }
    assert_eq!(state.undo_depth(), 1);
    assert!(state.undo());
    assert_eq!(v(state.config().optimization.mass_fraction), 0.3);
}

#[test]
fn a_row_nobody_changed_writes_nothing() {
    for edit in one_of_each() {
        let mut state = EditorState::open(fixture());
        let mut field = Field::new(false);
        let idle = Usage::Gesture(Gesture {
            widget: 3,
            changed: false,
            drag_stopped: true,
            lost_focus: true,
        });
        assert!(!use_row(&mut state, &mut field, idle, edit, &presets()));
        assert_eq!(said(state.config()), said(&fixture()));
        assert_eq!(state.undo_depth(), 0);
        assert!(!field.touched() && !field.clamped);
    }
}

#[test]
fn a_shape_that_was_kept_inside_the_domain_is_told() {
    let shape = ShapeSpec::Sphere {
        center: [1.0; 3].map(s),
        radius: s(1.0),
    };
    for moved in [false, true] {
        let mut state = EditorState::open(fixture());
        let mut field = Field::new(true);
        let edit = RowEdit::Object(Selection::Keepout(0), ObjectEdit::Shape(shape, moved));
        use_row(&mut state, &mut field, Usage::Once(1), edit, &presets());
        assert_eq!(field.clamped, moved);
        let read = shape_of(state.config(), Selection::Keepout(0));
        assert_eq!(said(&read), said(&Some(shape)));
    }
}

#[test]
fn a_row_of_an_object_that_is_not_there_writes_nothing() {
    let shape = ShapeSpec::Sphere {
        center: [1.0; 3].map(s),
        radius: s(1.0),
    };
    for selection in [
        Selection::Domain(1),
        Selection::Keepout(1),
        Selection::Keepin(0),
        Selection::Support(1),
        Selection::LoadCase(0),
        Selection::LoadCase(1),
        Selection::Load { case: 0, load: 0 },
        Selection::Load { case: 0, load: 1 },
        Selection::Load { case: 1, load: 0 },
    ] {
        let mut config = fixture();
        assert!(shape_of(&config, selection).is_none(), "{selection:?}");
        edit_object(&mut config, selection, &ObjectEdit::Shape(shape, false));
        assert_eq!(said(&config), said(&fixture()), "{selection:?}");
    }
}

#[test]
fn a_region_is_moved_and_its_load_stays() {
    let near = ShapeSpec::Sphere {
        center: [1.0; 3].map(s),
        radius: s(1.0),
    };
    let far = ShapeSpec::Sphere {
        center: [9.0; 3].map(s),
        radius: s(2.0),
    };
    let mut config = fixture();
    config.loadcases[0].loads.push(LoadSpec::Force {
        region: near,
        vector: [0.0, 0.0, -5.0].map(s),
    });
    let load = Selection::Load { case: 0, load: 1 };
    edit_object(&mut config, load, &ObjectEdit::Shape(far, false));
    assert_eq!(said(&shape_of(&config, load)), said(&Some(far)));
    match config.loadcases[0].loads[1] {
        LoadSpec::Force { vector, .. } => assert_eq!(vector.map(v), [0.0, 0.0, -5.0]),
        _ => panic!("the load changed its kind"),
    }
    assert_eq!(config.loadcases[0].loads.len(), 2);
}

#[test]
fn the_growth_section_is_there_under_that_engine_alone() {
    let pin = || SectionEdit::Growth(GrowthEdit::Seed(Some(9)));
    let mut config = fixture();
    assert!(!is_growth(&config));
    assert_eq!(shown_engine(&config), "simp");
    edit_section(&mut config, pin(), &presets());
    assert!(config.growth.is_none());

    edit_section(
        &mut config,
        SectionEdit::Engine(GROWTH_ENGINE.to_string()),
        &presets(),
    );
    assert!(is_growth(&config));
    assert_eq!(shown_engine(&config), "growth");
    edit_section(&mut config, pin(), &presets());
    assert_eq!(config.growth.as_ref().and_then(|table| table.seed), Some(9));

    // The table goes with the engine it was for.
    edit_section(
        &mut config,
        SectionEdit::Engine("simp".to_string()),
        &presets(),
    );
    assert!(config.growth.is_none());
}
