//! The editor's background runs, with the threads played by hand.

use std::cell::RefCell;
use std::sync::Arc;

use growforge::config::{
    Config, MaterialConfig, OptimizationConfig, OutputConfig, ProjectConfig, ResolutionConfig,
    SolverBackend, SolverConfig,
};
use growforge::constants::{
    VIEW_EDIT_OUTPUT_MTIME_TOLERANCE_NS, VIEW_EDIT_PREVIEW_CELL_BUDGET,
    VIEW_EDIT_PREVIEW_MAX_ITERATIONS,
};
use growforge::panel::{stress_block, StressSummary};
use growforge::scalar::Scalar;
use growforge::session::{fail_on_panic, finish, preview_meshed, Completed};
use growforge::snapshot::{FrameKind, RunStatus};
use growforge::worker::{
    preview_config, preview_voxel_size, said_of, EngineField, FilePath, Retained, Retention, RunKind,
    RunOutcome, RunProbe, Worker,
};

/// What a run is of, as far as these tests look at it.
#[derive(Clone, Debug, PartialEq)]
struct Problem {
    cells: usize,
    stl_path: String,
}

/// The schedule that chose a design.
#[derive(Clone, Copy, Debug, PartialEq)]
struct Schedule {
    exported: usize,
    finished_safety_factor: Option<f64>,
}

type Session = Worker<Problem, Schedule, usize, String, usize>;

fn s(value: f64) -> Scalar {
    Scalar {
        bits: value.to_bits(),
    }
}

fn v(scalar: Scalar) -> f64 {
    f64::from_bits(scalar.bits)
}

fn problem() -> Problem {
    Problem {
        cells: 8,
        stl_path: "/tmp/kept.stl".to_string(),
    }
}

fn field(value: f64) -> Vec<Scalar> {
    vec![s(value); problem().cells]
}

/// The components of a path, as the platform tells them apart.
fn parts(path: &str) -> Vec<String> {
    std::path::Path::new(path)
        .components()
        .map(|component| format!("{component:?}"))
        .collect()
}

fn file(path: &str) -> FilePath {
    FilePath {
        text: path.to_string(),
        parts: parts(path),
    }
}

fn builds() -> Result<Problem, String> {
    Ok(problem())
}

fn part(triangles: usize, reduce: Option<Schedule>) -> Completed<String, Schedule, usize> {
    Completed {
        mesh: triangles,
        stress: Some(triangles),
        trim: None,
        flush: None,
        reinforce: None,
        clamp: Some(vec!["moved 9 vertices".to_string()]),
        summary: Some("safety factor 5.07".to_string()),
        reduce,
        triangles,
        volume_mm3: s(4000.0),
        stl_path: problem().stl_path,
    }
}

fn config() -> Config {
    Config {
        project: ProjectConfig {
            name: "kept".to_string(),
            engine: None,
        },
        engine: None,
        solver: Some(SolverConfig {
            backend: Some(SolverBackend::Cpu),
            tolerance: None,
        }),
        resolution: ResolutionConfig {
            voxel_size_mm: None,
            target_cells: Some(200_000),
        },
        material: MaterialConfig {
            preset: Some("pla".to_string()),
            youngs_modulus_mpa: None,
            poisson_ratio: None,
            density_g_cm3: None,
            yield_strength_mpa: None,
        },
        optimization: OptimizationConfig {
            mass_fraction: s(0.4),
            min_feature_mm: s(8.0),
            penalty: None,
            max_iterations: None,
            convergence_tol: None,
            update: None,
            overhang: None,
            wireframe: None,
            local_volume: None,
        },
        growth: None,
        output: OutputConfig {
            stl_path: "kept.stl".to_string(),
            iso_level: None,
            smoothing_iterations: None,
            supersample: None,
            voids: None,
            islands: None,
            boundaries: None,
            trim: None,
            trim_stress_fraction: None,
            reinforce: None,
            reinforce_thickness_mm: None,
            stress_json: None,
        },
        domain: Vec::new(),
        keepout: Vec::new(),
        keepin: Vec::new(),
        supports: Vec::new(),
        loadcases: Vec::new(),
    }
}

/// The voxel size a preview uses, with the arithmetic done.
fn preview_size(cells: usize, voxel_mm: f64, budget: usize) -> f64 {
    let coarsened = voxel_mm * (cells as f64 / budget as f64).cbrt();
    v(preview_voxel_size(
        cells,
        s(voxel_mm),
        budget,
        s(coarsened),
    ))
}

#[test]
fn a_preview_grid_is_coarsened_only_when_it_is_over_budget() {
    // Inside the budget nothing moves, whatever the numbers are.
    assert_eq!(preview_size(1_000, 2.0, 40_000), 2.0);
    assert_eq!(preview_size(40_000, 2.0, 40_000), 2.0);
    // Eight times the budget is twice the voxel size, because cells scale with
    // the cube of it.
    let coarse = preview_size(320_000, 2.0, 40_000);
    assert!((coarse - 4.0).abs() < 1e-9, "coarsened to {coarse}");
    // And the coarsened grid really is about the budget.
    let cells = 320_000.0 * (2.0f64 / coarse).powi(3);
    assert!(
        (cells - 40_000.0).abs() < 1.0,
        "{cells} cells after coarsening"
    );
    // Degenerate requests are left alone rather than producing a zero.
    assert_eq!(preview_size(100, 2.0, 0), 2.0);
    assert_eq!(preview_size(100, 0.0, 10), 0.0);
    assert!(preview_size(100, f64::NAN, 10).is_nan());
}

#[test]
fn a_simp_preview_is_capped_and_coarsened_and_a_growth_preview_is_not() {
    let config = config();
    let cells = 8 * VIEW_EDIT_PREVIEW_CELL_BUDGET;
    let preview = preview_config(&config, cells, s(2.0), s(4.0));
    assert_eq!(
        preview.optimization.max_iterations,
        Some(VIEW_EDIT_PREVIEW_MAX_ITERATIONS)
    );
    assert_eq!(preview.resolution.voxel_size_mm.map(v), Some(4.0));
    assert!(preview.resolution.target_cells.is_none());
    // Nothing else about the configuration is touched: same engine, same solver
    // backend, same output path.
    assert_eq!(preview.engine, config.engine);
    assert_eq!(
        preview.solver.unwrap().backend,
        config.solver.unwrap().backend
    );
    assert_eq!(preview.output.stl_path, config.output.stl_path);

    // A configuration asking for fewer iterations than the cap keeps its own
    // number rather than being raised to it, and a small grid its own size.
    let mut brief = config.copy();
    brief.optimization.max_iterations = Some(3);
    let small = preview_config(&brief, 1_000, s(2.0), s(4.0));
    assert_eq!(small.optimization.max_iterations, Some(3));
    assert_eq!(small.resolution.voxel_size_mm.map(v), Some(2.0));

    // Neither of the engines that preview at the real resolution is changed.
    for engine in ["growth", "solid"] {
        let mut config = config.copy();
        config.engine = Some(engine.to_string());
        let previewed = preview_config(&config, cells, s(2.0), s(4.0));
        assert!(
            previewed.same(&config),
            "the preview is not the configuration"
        );
        assert_eq!(
            previewed.resolution.target_cells,
            config.resolution.target_cells
        );
    }
}

#[test]
fn a_growth_preview_runs_in_the_background_and_hands_back_a_surface() {
    let mut worker: Session = Worker::new();
    let job = worker
        .start(builds, RunKind::Preview)
        .expect("start")
        .expect("a job");
    assert_eq!(worker.kind(), Some(RunKind::Preview));
    assert!(!worker.is_running_full(), "a preview is not a full run");

    let shown = worker.preview_designed(
        job.id,
        &job.retention,
        Ok(EngineField {
            densities: field(0.75),
            reduce: None,
            iterations: 12,
        }),
    );
    assert_eq!(shown, Some(12));
    let link = worker.link_of(job.id).expect("a link");
    assert!(preview_meshed(link, 12, Some(300)));
    worker.ended(job.id);
    let frame = worker.take_frame().expect("the preview produced no surface");
    assert_eq!(frame.kind, FrameKind::Preview { iteration: 12 });
    assert!(frame.mesh > 0);
    assert!(frame.stress.is_none(), "a preview solves no stresses");
    // A preview has happened to none of the stages a status describes.
    assert!(matches!(
        worker.progress().expect("a run").status,
        RunStatus::Optimizing
    ));
    worker.join();
    assert_eq!(worker.kind(), None);
}

#[test]
fn a_preview_that_fails_says_why_and_keeps_nothing() {
    let mut worker: Session = Worker::new();
    let job = worker
        .start(builds, RunKind::Preview)
        .expect("start")
        .expect("a job");
    let shown = worker.preview_designed(job.id, &job.retention, Err("no load".to_string()));
    assert_eq!(shown, None);
    assert!(worker.retained().is_none());
    assert!(matches!(
        &worker.progress().expect("a run").status,
        RunStatus::Failed(why) if why == "no load"
    ));
}

#[test]
fn a_cancelled_run_keeps_no_field_of_its_own() {
    let retention = Retention::new(problem());
    let mut slot: Option<Arc<Retained<Problem, Schedule>>> = None;

    // A live run keeps every field it reports, beside its own problem. An
    // iteration is a stage of a schedule that has not finished, so it carries no
    // record of one.
    retention.keep(&mut slot, field(0.25), None, false);
    let kept = slot.clone().expect("a live run kept nothing");
    assert_eq!(kept.densities().len(), problem().cells);
    assert_eq!(v(kept.densities()[0]), 0.25);
    assert_eq!(kept.problem(), &problem());
    assert!(kept.reduce().is_none(), "an iteration carried a schedule");

    // The field the engine hands over carries the schedule that chose it, which
    // is what an export of that design reports.
    let summary = Schedule {
        exported: 2,
        finished_safety_factor: None,
    };
    retention.keep(&mut slot, field(0.5), Some(summary.clone()), false);
    assert_eq!(
        slot.clone()
            .expect("the slot was emptied")
            .reduce()
            .cloned(),
        Some(summary),
        "the schedule did not travel with the design it chose"
    );

    // Cancelled, it keeps nothing: what is already there stays.
    retention.keep(&mut slot, field(0.75), None, true);
    assert_eq!(
        v(slot.clone().expect("the slot was emptied").densities()[0]),
        0.5,
        "a cancelled run wrote its field over a newer one"
    );

    // And a slot its replacement has cleared stays cleared, which is the case the
    // guard exists for.
    slot = None;
    retention.keep(&mut slot, field(0.75), None, true);
    assert!(slot.is_none(), "a cancelled run repopulated a cleared slot");
}

#[test]
fn a_superseded_run_cannot_repopulate_its_replacements_slot() {
    let mut worker: Session = Worker::new();
    let old = worker
        .start(builds, RunKind::Preview)
        .expect("start")
        .expect("a job");
    worker.keep(old.id, &old.retention, field(0.25), None);
    assert!(worker.retained().is_some());
    // A newer edit: the preview is cancelled and the slot cleared.
    let new = worker
        .start(builds, RunKind::Preview)
        .expect("restart")
        .expect("a job");
    assert!(worker.cancelled(old.id) && !worker.cancelled(new.id));
    assert!(worker.retained().is_none());
    worker.keep(old.id, &old.retention, field(0.75), None);
    assert!(
        worker.retained().is_none(),
        "the superseded run landed a design"
    );
    assert!(worker.link_of(old.id).is_none());
    worker.keep(new.id, &new.retention, field(0.5), None);
    assert_eq!(v(worker.retained().expect("a design").densities()[0]), 0.5);
}

#[test]
fn a_preview_keeps_its_design_and_it_is_what_gets_generated() {
    let mut worker: Session = Worker::new();
    let job = worker
        .start(builds, RunKind::Preview)
        .expect("start")
        .expect("a job");
    worker.preview_designed(
        job.id,
        &job.retention,
        Ok(EngineField {
            densities: field(0.6),
            reduce: None,
            iterations: 1,
        }),
    );
    worker.ended(job.id);

    // It wrote nothing and kept everything, so the button is offered on it.
    let kept = worker.retained().expect("the preview kept no design");
    assert_eq!(kept.problem().stl_path, problem().stl_path);
    assert_eq!(kept.densities().len(), kept.problem().cells);
    assert!(worker.can_generate());

    let export = worker.generate().expect("the generation never started");
    assert_eq!(v(export.design.densities()[0]), 0.6);
    let published = finish(
        worker.link_of(export.id).expect("a link"),
        Ok(Some(part(120, None))),
    );
    assert_eq!(published, Ok(true));
    worker.ended(export.id);
    let generated = worker
        .take_frame()
        .expect("the generation produced no surface");
    assert_eq!(
        generated.kind,
        FrameKind::Final,
        "a generation ends on the surface it wrote"
    );
}

#[test]
fn a_generation_writes_the_deliverables_of_the_design_that_was_kept() {
    let mut worker: Session = Worker::new();
    let job = worker
        .start(builds, RunKind::Full)
        .expect("start")
        .expect("a job");
    worker.keep(job.id, &job.retention, field(0.9), None);
    worker.ended(job.id);
    assert!(!worker.is_running(), "the run never finished");

    let kept = worker.retained().expect("the run kept no design");
    assert_eq!(kept.problem().stl_path, problem().stl_path);
    assert!(worker.can_generate());

    let export = worker.generate().expect("the generation never started");
    assert_eq!(worker.kind(), Some(RunKind::Export));
    assert!(
        worker.is_writing() && !worker.is_running_full(),
        "a generation owns the output file without being a full run"
    );
    finish(
        worker.link_of(export.id).expect("a link"),
        Ok(Some(part(240, None))),
    )
    .expect("published");
    let outcome = RunOutcome::Wrote {
        path: file(&problem().stl_path),
        stress: Vec::new(),
    };
    worker.run_over(RunKind::Export, outcome, Some(1_000));
    worker.ended(export.id);
    let frame = worker
        .take_frame()
        .expect("the generation produced no surface");
    assert_eq!(frame.kind, FrameKind::Final);
    assert!(
        frame.stress.is_some(),
        "the panel's stress block needs the layer a run's own export produces"
    );
    let progress = worker.progress().expect("a run to report on");
    let RunStatus::Finished {
        triangles,
        volume_mm3,
        stl_path,
    } = &progress.status
    else {
        panic!("the generation did not finish: {:?}", progress.status);
    };
    assert_eq!(frame.mesh, *triangles);
    assert_eq!(v(*volume_mm3), 4000.0);
    assert_eq!(*stl_path, problem().stl_path);
    // Recorded as ours, so the editor never accuses the session of its own
    // generation.
    assert!(worker.wrote_output(&parts(&problem().stl_path), 1_000));
}

#[test]
fn a_solid_run_keeps_the_field_it_produced_and_generates_the_same_file() {
    let mut worker: Session = Worker::new();
    let job = worker
        .start(builds, RunKind::Full)
        .expect("start")
        .expect("a job");
    // The engine reports no iteration, and hands its only field over.
    worker.keep(job.id, &job.retention, field(1.0), None);
    worker.ended(job.id);
    assert!(worker.progress().expect("a run").latest.is_none());
    assert!(worker.can_generate(), "the button stayed disabled");
    // What is exported is what the run produced, twice over: the passes work on a
    // copy.
    for _ in 0..2 {
        let export = worker.generate().expect("the generation never started");
        let mut copy = export.design.copy_densities();
        copy[0] = s(0.0);
        assert!(export.design.densities().iter().all(|d| v(*d) == 1.0));
        worker.ended(export.id);
    }
}

#[test]
fn a_run_that_was_stopped_can_still_have_its_design_generated() {
    let mut worker: Session = Worker::new();
    let job = worker
        .start(builds, RunKind::Full)
        .expect("start")
        .expect("a job");
    worker.keep(job.id, &job.retention, field(0.8), None);
    assert!(worker.is_running_full(), "the run ended on its own");
    let kept = worker.retained().expect("the run kept no design");

    worker.stop();
    assert!(!worker.is_running(), "the session forgets a stopped run");
    // The stop took the run away and left the design: that is the whole point, and
    // the button is offered on it.
    let after = worker.retained().expect("the stop threw the design away");
    assert_eq!(after.densities().len(), kept.densities().len());
    assert!(worker.can_generate());

    let export = worker.generate().expect("the generation never started");
    assert_eq!(v(export.design.densities()[0]), 0.8);
    // The stopped run's thread is still winding down beside it.
    assert!(worker.probe().is_running());
    worker.ended(job.id);
    assert!(worker.probe().is_running());
    worker.ended(export.id);
    assert!(!worker.probe().is_running());
}

fn stress_lines() -> Vec<String> {
    vec![
        "safety factor 5.07 (peak 9.2700 MPa vs yield 47 MPa)".to_string(),
        "tip peak 9.2700 MPa".to_string(),
    ]
}

#[test]
fn a_full_run_echoes_the_safety_factor_to_the_session_console() {
    let outcome = RunOutcome::Wrote {
        path: file(&problem().stl_path),
        stress: stress_lines(),
    };
    let said = said_of(RunKind::Full, &outcome);
    assert_eq!(
        said.out,
        vec![
            "editor wrote  /tmp/kept.stl".to_string(),
            "editor stress safety factor 5.07 (peak 9.2700 MPa vs yield 47 MPa)".to_string(),
            "editor stress tip peak 9.2700 MPa".to_string(),
        ]
    );
    assert!(said.failure.is_empty());
}

#[test]
fn a_generation_echoes_the_safety_factor_to_the_session_console() {
    let outcome = RunOutcome::Wrote {
        path: file(&problem().stl_path),
        stress: stress_lines(),
    };
    let said = said_of(RunKind::Export, &outcome);
    assert!(said.out[0].contains("editor wrote  /tmp/kept.stl"));
    for line in stress_lines() {
        assert!(said.out.contains(&format!("editor stress {line}")));
    }

    // Stopped before it analysed anything: it wrote no file and quotes no numbers.
    let said = said_of(RunKind::Export, &RunOutcome::Stopped);
    assert_eq!(
        said.out,
        vec!["editor stl    stopped; no file was written".to_string()]
    );
    assert!(!said.out.iter().any(|line| line.contains("editor stress")));
}

#[test]
fn a_run_that_failed_does_not_read_like_a_dead_program() {
    let failed = RunOutcome::Failed {
        error: "no load".to_string(),
    };
    let said = said_of(RunKind::Full, &failed);
    assert!(said.out.is_empty());
    assert_eq!(
        said.failure,
        vec![
            "editor run    failed and wrote nothing: no load".to_string(),
            "editor run    the session is unaffected; change the configuration and run again"
                .to_string(),
        ]
    );
    let said = said_of(RunKind::Export, &failed);
    assert_eq!(
        said.failure,
        vec![
            "editor stl    failed and wrote nothing: no load".to_string(),
            "editor stl    the session is unaffected; the design is still there to try again from"
                .to_string(),
        ]
    );
    assert_eq!(
        said_of(RunKind::Full, &RunOutcome::Stopped).out,
        vec!["editor run    stopped; no file was written".to_string()]
    );
}

#[test]
fn a_generation_carries_the_schedule_that_chose_the_design() {
    let mut worker: Session = Worker::new();
    let job = worker
        .start(builds, RunKind::Full)
        .expect("start")
        .expect("a job");
    let stage = Schedule {
        exported: 2,
        finished_safety_factor: None,
    };
    worker.keep(job.id, &job.retention, field(1.0), Some(stage.clone()));
    worker.ended(job.id);

    let export = worker.generate().expect("the generation never started");
    // The export measures the part it wrote onto its own copy of the record.
    let measured = Schedule {
        finished_safety_factor: Some(4.1),
        ..export.design.reduce().cloned().expect("a schedule")
    };
    finish(
        worker.link_of(export.id).expect("a link"),
        Ok(Some(part(12, Some(measured)))),
    )
    .expect("published");

    // The panel is shown that same record, finished factor and all, and the kept
    // design still holds the one the run gave it.
    let shown = worker
        .progress()
        .expect("a run")
        .reduce
        .clone()
        .expect("the panel was told nothing");
    assert_eq!(shown.exported, 2);
    assert!(shown.finished_safety_factor.is_some());
    assert_eq!(
        worker
            .retained()
            .expect("a design")
            .reduce()
            .and_then(|reduce| reduce.finished_safety_factor),
        None,
        "the export wrote its own measurement back onto the kept design"
    );
}

#[test]
fn an_export_in_two_bodies_warns_on_the_console_and_in_the_panel() {
    let warning = "warning: the export is 2 separate bodies - this safety factor describes each \
                   piece against its own supports, not one connected part"
        .to_string();
    let mut lines = vec![warning.clone()];
    lines.extend(stress_lines());
    let said = said_of(
        RunKind::Export,
        &RunOutcome::Wrote {
            path: file(&problem().stl_path),
            stress: lines,
        },
    );
    // The warning first among them.
    assert_eq!(said.out[1], format!("editor stress {warning}"));
    assert!(said.out[2].starts_with("editor stress safety factor "));
}

#[test]
fn with_nothing_kept_there_is_nothing_to_generate() {
    let mut worker: Session = Worker::new();
    assert!(worker.retained().is_none());
    assert!(!worker.can_generate());
    assert!(
        worker.generate().is_none(),
        "a generation started from nothing"
    );
    assert_eq!(worker.kind(), None);
    assert!(!worker.is_running() && !worker.is_writing());
    assert!(!worker.probe().is_running(), "a thread was started");
}

#[test]
fn only_one_run_that_writes_may_own_the_worker() {
    assert!(RunKind::Full.writes() && RunKind::Export.writes());
    assert!(!RunKind::Preview.writes(), "a preview writes nothing");

    let mut worker: Session = Worker::default();
    let job = worker
        .start(builds, RunKind::Preview)
        .expect("start")
        .expect("a job");
    worker.keep(job.id, &job.retention, field(0.5), None);
    let export = worker.generate().expect("a generation");
    assert!(worker.is_writing() && !worker.is_running_full());
    assert!(
        !worker.can_generate(),
        "one generation at a time, whatever is kept"
    );

    // Neither a preview nor a full run may take the file away from it, and
    // nothing is even built for them.
    let never = || -> Result<Problem, String> { panic!("nothing is built for a busy worker") };
    assert!(worker
        .start(never, RunKind::Preview)
        .expect("start")
        .is_none());
    assert_eq!(
        worker.kind(),
        Some(RunKind::Export),
        "a preview took the worker from a generation"
    );
    assert!(worker.start(never, RunKind::Full).expect("start").is_none());
    assert_eq!(
        worker.kind(),
        Some(RunKind::Export),
        "a full run took the worker from a generation"
    );
    worker.ended(export.id);
    assert!(!worker.is_running(), "the generation is over");

    // And a generation is refused while a full run has the worker.
    let full = worker
        .start(builds, RunKind::Full)
        .expect("start")
        .expect("a job");
    worker.keep(full.id, &full.retention, field(0.5), None);
    assert!(worker.is_writing());
    assert!(!worker.can_generate(), "a full run owns the output file");
    assert!(worker.generate().is_none());
    assert_eq!(worker.kind(), Some(RunKind::Full));
    worker.stop();
    assert!(!worker.is_writing());
}

#[test]
fn a_generation_is_not_started_from_a_configuration() {
    let mut worker: Session = Worker::new();
    let error = worker.start(builds, RunKind::Export).unwrap_err();
    assert!(
        error.contains("design already on screen"),
        "unexpected error: {error}"
    );
    assert_eq!(worker.startup_error(), Some(error.as_str()));
    assert_eq!(worker.kind(), None);
    assert!(!worker.is_running());
    assert!(!worker.probe().is_running(), "a thread was started");
}

#[test]
fn a_run_that_cannot_be_built_reports_why_and_starts_nothing() {
    let mut worker: Session = Worker::new();
    let error = worker
        .start(
            || Err("mass_fraction must be below 1".to_string()),
            RunKind::Preview,
        )
        .unwrap_err();
    assert!(error.contains("mass_fraction"), "unexpected error: {error}");
    assert!(worker.startup_error().is_some());
    assert!(!worker.is_running());
    assert_eq!(worker.kind(), None);
    // The next one that can be built clears it.
    worker.start(builds, RunKind::Preview).expect("start");
    assert_eq!(worker.startup_error(), None);
}

#[test]
fn cancelling_a_preview_stops_it_and_leaves_the_worker_free() {
    let mut worker: Session = Worker::new();
    let first = worker
        .start(builds, RunKind::Preview)
        .expect("start")
        .expect("a job");
    worker.cancel_preview();
    assert_eq!(worker.kind(), None, "a cancelled run is forgotten");
    assert!(!worker.is_running());
    // Starting again after a cancel is what an edit arriving mid-run does.
    let second = worker
        .start(builds, RunKind::Preview)
        .expect("restart")
        .expect("a job");
    assert_eq!(worker.kind(), Some(RunKind::Preview));
    // The window's way out is the same stop: nothing an editor started is ever
    // left running behind it.
    worker.stop();
    assert_eq!(worker.kind(), None);
    assert!(!worker.is_running());
    worker.ended(first.id);
    worker.ended(second.id);
    worker.join();

    // A full run is no preview.
    worker.start(builds, RunKind::Full).expect("start");
    worker.cancel_preview();
    assert!(worker.is_running_full());
}

#[test]
fn the_run_probe_counts_a_thread_from_before_it_starts_until_it_ends() {
    // Taken before any thread, and asked throughout.
    let threads = RefCell::new(RunProbe::default());
    let probe = || threads.borrow().is_running();
    assert!(!probe(), "an idle worker has no threads");
    let mut first = threads.borrow_mut().enter();
    assert!(probe());
    // A stopped run winding down while a new one is going: the count covers both,
    // and the window has to outlive the last of them.
    let mut second = threads.borrow_mut().enter();
    assert!(probe());
    threads.borrow_mut().leave(&mut second);
    assert!(probe(), "one thread is still alive");
    // A guard ends its own run and only its own.
    assert!(second.is_done());
    assert!(!first.is_done());
    // And only once.
    threads.borrow_mut().leave(&mut second);
    assert!(probe(), "a thread was counted out twice");

    threads.borrow_mut().leave(&mut first);
    assert!(!probe());
    assert!(first.is_done());

    // The same of a worker's own.
    let worker = RefCell::new(Session::new());
    let probe = || worker.borrow().probe().is_running();
    assert!(!probe());
    let started = worker.borrow_mut().start(builds, RunKind::Full);
    let job = started.expect("start").expect("a job");
    assert!(probe());
    worker.borrow_mut().stop();
    assert!(probe(), "a stopped thread has not ended yet");
    worker.borrow_mut().ended(job.id);
    assert!(!probe());

    // And a thread that ends, ends its own run and only its own.
    let mut worker: Session = Worker::new();
    let first = worker
        .start(builds, RunKind::Full)
        .expect("start")
        .expect("a job");
    worker.stop();
    let second = worker
        .start(builds, RunKind::Full)
        .expect("start")
        .expect("a job");
    worker.ended(first.id);
    assert!(worker.is_running_full(), "the other run was ended");
    worker.ended(second.id);
    assert!(!worker.is_running());
}

#[test]
fn a_panicking_run_thread_leaves_the_session_runnable() {
    let mut worker: Session = Worker::new();
    let job = worker
        .start(builds, RunKind::Full)
        .expect("start")
        .expect("a job");
    assert!(worker.is_running() && worker.is_running_full());
    assert!(worker.probe().is_running());

    // What an unwinding thread leaves: its status, and its end.
    fail_on_panic(worker.link_of(job.id).expect("a link"), true);
    worker.ended(job.id);

    // Everything the panel and the window read is true again.
    assert!(!worker.is_running(), "a run that unwound is over");
    assert!(!worker.is_running_full(), "and owns the worker no longer");
    assert!(!worker.probe().is_running(), "and the loop is free to stop");
    assert!(matches!(
        &worker.progress().expect("a run").status,
        RunStatus::Failed(why) if why == "the optimization thread panicked"
    ));
    // And the session really is usable.
    worker
        .start(builds, RunKind::Full)
        .expect("start")
        .expect("a job");
    assert!(worker.is_running_full(), "the next full run never started");
}

#[test]
fn stopping_a_full_run_hands_the_worker_back_at_once() {
    let mut worker: Session = Worker::new();
    let first = worker
        .start(builds, RunKind::Full)
        .expect("start")
        .expect("a job");
    assert!(worker.is_running_full());

    worker.stop();
    assert!(!worker.is_running());
    assert!(
        !worker.is_running_full(),
        "a stopped full run must release the worker at once"
    );
    assert!(
        worker.probe().is_running(),
        "its thread is still winding down"
    );

    // Which is to say the editor is usable again: another full run starts rather
    // than being swallowed by the flag of the one that was stopped.
    let second = worker
        .start(builds, RunKind::Full)
        .expect("restart")
        .expect("a job");
    assert!(worker.is_running_full());
    worker.stop();
    worker.ended(first.id);
    worker.ended(second.id);
    worker.join();
    assert!(!worker.probe().is_running());
}

#[test]
fn the_run_probe_covers_a_preview_a_full_run_and_a_stopped_one() {
    let mut worker: Session = Worker::new();
    assert!(!worker.probe().is_running());

    // A preview an edit started.
    let preview = worker
        .start(builds, RunKind::Preview)
        .expect("start")
        .expect("a job");
    assert!(
        worker.probe().is_running(),
        "a preview is a thread like any other"
    );
    worker.ended(preview.id);
    worker.join();
    assert!(!worker.probe().is_running());

    // A full run, and the gap the panel's own answer leaves: a stopped run is gone
    // from the session at once, while its thread is still on its way to the next
    // checkpoint.
    let full = worker
        .start(builds, RunKind::Full)
        .expect("start")
        .expect("a job");
    assert!(worker.probe().is_running());
    worker.stop();
    assert!(!worker.is_running(), "the session forgets a stopped run");
    assert!(
        worker.probe().is_running(),
        "a stopped run's thread is still alive and the loop must wait for it"
    );
    worker.ended(full.id);
    worker.join();
    assert!(!worker.probe().is_running());
}

#[test]
fn an_own_file_is_told_from_one_that_was_overwritten() {
    let mut worker: Session = Worker::new();
    let path = problem().stl_path;
    assert!(!worker.wrote_output(&parts(&path), 0));
    // A file whose time could not be read records nothing.
    worker.record_write(parts(&path), None);
    assert!(!worker.wrote_output(&parts(&path), 0));
    worker.record_write(parts(&path), Some(5_000));
    assert!(worker.wrote_output(&parts(&path), 5_000));
    assert!(worker.wrote_output(&parts(&path), 5_000 + VIEW_EDIT_OUTPUT_MTIME_TOLERANCE_NS));
    assert!(!worker.wrote_output(&parts(&path), 5_001 + VIEW_EDIT_OUTPUT_MTIME_TOLERANCE_NS));
    assert!(!worker.wrote_output(&parts("/tmp/other.stl"), 5_000));
    // A stop and a failure record nothing either.
    worker.run_over(RunKind::Full, RunOutcome::Stopped, Some(9_000_000_000_000));
    assert!(!worker.wrote_output(&parts(&path), 9_000_000_000_000));
    // At the end of time there is no tolerance to add.
    worker.record_write(parts(&path), Some(i128::MAX));
    assert!(worker.wrote_output(&parts(&path), i128::MAX));
}

#[test]
fn every_run_is_called_by_its_own_name() {
    assert_eq!(RunKind::Preview.label(), "preview");
    assert_eq!(RunKind::Full.label(), "full run");
    assert_eq!(RunKind::Export.label(), "stl generation");
}

type Analysed = Worker<Problem, Schedule, usize, StressSummary, usize>;

/// A part that was analysed.
fn analysed() -> Completed<StressSummary, Schedule, usize> {
    Completed {
        mesh: 12,
        stress: Some(12),
        trim: None,
        flush: None,
        reinforce: None,
        clamp: None,
        summary: Some(StressSummary {
            warning: None,
            headline: "safety factor 5.07 (peak 9.2700 MPa vs yield 47 MPa)".to_string(),
            cases: vec!["tip peak 9.2700 MPa".to_string()],
        }),
        reduce: None,
        triangles: 12,
        volume_mm3: s(4000.0),
        stl_path: problem().stl_path,
    }
}

fn stress_summary(worker: &Analysed) -> Option<&StressSummary> {
    worker.progress().and_then(|progress| progress.stress.as_ref())
}

/// The block describes the run the window is showing: absent before anything has
/// run, present with the yield strength named once one has, and absent again the
/// moment the next run starts.
#[test]
fn the_panel_shows_the_safety_factor_of_the_run_it_is_showing() {
    let mut worker = Analysed::new();
    assert!(stress_summary(&worker).is_none());

    let job = worker.start(builds, RunKind::Full).expect("a run").expect("a job");
    assert!(stress_summary(&worker).is_none());
    finish(worker.link_of(job.id).expect("a link"), Ok(Some(analysed()))).expect("a part");
    worker.ended(job.id);
    assert!(!worker.is_running(), "the run never ended");

    let summary = stress_summary(&worker).expect("the panel was never told");
    assert!(summary.headline.starts_with("safety factor "));
    assert!(summary.headline.contains("yield") && summary.headline.contains("MPa"));
    assert_eq!(summary.cases.len(), 1, "{:?}", summary.cases);
    assert!(summary.cases[0].starts_with("tip peak "));
    let drawn = stress_block(summary);
    assert_eq!(drawn[0].text, summary.headline);

    worker.start(builds, RunKind::Full).expect("a run").expect("a job");
    assert!(
        stress_summary(&worker).is_none(),
        "the panel kept the last run's safety factor"
    );
    worker.stop();
}

/// A run that was stopped analysed nothing, so there is nothing to say. Asking for
/// that design's stl is what analyses it.
#[test]
fn a_stopped_run_shows_no_safety_factor_until_its_stl_is_generated() {
    let mut worker = Analysed::new();
    let job = worker.start(builds, RunKind::Full).expect("a run").expect("a job");
    worker.keep(job.id, &job.retention, field(0.5), None);
    assert!(worker.is_running(), "the run ended on its own");
    worker.stop();
    assert!(
        stress_summary(&worker).is_none(),
        "a run that never analysed anything showed a safety factor"
    );
    assert!(worker.can_generate(), "the stop threw the design away");
    worker.ended(job.id);

    let export = worker.generate().expect("an export");
    assert!(stress_summary(&worker).is_none());
    finish(worker.link_of(export.id).expect("a link"), Ok(Some(analysed()))).expect("a part");
    worker.ended(export.id);
    assert!(!worker.is_running(), "the generation never ended");
    let summary = stress_summary(&worker).expect("the panel was never told");
    assert!(summary.headline.starts_with("safety factor "));
    assert_eq!(summary.cases.len(), 1, "{:?}", summary.cases);
}

/// The passes resolve a field in place. What is kept is the engine's own, from
/// before they did.
#[test]
fn a_full_run_keeps_the_engines_own_field() {
    let mut worker: Session = Worker::new();
    let job = worker.start(builds, RunKind::Full).expect("start").expect("a job");
    let made = EngineField {
        densities: field(0.25),
        reduce: Some(Schedule {
            exported: 2,
            finished_safety_factor: None,
        }),
        iterations: 7,
    };
    let handed = worker.run_designed(job.id, &job.retention, Ok(made));
    let mut handed = handed.expect("a field");
    assert_eq!(handed.iterations, 7);
    assert_eq!(handed.reduce.map(|schedule| schedule.exported), Some(2));
    // What the passes do to the field they were handed.
    for density in handed.densities.iter_mut() {
        *density = s(1.0);
    }
    let design = worker.retained().expect("a design");
    assert!(design.densities().iter().all(|d| v(*d) == 0.25));
    assert_eq!(design.reduce().map(|schedule| schedule.exported), Some(2));
    worker.ended(job.id);
    let export = worker.generate().expect("an export");
    assert!(export.design.densities().iter().all(|d| v(*d) == 0.25));
}

#[test]
fn an_engine_that_failed_keeps_nothing_and_says_why() {
    let mut worker: Session = Worker::new();
    let job = worker.start(builds, RunKind::Full).expect("start").expect("a job");
    let failed = worker.run_designed(job.id, &job.retention, Err("no load".to_string()));
    assert_eq!(failed.map(|_| ()), Err("no load".to_string()));
    assert!(worker.retained().is_none());
    match &worker.progress().expect("a run").status {
        RunStatus::Failed(why) => assert_eq!(why, "no load"),
        other => panic!("{other:?}"),
    }
}

#[test]
fn a_written_file_is_known_however_its_path_is_spelled() {
    let mut worker: Session = Worker::new();
    worker.record_write(parts("/tmp//parts/./a.stl"), Some(5_000));
    for own in [
        "/tmp/parts/a.stl",
        "//tmp/parts/a.stl",
        "/tmp/parts/a.stl/",
        "/./tmp/parts//a.stl",
    ] {
        assert!(worker.wrote_output(&parts(own), 5_000), "{own}");
    }
    for other in ["tmp/parts/a.stl", "/tmp/a.stl", "/tmp/parts/../parts/a.stl", ""] {
        assert!(!worker.wrote_output(&parts(other), 5_000), "{other}");
    }
}

#[test]
fn a_new_worker_has_room() {
    assert!(Session::new().has_room());
}

/// A thread ends once, however often it is said, and one that was never started
/// ends nothing.
#[test]
fn a_thread_that_ended_ends_no_other() {
    let mut worker: Session = Worker::new();
    worker.ended(7);
    assert!(!worker.probe().is_running());
    let first = worker.start(builds, RunKind::Full).expect("start").expect("a job");
    worker.stop();
    let second = worker.start(builds, RunKind::Full).expect("start").expect("a job");
    worker.ended(first.id);
    worker.ended(first.id);
    worker.ended(99);
    assert!(worker.is_running(), "the run that is going was ended by another's thread");
    assert!(worker.probe().is_running());
    worker.ended(second.id);
    worker.ended(second.id);
    assert!(!worker.is_running());
    assert!(!worker.probe().is_running());
}
