//! What the side panels say, and what is typed into their fields.

use growforge::config::{
    Config, MaterialConfig, OptimizationConfig, OutputConfig, ProjectConfig, ResolutionConfig,
};
use growforge::constants::{
    VIEW_EDIT_BLOCK_CONTROLS, VIEW_EDIT_BLOCK_OBJECTS, VIEW_EDIT_BLOCK_PROBLEM,
    VIEW_EDIT_BLOCK_PROPERTIES, VIEW_EDIT_BLOCK_STRESS, VIEW_EDIT_LOAD_CASE_LIST,
    VIEW_LAYER_SWITCHES_LABEL, VIEW_WINDOW_TITLE,
};
use growforge::editor::EditorState;
use growforge::fields::{
    cleaned, finite_number, kept_char, placed, snap_label, snap_written,
};
use growforge::objects::{NewObject, Selection, ShapeKind};
use growforge::panel::{
    callout_step, chosen_name, controls, floor_label, guard_decision, guard_modal,
    guard_save_label, panel_actions, pass_notes, problem_summary, property_rows, starts_with,
    stress_block, toolbar, validation, view_controls, Block, CalloutFrame, CalloutStep,
    CloseDecision, Line, PanelAction, PropertyRow, StressSummary, Tone,
};
use growforge::scalar::Scalar;
use growforge::scene::{layers, Aabb, Layer, LayerMesh, LayerRole, Scene, SwitchHome};
use growforge::session::window_title;
use growforge::snapshot::{FrameKind, RunStatus, ViewLink};
use growforge::view_panel::{
    layer_switches, run_block, status_label, worst_local_row, StatsText,
};
use growforge::worker::{RunKind, Worker};

type Link = ViewLink<StatsText, StressSummary, u32, usize>;

fn s(value: f64) -> Scalar {
    Scalar {
        bits: value.to_bits(),
    }
}

fn v(scalar: Scalar) -> f64 {
    f64::from_bits(scalar.bits)
}

fn said(lines: &[Line]) -> Vec<(Tone, &str)> {
    lines
        .iter()
        .map(|line| (line.tone, line.text.as_str()))
        .collect()
}

/// A typed number, with the parsing done.
fn typed(text: &str) -> Option<f64> {
    finite_number(text, |clean: &str| clean.parse::<f64>().ok().map(s)).map(v)
}

#[test]
fn a_numeric_field_refuses_a_number_that_is_not_one() {
    // What a parser accepts, it still accepts.
    assert_eq!(typed("12.5"), Some(12.5));
    assert_eq!(typed(" 1 000.5 "), Some(1000.5));
    assert_eq!(typed("\u{2212}3"), Some(-3.0), "a typographic minus");
    // What it accepts and the configuration cannot hold, it refuses, so the field
    // keeps the value it had.
    for text in ["nan", "NaN", "inf", "-inf", "infinity", "hello", ""] {
        assert_eq!(typed(text), None, "{text} was accepted");
    }
}

#[test]
fn white_space_is_ignored_wherever_it_is_typed() {
    assert_eq!(cleaned(" 1\t0\u{a0}0.5\n"), "100.5");
    assert_eq!(cleaned("\u{2212}\u{2212}1"), "--1");
    assert_eq!(cleaned("a b"), "ab");
    // The characters that are dropped are those with the White_Space property.
    let dropped: Vec<u32> = (0..=0x10ffff_u32)
        .filter_map(char::from_u32)
        .filter(|c| cleaned(&c.to_string()).is_empty())
        .map(u32::from)
        .collect();
    let mut blank: Vec<u32> = (0x9..=0xd).collect();
    blank.extend([0x20, 0x85, 0xa0, 0x1680]);
    blank.extend(0x2000..=0x200a);
    blank.extend([0x2028, 0x2029, 0x202f, 0x205f, 0x3000]);
    assert_eq!(dropped, blank);
    assert_eq!(kept_char('x', true), None);
    assert_eq!(kept_char('\u{2212}', false), Some('-'));
    assert_eq!(kept_char('7', false), Some('7'));
}

#[test]
fn the_callouts_draw_and_stay_off_the_side_panel() {
    let viewport = (900.0_f32, 600.0_f32);
    let (offset, reserve) = (12.0_f32, [120.0_f32, 40.0_f32]);
    let at = |x: f32, y: f32, viewport: (f32, f32)| -> (f64, f64) {
        (
            v(placed(
                s(f64::from(x + offset)),
                s(f64::from(viewport.0 - reserve[0])),
            )),
            v(placed(
                s(f64::from(y + offset)),
                s(f64::from(viewport.1 - reserve[1])),
            )),
        )
    };
    for (x, y) in [
        (0.0, 0.0),
        (450.0, 300.0),
        (2000.0, 2000.0),
        (-500.0, -500.0),
    ] {
        let placed = at(x, y, viewport);
        assert!(placed.0 >= 0.0 && placed.1 >= 0.0, "{placed:?}");
        assert!(placed.0 <= f64::from(viewport.0 - reserve[0]), "{placed:?}");
        assert!(placed.1 <= f64::from(viewport.1 - reserve[1]), "{placed:?}");
    }
    assert_eq!(at(450.0, 300.0, viewport), (462.0, 312.0));
    // A viewport narrower than the space a callout needs still gives a legal
    // position rather than a negative one.
    assert_eq!(at(10.0, 10.0, (10.0, 10.0)), (0.0, 0.0));

    // A frame with nobody typing must not commit or cancel anything.
    assert_eq!(
        callout_step(CalloutFrame {
            typing: true,
            clicked: false,
            lost_focus: false,
            enter: false
        }),
        CalloutStep::Keep
    );
    assert_eq!(floor_label("4 mm"), "floor 4 mm");
}

#[test]
fn a_callout_is_committed_by_enter_and_by_nothing_else() {
    let frame = |typing, clicked, lost_focus, enter| {
        callout_step(CalloutFrame {
            typing,
            clicked,
            lost_focus,
            enter,
        })
    };
    assert_eq!(frame(false, true, false, false), CalloutStep::BeginTyping);
    assert_eq!(frame(false, false, true, true), CalloutStep::Keep);
    assert_eq!(frame(true, false, true, true), CalloutStep::Commit);
    assert_eq!(frame(true, false, true, false), CalloutStep::Cancel);
    assert_eq!(frame(true, false, false, true), CalloutStep::Keep);
}

#[test]
fn the_panel_carries_the_snap_increment_and_the_containment_switch() {
    for choice in [0.1, 0.5, 1.0, 5.0] {
        assert_eq!(snap_label(s(choice), format!("{choice}")), format!("{choice}"));
    }
    assert_eq!(snap_label(s(0.0), "0".to_string()), "off");
    // Free entry: anything at all, including a number no dropdown offers.
    assert_eq!(snap_written(s(1.0), s(0.375)).map(v), Some(0.375));
    assert!(snap_written(s(1.0), s(1.0)).is_none());
    assert!(snap_written(s(0.0), s(-0.0)).is_none());
    assert_eq!(snap_written(s(1.0), s(-4.0)).map(v), Some(0.0));
    assert_eq!(snap_written(s(1.0), s(f64::NAN)).map(v), Some(0.0));
}

#[test]
fn the_control_legend_lists_the_file_shortcuts() {
    let legend = controls();
    assert_eq!(legend.len(), 15);
    for binding in ["Ctrl+S", "Ctrl+O", "Ctrl+N"] {
        assert!(
            legend.iter().any(|line| line.text.starts_with(binding)),
            "the legend does not list {binding}: {legend:?}"
        );
    }
    let view = view_controls();
    assert_eq!(said(&view)[0], (Tone::Strong, "controls"));
    assert_eq!(said(&view)[5], (Tone::Mono, "close window detaches"));
}

#[test]
fn the_panel_opens_on_the_blocks_a_session_works_in() {
    for (block, name, open) in [
        (Block::Objects, VIEW_EDIT_BLOCK_OBJECTS, true),
        (Block::Properties, VIEW_EDIT_BLOCK_PROPERTIES, true),
        (Block::Show, VIEW_LAYER_SWITCHES_LABEL, true),
        (Block::Stress, VIEW_EDIT_BLOCK_STRESS, true),
        (Block::Problem, VIEW_EDIT_BLOCK_PROBLEM, false),
        (Block::Controls, VIEW_EDIT_BLOCK_CONTROLS, false),
        // The five lists of the tree, all folded away.
        (Block::Domain, "domain", false),
        (Block::Keepout, "keepout", false),
        (Block::Keepin, "keepin", false),
        (Block::Supports, "supports", false),
        (Block::LoadCases, VIEW_EDIT_LOAD_CASE_LIST, false),
        // And the scalar sections.
        (Block::Engine, "engine", true),
        (Block::Resolution, "resolution", true),
        (Block::Material, "material", false),
        (Block::Optimization, "optimization", true),
        (Block::Output, "output", false),
        (Block::Growth, "growth", true),
    ] {
        assert_eq!(block.name(), name);
        assert_eq!(
            block.is_open_at_first(),
            open,
            "the {name:?} block opens {}",
            if open { "closed" } else { "open" }
        );
    }
}

#[test]
fn an_object_list_stays_open_when_its_count_changes() {
    // What a list is known by carries no count.
    for block in [Block::Keepout, Block::LoadCases] {
        assert!(!block.name().contains('('));
    }
}

fn config() -> Config {
    Config {
        project: ProjectConfig {
            name: "panel".to_string(),
            engine: None,
        },
        engine: None,
        solver: None,
        resolution: ResolutionConfig {
            voxel_size_mm: Some(s(4.0)),
            target_cells: None,
        },
        material: MaterialConfig {
            preset: Some("pla".to_string()),
            youngs_modulus_mpa: None,
            poisson_ratio: None,
            density_g_cm3: None,
            yield_strength_mpa: None,
        },
        optimization: OptimizationConfig {
            mass_fraction: s(0.3),
            min_feature_mm: s(16.0),
            penalty: None,
            max_iterations: None,
            convergence_tol: None,
            update: None,
            overhang: None,
            wireframe: None,
            local_volume: None,
        },
        growth: None,
        output: OutputConfig {
            stl_path: "panel.stl".to_string(),
            iso_level: None,
            smoothing_iterations: None,
            supersample: None,
            voids: None,
            islands: None,
            boundaries: None,
            trim: None,
            trim_stress_fraction: None,
            reinforce: None,
            reinforce_thickness_mm: None,
            stress_json: None,
        },
        domain: Vec::new(),
        keepout: Vec::new(),
        keepin: Vec::new(),
        supports: Vec::new(),
        loadcases: Vec::new(),
    }
}

#[test]
fn the_toolbar_draws_generate_stl_enabled_and_disabled() {
    let mut state = EditorState::open(config());
    let mut worker: Worker<u8, u32, StatsText, StressSummary, usize> = Worker::new();

    // Nothing has been run, so there is nothing on screen to export.
    assert!(!worker.can_generate());
    let fresh = toolbar(&state, true, &worker);
    assert!(!fresh.generate && !fresh.save && !fresh.undo && !fresh.redo && !fresh.stop);
    assert!(fresh.run_full);
    assert!(!toolbar(&state, false, &worker).run_full);

    // The preview an edit starts leaves its design behind, and the button lights
    // up on it - whether or not the configuration still builds.
    state.begin_edit(1);
    state.config_mut().optimization.mass_fraction = s(0.2);
    state.end_edit(1);
    let job = worker
        .start(|| Ok(1u8), RunKind::Preview)
        .expect("start")
        .expect("a job");
    worker.keep(job.id, &job.retention, vec![s(1.0)], None);
    let lit = toolbar(&state, false, &worker);
    assert!(lit.generate && lit.save && lit.undo && lit.stop);
    assert!(!lit.redo);

    // While a run writes, neither writer is offered.
    worker.generate().expect("a generation");
    let writing = toolbar(&state, true, &worker);
    assert!(!writing.generate && !writing.run_full && writing.stop);
}

#[test]
fn the_panel_draws_an_invalid_configuration_and_its_modal() {
    let lines = validation(
        Some("mass_fraction must be below 1".to_string()),
        &vec!["never shown".to_string()],
        None,
        None,
        None,
    );
    assert_eq!(
        said(&lines),
        vec![
            (Tone::StrongError, "configuration is not runnable"),
            (Tone::Small, "mass_fraction must be below 1"),
            (Tone::Mono, "no surface  yet"),
        ]
    );
    let lines = validation(
        None,
        &vec!["a load reaches nothing".to_string()],
        Some("full run: optimizing".to_string()),
        Some("exported mesh".to_string()),
        Some("converged".to_string()),
    );
    assert_eq!(
        said(&lines),
        vec![
            (Tone::Strong, "configuration is valid"),
            (Tone::Warning, "warning: a load reaches nothing"),
            (Tone::Mono, "full run: optimizing"),
            (Tone::Mono, "exported mesh"),
            (Tone::Small, "converged"),
        ]
    );
    // A frame with nobody clicking must not decide anything.
    assert_eq!(guard_decision(false, false, false), None);
}

#[test]
fn the_guard_modal_draws_for_every_intent_it_asks_about() {
    let closing = guard_modal("part.toml", None, false);
    assert_eq!(
        said(&closing),
        vec![
            (Tone::Heading, "unsaved changes"),
            (
                Tone::Plain,
                "part.toml has edits that have not been written."
            ),
        ]
    );
    let switching = guard_modal("part.toml", Some("elsewhere.toml".to_string()), true);
    assert_eq!(
        said(&switching)[2..],
        [
            (Tone::Small, "elsewhere.toml would be edited instead"),
            (
                Tone::Small,
                "the run in progress will be stopped, and will not write a file"
            ),
        ]
    );
    assert_eq!(guard_save_label("close"), "save and close");
    assert_eq!(
        guard_decision(true, false, false),
        Some(CloseDecision::Save)
    );
    assert_eq!(
        guard_decision(false, true, false),
        Some(CloseDecision::Discard)
    );
    assert_eq!(
        guard_decision(false, false, true),
        Some(CloseDecision::Cancel)
    );
}

#[test]
fn the_panel_shows_what_the_post_run_passes_did() {
    let mut link: Link = ViewLink::new();
    // Nothing has run, so there is nothing to say and nothing is said.
    assert!(pass_notes(link.progress()).is_empty());

    link.set_trim_notes(vec!["removed 31 cells".to_string()]);
    link.set_flush_notes(vec!["filled 4 cells out to the wall".to_string()]);
    link.set_reinforce_notes(vec!["warning: 2 walls stay thin".to_string()]);
    link.set_clamp_notes(vec!["moved 9 vertices".to_string()]);
    assert_eq!(
        said(&pass_notes(link.progress())),
        vec![
            (Tone::Small, "flush filled 4 cells out to the wall"),
            (Tone::Small, "trim removed 31 cells"),
            (Tone::Warning, "reinforce warning: 2 walls stay thin"),
            (Tone::Small, "boundaries moved 9 vertices"),
        ]
    );
}

#[test]
fn the_stress_block_draws_the_warning_an_export_in_pieces_carries() {
    let cases = vec!["tip peak 9.2700 MPa".to_string()];
    let whole = StressSummary {
        warning: None,
        headline: "safety factor 5.07 (peak 9.2700 MPa vs yield 47 MPa)".to_string(),
        cases: cases.clone(),
    };
    let pieces = StressSummary {
        warning: Some("warning: the export is 2 separate bodies".to_string()),
        headline: whole.headline.clone(),
        cases,
    };
    assert!(
        pieces
            .warning
            .as_ref()
            .is_some_and(|line| starts_with(line, "warning")),
        "the colouring rule reads the first word: {:?}",
        pieces.warning
    );
    let plain = stress_block(&whole);
    assert_eq!(
        said(&plain),
        vec![
            (
                Tone::Strong,
                "safety factor 5.07 (peak 9.2700 MPa vs yield 47 MPa)"
            ),
            (Tone::Mono, "tip peak 9.2700 MPa"),
        ]
    );
    // The warning is read before the factor, and the rest is what it was.
    let warned = stress_block(&pieces);
    assert_eq!(
        said(&warned)[0],
        (
            Tone::StrongWarning,
            "warning: the export is 2 separate bodies"
        )
    );
    assert_eq!(said(&warned)[1..], said(&plain));
}

#[test]
fn the_panel_draws_every_selection_and_every_section() {
    assert_eq!(
        property_rows(None, false, false),
        vec![PropertyRow::NothingSelected]
    );
    for (selection, row) in [
        (Selection::Domain(0), Some(PropertyRow::Operation)),
        (Selection::Keepout(1), None),
        (Selection::Keepin(0), None),
        (Selection::Support(0), Some(PropertyRow::Directions)),
        (Selection::LoadCase(0), Some(PropertyRow::LoadCase)),
        (
            Selection::Load { case: 0, load: 0 },
            Some(PropertyRow::Load),
        ),
    ] {
        let mut expected = vec![PropertyRow::Delete, PropertyRow::Name];
        expected.extend(row);
        assert_eq!(property_rows(Some(selection), false, false), expected);
        expected.push(PropertyRow::Shape);
        assert_eq!(property_rows(Some(selection), true, false), expected);
        // The fields of an object that is going are not drawn.
        assert_eq!(
            property_rows(Some(selection), true, true),
            vec![PropertyRow::Delete]
        );
    }
}

#[test]
fn a_frame_of_the_panel_asks_for_things_in_order() {
    let what = NewObject::Keepout(ShapeKind::Tube);
    assert_eq!(
        panel_actions(true, true, true, Some(what)),
        vec![
            PanelAction::NoteClamped,
            PanelAction::Edited,
            PanelAction::DeleteSelection,
            PanelAction::TogglePlacing(what),
        ]
    );
    assert!(panel_actions(false, false, false, None).is_empty());
    let current = "pla".to_string();
    assert_eq!(chosen_name(&current, Some("pla".to_string())), None);
    assert_eq!(
        chosen_name(&current, Some("petg".to_string())),
        Some("petg".to_string())
    );
    assert_eq!(chosen_name(&current, None), None);
}

#[test]
fn the_problem_summary_says_when_it_is_behind() {
    let summary = vec!["grid 16 x 8 x 8".to_string()];
    assert_eq!(
        said(&problem_summary(true, &summary)),
        vec![
            (Tone::Weak, "refreshing..."),
            (Tone::Mono, "grid 16 x 8 x 8")
        ]
    );
    assert_eq!(problem_summary(false, &summary).len(), 1);
}

#[test]
fn the_panel_says_which_build_it_is() {
    let title = window_title("test project");
    assert!(title.starts_with(VIEW_WINDOW_TITLE));
    assert_eq!(title, "growforge 0.1.0 - test project");
}

#[test]
fn the_run_panel_lists_every_layer_outside_the_editor_and_no_other() {
    let scene: Scene<u8> = Scene::default();
    let switches = layer_switches(&scene, false);
    assert_eq!(switches.heading, Some(VIEW_LAYER_SWITCHES_LABEL));
    for layer in layers() {
        let info = layer.info();
        let listed = switches.layers.contains(&layer);
        assert_eq!(
            listed,
            info.role != LayerRole::Editor,
            "the run panel {} the {} switch",
            if listed { "draws" } else { "does not draw" },
            info.label
        );
    }
}

#[test]
fn the_editors_panel_leaves_out_the_switch_another_block_draws() {
    let mut scene: Scene<u8> = Scene::default();
    scene.set(
        Layer::Density,
        Some(LayerMesh {
            vertices: vec![0; 3],
            bounds: Aabb::empty(),
        }),
    );
    let switches = layer_switches(&scene, true);
    assert_eq!(switches.heading, None);
    for layer in layers() {
        assert_eq!(
            switches.layers.contains(&layer),
            layer.info().switch == SwitchHome::Show
        );
    }
    // A switch can be ticked only where there is something behind it.
    for (layer, present) in switches.layers.iter().zip(&switches.present) {
        assert_eq!(*present, *layer == Layer::Density);
    }
    assert!(switches.flat && !switches.stress);
}

#[test]
fn the_run_block_follows_the_run() {
    let mut link: Link = ViewLink::new();
    let block = run_block(Some(link.progress()), None, None, "");
    assert_eq!(
        said(&block),
        vec![
            (Tone::Strong, "run"),
            (Tone::Mono, "optimizing"),
            (Tone::Mono, "waiting for the first iteration"),
            (Tone::Mono, "no surface  yet"),
        ]
    );
    let solid = run_block(Some(link.progress()), Some("solid".to_string()), None, "");
    assert_eq!(said(&solid)[2], (Tone::Mono, "no iterations"));
    assert_eq!(said(&solid)[3].0, Tone::SmallWeak);
    assert_eq!(worst_local_row(Some(link.progress())), None);

    link.report_iteration(StatsText::Density {
        iteration: 7,
        compliance: "1.250000e2".to_string(),
        volume: "0.3000".to_string(),
        worst: Some("0.6100".to_string()),
        change: "0.05000".to_string(),
        elapsed: "7.00".to_string(),
    });
    link.report_note("converged".to_string());
    link.set_status(RunStatus::Finished {
        triangles: 1200,
        volume_mm3: s(4000.0),
        stl_path: "out.stl".to_string(),
    });
    let block = run_block(
        Some(link.progress()),
        Some("simp".to_string()),
        Some(FrameKind::Final),
        "4000.0",
    );
    assert_eq!(
        said(&block),
        vec![
            (Tone::Strong, "run"),
            (Tone::Mono, "finished, wrote out.stl"),
            (Tone::Mono, "iteration   7"),
            (Tone::Mono, "compliance  1.250000e2"),
            (Tone::Mono, "volume frac 0.3000"),
            (Tone::Mono, "worst local 0.6100"),
            (Tone::Mono, "max change  0.05000"),
            (Tone::Mono, "elapsed     7.00 s"),
            (Tone::Mono, "showing     exported mesh"),
            (Tone::Mono, "triangles   1200"),
            (Tone::Mono, "volume      4000.0 mm3"),
            (Tone::Small, "converged"),
        ]
    );
    assert_eq!(worst_local_row(Some(link.progress())), Some(5));
    link.report_iteration(StatsText::Growth {
        iteration: 3,
        phase: "branching".to_string(),
        segments: 42,
        attractors: 7,
        volume: "0.3000".to_string(),
        elapsed: "3.00".to_string(),
    });
    let block = run_block(
        Some(link.progress()),
        None,
        Some(FrameKind::Preview { iteration: 3 }),
        "",
    );
    assert_eq!(
        said(&block)[2..9],
        [
            (Tone::Mono, "step        3"),
            (Tone::Mono, "phase       branching"),
            (Tone::Mono, "segments    42"),
            (Tone::Mono, "attractors  7"),
            (Tone::Mono, "volume frac 0.3000"),
            (Tone::Mono, "elapsed     3.00 s"),
            (Tone::Mono, "preview of  iteration 3"),
        ]
    );
    let nothing = run_block::<StressSummary, u32>(None, None, None, "");
    assert_eq!(said(&nothing)[0], (Tone::Strong, "problem setup"));
}

#[test]
fn every_stage_of_a_run_has_a_name() {
    assert_eq!(status_label(&RunStatus::Optimizing), "optimizing");
    assert_eq!(status_label(&RunStatus::Analysing), "voids and stress");
    assert_eq!(status_label(&RunStatus::Exporting), "exporting mesh");
    assert_eq!(
        status_label(&RunStatus::Failed("no load".to_string())),
        "failed: no load"
    );
}
