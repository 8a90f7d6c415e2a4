//! A run behind a window, and what is told of it.

use growforge::constants::VIEW_PREVIEW_MIN_INTERVAL_NS;
use growforge::scalar::Scalar;
use growforge::scene::Scene;
use growforge::session::{
    close_link, fail_on_panic, finish, newest_snapshot, optimized, preview_meshed, preview_pause,
    run_outcome, setup_built, setup_probed, stress_layer, viewer_stopped, window_title, Completed, SetupStep, PANICKED,
};
use growforge::snapshot::{DensitySnapshot, FrameKind, Polled, RunStatus, ViewLink};

type Link = ViewLink<usize, String, u32, usize>;

fn s(value: f64) -> Scalar {
    Scalar {
        bits: value.to_bits(),
    }
}

fn v(scalar: Scalar) -> f64 {
    f64::from_bits(scalar.bits)
}

fn snapshot(iteration: usize) -> DensitySnapshot {
    DensitySnapshot {
        iteration,
        densities: vec![s(1.0); 4],
    }
}

fn part(triangles: usize) -> Completed<String, u32, usize> {
    Completed {
        mesh: triangles,
        stress: Some(triangles),
        trim: None,
        flush: None,
        reinforce: None,
        clamp: None,
        summary: None,
        reduce: None,
        triangles,
        volume_mm3: s(10.0),
        stl_path: "out.stl".to_string(),
    }
}

#[test]
fn the_preview_loop_meshes_the_newest_snapshot_and_drops_the_rest() {
    let mut link: Link = ViewLink::new();
    let flooded = 50;
    // The mesher takes one, and is flooded while it works on it.
    link.densities.push(snapshot(1));
    let mut held = match link.densities.poll() {
        Polled::Value(taken) => taken,
        other => panic!("{other:?}"),
    };
    for iteration in 2..=flooded {
        link.densities.push(snapshot(iteration));
    }
    assert!(preview_meshed(&mut link, held.iteration, Some(10)));
    // It has to wait before the next, and takes the newest once it has.
    assert_eq!(
        preview_pause(Some(0)),
        Some(VIEW_PREVIEW_MIN_INTERVAL_NS)
    );
    held = newest_snapshot(&mut link, held);
    link.densities.close();
    assert!(preview_meshed(&mut link, held.iteration, Some(20)));
    assert!(matches!(link.densities.poll(), Polled::Closed));

    assert!(
        link.densities.dropped() > 0,
        "nothing was dropped, so the slot did not replace"
    );
    assert!(!link.densities.is_pending());
    // The surface the window ends up with is the newest design ever pushed.
    let frame = link.frames.try_take().expect("a preview frame");
    assert_eq!(frame.kind, FrameKind::Preview { iteration: flooded });
    assert!(frame.mesh > 0);
    assert!(!link.frames.is_pending());
}

#[test]
fn a_mesher_that_is_not_flooded_meshes_what_it_holds_at_once() {
    let mut link: Link = ViewLink::new();
    assert_eq!(preview_pause(None), None);
    assert_eq!(preview_pause(Some(VIEW_PREVIEW_MIN_INTERVAL_NS)), None);
    assert_eq!(
        preview_pause(Some(VIEW_PREVIEW_MIN_INTERVAL_NS - 1)),
        Some(1)
    );
    assert_eq!(newest_snapshot(&mut link, snapshot(3)).iteration, 3);
    // A surface that could not be extracted is skipped, and the mesher goes on.
    assert!(preview_meshed(&mut link, 3, None));
    assert!(!link.frames.is_pending());
}

#[test]
fn the_window_title_names_the_build_and_the_project() {
    assert_eq!(window_title("preview"), "growforge 0.1.0 - preview");
}

#[test]
fn a_panicking_worker_tells_the_window_before_the_panic_propagates() {
    let mut link: Link = ViewLink::new();
    fail_on_panic(&mut link, true);
    assert!(
        matches!(&link.progress().status, RunStatus::Failed(why) if why == PANICKED),
        "an unwinding worker must not leave the window on stale stats"
    );
}

#[test]
fn a_worker_that_returns_normally_is_never_marked_failed() {
    let mut link: Link = ViewLink::new();
    fail_on_panic(&mut link, false);
    assert!(matches!(link.progress().status, RunStatus::Optimizing));
    link.set_status(RunStatus::Exporting);
    fail_on_panic(&mut link, false);
    assert!(matches!(link.progress().status, RunStatus::Exporting));
}

#[test]
fn the_preview_loop_stops_when_the_window_detaches() {
    let mut link: Link = ViewLink::new();
    link.densities.push(snapshot(1));
    link.detach();
    let held = link.densities.try_take().expect("the pending one");
    assert!(
        !preview_meshed(&mut link, held.iteration, Some(10)),
        "the mesher goes on for nobody"
    );
    assert!(link.is_detached());
    assert!(link.densities.is_closed() && link.frames.is_closed());
}

#[test]
fn the_final_frame_is_the_surface_that_was_written() {
    let mut link: Link = ViewLink::new();
    preview_meshed(&mut link, 5, Some(7));
    assert_eq!(finish(&mut link, Ok(Some(part(240)))), Ok(true));
    let frame = link.frames.try_take().expect("a final frame");
    assert_eq!(frame.kind, FrameKind::Final);
    assert_eq!(frame.mesh, 240);
    assert_eq!(frame.stress, Some(240));
    assert!(matches!(
        &link.progress().status,
        RunStatus::Finished { triangles: 240, stl_path, .. } if stl_path == "out.stl"
    ));
}

#[test]
fn a_stopped_run_publishes_nothing_and_a_failed_one_its_error() {
    let mut link: Link = ViewLink::new();
    link.set_status(RunStatus::Analysing);
    assert_eq!(finish(&mut link, Ok(None)), Ok(false));
    assert!(matches!(link.progress().status, RunStatus::Analysing));
    assert!(!link.frames.is_pending());
    assert_eq!(
        finish(&mut link, Err("no surface".to_string())),
        Err("no surface".to_string())
    );
    assert!(matches!(&link.progress().status, RunStatus::Failed(why) if why == "no surface"));
    assert!(!link.frames.is_pending());

    let mut other: Link = ViewLink::new();
    assert_eq!(optimized::<u8, _, _, _, _>(&mut other, Ok(4)), Ok(4));
    assert!(matches!(other.progress().status, RunStatus::Optimizing));
    assert!(optimized::<u8, _, _, _, _>(&mut other, Err("diverged".to_string())).is_err());
    assert!(matches!(&other.progress().status, RunStatus::Failed(why) if why == "diverged"));
}

#[test]
fn a_trim_reports_itself_to_the_window_and_to_the_outcome_alike() {
    let notes = vec!["removed 31 cells".to_string()];
    let mut link: Link = ViewLink::new();
    link.report_note("converged".to_string());
    let mut trimmed = part(12);
    trimmed.trim = Some(notes.clone());
    finish(&mut link, Ok(Some(trimmed))).expect("published");
    assert_eq!(
        link.progress().trim,
        notes,
        "the panel and the console were told different things"
    );
    // Why a run ended and what the trim did are two lines, not one displacing the
    // other.
    assert_eq!(link.progress().note.as_deref(), Some("converged"));
}

#[test]
fn a_run_that_was_not_asked_to_trim_says_nothing_about_it() {
    let mut link: Link = ViewLink::new();
    link.set_trim_notes(vec!["left over".to_string()]);
    let mut clamped = part(12);
    clamped.clamp = Some(vec!["moved 9 vertices".to_string()]);
    finish(&mut link, Ok(Some(clamped))).expect("published");
    assert!(link.progress().trim.is_empty());
    // The clamp is a separate line, so silence about the trim may not be silence
    // about it.
    assert!(!link.progress().clamp.is_empty());
}

#[test]
fn the_boundary_clamp_reports_itself_to_the_window_and_to_the_outcome_alike() {
    let notes = vec!["moved 9 vertices".to_string()];
    let mut link: Link = ViewLink::new();
    let mut clamped = part(12);
    clamped.clamp = Some(notes.clone());
    finish(&mut link, Ok(Some(clamped))).expect("published");
    assert_eq!(link.progress().clamp, notes);

    let mut link: Link = ViewLink::new();
    finish(&mut link, Ok(Some(part(12)))).expect("published");
    assert!(link.progress().clamp.is_empty());
}

#[test]
fn a_scope_that_is_over_closes_what_it_fed() {
    let mut link: Link = ViewLink::new();
    close_link(&mut link, false);
    assert!(link.densities.is_closed() && !link.frames.is_closed());
    assert!(!link.is_detached());
    close_link(&mut link, true);
    assert!(link.frames.is_closed() && link.is_detached());
}

#[test]
fn the_caller_of_a_run_is_told_how_its_thread_came_back() {
    assert_eq!(run_outcome(Some(Ok(Some(3)))), Ok(3));
    assert_eq!(
        run_outcome::<u8>(Some(Ok(None))),
        Err("the run was stopped before it could export".to_string())
    );
    assert_eq!(
        run_outcome::<u8>(Some(Err("no load".to_string()))),
        Err("no load".to_string())
    );
    assert_eq!(
        run_outcome::<u8>(None),
        Err("the optimization thread panicked".to_string())
    );
    assert_eq!(
        viewer_stopped("no adapter"),
        "warning: the viewer stopped (no adapter); the run continues headless"
    );
}

#[test]
fn a_setup_is_shown_or_the_first_step_that_failed_is_the_answer() {
    // Nothing is built before an adapter was found, and nothing for want of one.
    assert!(matches!(setup_probed::<u8>(Ok(())), SetupStep::Build));
    match setup_probed::<u8>(Err("no adapter".to_string())) {
        SetupStep::Over { outcome } => assert_eq!(outcome, Err("no adapter".to_string())),
        _ => panic!("went on without an adapter"),
    }
    // A scene is shown under the project's title, and a window opens on nothing else.
    let mut scene = Scene::<u8>::new();
    *scene.flat_shading_mut() = true;
    match setup_built("bracket", Ok(scene)) {
        SetupStep::Show { title, scene } => {
            assert_eq!(title, "growforge 0.1.0 - bracket");
            assert!(scene.flat_shading());
        }
        _ => panic!("the scene was not shown"),
    }
    match setup_built::<u8>("bracket", Err("no surface".to_string())) {
        SetupStep::Over { outcome } => assert_eq!(outcome, Err("no surface".to_string())),
        _ => panic!("went on without a scene"),
    }
}

#[test]
fn the_surface_is_coloured_by_the_case_with_the_highest_peak() {
    let peaks = vec![s(3.0), s(9.0), s(1.0), s(9.0), s(-2.0)];
    let pick = stress_layer(&peaks, Some(s(47.0))).expect("a case");
    assert_eq!(pick.case, 3, "the last of equal peaks");
    assert_eq!(v(pick.reference), 47.0);
    let pick = stress_layer(&peaks, None).expect("a case");
    assert_eq!(v(pick.reference), 9.0);
    assert!(stress_layer(&Vec::new(), Some(s(47.0))).is_none());
}
