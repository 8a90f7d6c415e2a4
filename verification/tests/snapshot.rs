//! The hand-off slots and the link between a run and its window.

use growforge::scalar::Scalar;
use growforge::snapshot::{DensitySnapshot, LatestSlot, Polled, RunStatus, ViewLink};
use growforge::view_panel::StatsText;

type Link = ViewLink<StatsText, String, u32, usize>;

fn field(value: f64, cells: usize) -> Vec<Scalar> {
    vec![
        Scalar {
            bits: value.to_bits()
        };
        cells
    ]
}

fn stats(iteration: usize) -> StatsText {
    StatsText::Density {
        iteration,
        compliance: format!("{:.6e}", 1.0 / iteration as f64),
        volume: format!("{:.4}", 0.3),
        worst: None,
        change: format!("{:.5}", 0.05),
        elapsed: format!("{:.2}", iteration as f64),
    }
}

fn iteration_of(stats: &StatsText) -> usize {
    match stats {
        StatsText::Density { iteration, .. } => *iteration,
        StatsText::Growth { iteration, .. } => *iteration,
    }
}

#[test]
fn a_slow_consumer_sees_the_newest_value_and_nothing_older() {
    let mut slot: LatestSlot<usize> = LatestSlot::new();
    for value in 0..100 {
        assert!(slot.push(value));
    }
    assert_eq!(slot.dropped(), 99);
    assert_eq!(slot.try_take(), Some(99));
    assert_eq!(slot.try_take(), None);
    assert!(!slot.is_pending());
}

#[test]
fn the_slot_holds_at_most_one_value_however_much_is_pushed() {
    let mut slot: LatestSlot<Vec<u8>> = LatestSlot::new();
    let payload = 1024;
    for _ in 0..1000 {
        slot.push(vec![0u8; payload]);
    }
    // Memory is bounded by construction: exactly one payload survives.
    let held = slot.try_take().expect("one value");
    assert_eq!(held.len(), payload);
    assert!(!slot.is_pending());
    assert_eq!(slot.dropped(), 999);
}

#[test]
fn a_blocked_consumer_wakes_on_a_push_and_on_a_close() {
    let mut slot: LatestSlot<usize> = LatestSlot::default();
    // A consumer that finds nothing waits, and what wakes it is a push ...
    assert_eq!(slot.poll(), Polled::Empty);
    slot.push(7);
    assert_eq!(slot.take_blocking(), Some(7));
    // ... or a close.
    assert_eq!(slot.poll(), Polled::Empty);
    slot.close();
    assert_eq!(slot.take_blocking(), None);
    assert_eq!(slot.poll(), Polled::Closed);
}

#[test]
fn a_closed_slot_refuses_pushes_but_still_yields_its_pending_value() {
    let mut slot: LatestSlot<usize> = LatestSlot::new();
    slot.push(1);
    slot.close();
    assert!(!slot.push(2));
    assert!(slot.is_closed());
    assert_eq!(slot.try_take(), Some(1));
    assert_eq!(slot.take_blocking(), None);
}

#[test]
fn the_reporter_mirrors_progress_until_it_detaches() {
    let mut link: Link = ViewLink::new();
    for iteration in 1..=5 {
        link.report_iteration(stats(iteration));
        link.report_densities(iteration, field(0.5, 16));
    }
    link.report_note("converged".to_string());
    let progress = link.progress();
    assert_eq!(iteration_of(progress.latest.as_ref().expect("stats")), 5);
    assert_eq!(progress.note.as_deref(), Some("converged"));
    let snapshot = link.densities.try_take().expect("snapshot");
    assert_eq!(snapshot.iteration, 5);
    assert_eq!(snapshot.densities.len(), 16);

    link.detach();
    assert!(link.is_detached());
    link.report_iteration(stats(6));
    link.report_densities(6, field(1.0, 16));
    link.report_note("cap reached".to_string());
    // Detaching freezes the overlay state and stops the snapshot copies.
    let progress = link.progress();
    assert_eq!(iteration_of(progress.latest.as_ref().expect("stats")), 5);
    assert_eq!(progress.note.as_deref(), Some("converged"));
    assert!(link.densities.try_take().is_none());
}

#[test]
fn a_growth_progress_line_reaches_the_panel_unchanged() {
    let mut link: Link = ViewLink::new();
    link.report_iteration(StatsText::Growth {
        iteration: 3,
        phase: "branching".to_string(),
        segments: 42,
        attractors: 7,
        volume: "0.3000".to_string(),
        elapsed: "3.00".to_string(),
    });
    link.report_densities(3, field(0.25, 8));

    // The panel needs the growth block, and the mesher the field behind it,
    // through exactly the same channels the other engines use.
    assert!(matches!(
        link.progress().latest.as_ref().expect("stats"),
        StatsText::Growth {
            iteration: 3,
            segments: 42,
            attractors: 7,
            ..
        }
    ));
    assert_eq!(link.densities.try_take().expect("snapshot").iteration, 3);
}

#[test]
fn the_reporter_forwards_the_cancellation_question_and_detaching_is_not_one() {
    let mut link: Link = ViewLink::new();
    let mut asked = false;
    assert!(!link.cancelled(asked));

    // A closed window is not a stop: a run with a window finishes headless.
    link.detach();
    assert!(!link.cancelled(asked), "detaching must not stop a run");

    asked = true;
    assert!(link.cancelled(asked), "the question was swallowed");

    // And a reporter that never answers it still never does.
    let other: Link = ViewLink::new();
    assert!(!other.cancelled(false));
}

#[test]
fn the_stall_note_reaches_the_panel_intact() {
    let note = "stopped after 437 iterations: the design is not settling; \
                update = \"mma\" may"
        .to_string();
    let mut link: Link = ViewLink::new();
    link.report_note(note.clone());
    let shown = link
        .progress()
        .note
        .clone()
        .expect("the panel shows no note");
    assert_eq!(shown, note);
    assert!(shown.contains("stopped after 437 iterations"), "{shown}");
    assert!(shown.contains("update = \"mma\""), "{shown}");
}

#[test]
fn the_status_moves_through_the_run_stages() {
    let mut link: Link = ViewLink::new();
    assert!(matches!(link.progress().status, RunStatus::Optimizing));
    link.set_status(RunStatus::Exporting);
    assert!(matches!(link.progress().status, RunStatus::Exporting));
    link.set_status(RunStatus::Finished {
        triangles: 12,
        volume_mm3: Scalar {
            bits: 1.0f64.to_bits(),
        },
        stl_path: "out.stl".to_string(),
    });
    assert!(matches!(
        link.progress().status,
        RunStatus::Finished { triangles: 12, .. }
    ));
}

#[test]
fn a_fresh_status_is_optimizing() {
    assert!(matches!(RunStatus::default(), RunStatus::Optimizing));
}

#[test]
fn the_notes_of_the_passes_do_not_displace_each_other() {
    let mut link: Link = ViewLink::new();
    link.report_note("converged".to_string());
    link.set_trim_notes(vec!["removed 3 cells".to_string()]);
    link.set_flush_notes(vec!["filled 2 cells".to_string()]);
    link.set_reinforce_notes(vec!["thickened 1 wall".to_string()]);
    link.set_clamp_notes(vec!["moved 9 vertices".to_string()]);
    link.set_stress_summary(Some("safety factor 2".to_string()));
    let progress = link.progress();
    assert_eq!(progress.note.as_deref(), Some("converged"));
    assert_eq!(progress.trim, vec!["removed 3 cells".to_string()]);
    assert_eq!(progress.flush, vec!["filled 2 cells".to_string()]);
    assert_eq!(progress.reinforce, vec!["thickened 1 wall".to_string()]);
    assert_eq!(progress.clamp, vec!["moved 9 vertices".to_string()]);
    assert_eq!(progress.stress.as_deref(), Some("safety factor 2"));
}

#[test]
fn a_detached_link_is_closed_at_both_ends_and_drains_what_was_pending() {
    let mut link: Link = ViewLink::new();
    link.densities.push(DensitySnapshot {
        iteration: 1,
        densities: field(1.0, 4),
    });
    link.detach();
    assert!(link.densities.is_closed() && link.frames.is_closed());
    assert_eq!(link.densities.try_take().expect("pending").iteration, 1);
    assert!(link.densities.try_take().is_none());
}
