//! What the panels show and offer, stated line by line and button by button.

use vstd::prelude::*;

use crate::editor::StateView;
use crate::objects::{NewObject, Selection};
use crate::panel::{
    begins_with, block_name, callout_step_of, each, guard_shown, legend, notes_shown,
    panel_actions_of, property_rows_of, shown, starts_open, stress_shown, summary_shown, toolbar_of,
    validation_of, view_legend, Block, CalloutFrame, CalloutStep, Line, PanelAction, PropertyRow,
    StressSummary, Tone, WARNING_WORD,
};
use crate::sameness::same_config;
use crate::scene::{
    help_of, label_of, Layer, HELP_DENSITY, HELP_DOMAIN, HELP_GIZMO, HELP_GRID, HELP_HOVER,
    HELP_KEEPIN, HELP_KEEPOUT, HELP_LOADS, HELP_MEASURE, HELP_PLACEMENT, HELP_SELECTION,
    HELP_SUPPORTS,
};
use crate::snapshot::{FrameKind, Progress, RunStatus};
use crate::text::decimal_of;
use crate::view_panel::{
    frame_shown, listed, run_shown, setup_shown, stats_shown, status_of, waiting_shown,
    worst_local_at, StatsText,
};
use crate::worker::{RunKind, WorkerView};

verus! {

/// What is shown of some lines is the lines, one for one, each in its own tone.
pub proof fn law_lines_are_shown_one_for_one(
    lines: Seq<Line>,
    tone: Tone,
    head: Seq<char>,
    entries: Seq<String>,
    k: int,
)
    ensures
        shown(lines).len() == lines.len(),
        0 <= k < lines.len() ==> shown(lines)[k].0 == lines[k].tone && shown(lines)[k].1
            == lines[k].text@,
        each(tone, head, entries).len() == entries.len(),
        0 <= k < entries.len() ==> each(tone, head, entries)[k].0 == tone && each(
            tone,
            head,
            entries,
        )[k].1 == head + entries[k]@,
{
}

/// The toolbar offers what can be done: saving what is not as it was saved, a step back or
/// forward where there is one, a run of what is valid while nothing writes, stopping while
/// something runs, and a file from a design while nothing writes.
pub proof fn law_the_toolbar_offers_what_can_be_done<P, Q>(
    state: StateView,
    valid: bool,
    worker: WorkerView<P, Q>,
)
    ensures
        ({
            let toolbar = toolbar_of(state, valid, worker);
            let runs = worker.current is Some && !worker.current->0.done;
            let writes = runs && worker.current->0.kind != RunKind::Preview;
            &&& toolbar.save <==> !same_config(state.config, state.saved)
            &&& toolbar.undo <==> state.undo.len() > 0
            &&& toolbar.redo <==> state.redo.len() > 0
            &&& toolbar.run_full <==> valid && !writes
            &&& toolbar.stop <==> runs
            &&& toolbar.generate <==> worker.retained is Some && !writes
        }),
{
}

/// The validation block says first whether the configuration can be run, then why not or
/// what to look out for, then what runs, what is shown and what there is to note, each
/// where there is any.
pub proof fn law_the_validation_block_goes_in_order(
    error: Option<Seq<char>>,
    warnings: Seq<String>,
    run: Option<Seq<char>>,
    frame: Option<Seq<char>>,
    note: Option<Seq<char>>,
    k: int,
)
    ensures
        ({
            let lines = validation_of(error, warnings, run, frame, note);
            let head = if error is Some {
                2
            } else {
                1 + warnings.len()
            };
            let at = head + if run is Some {
                1int
            } else {
                0
            };
            &&& lines.len() == at + 1 + if note is Some {
                1int
            } else {
                0
            }
            &&& error is Some ==> lines[0] == (
                Tone::StrongError,
                "configuration is not runnable"@,
            ) && lines[1] == (Tone::Small, error->0)
            &&& error is None ==> lines[0] == (Tone::Strong, "configuration is valid"@)
            &&& error is None && 0 <= k < warnings.len() ==> lines[1 + k] == (
                Tone::Warning,
                "warning: "@ + warnings[k]@,
            )
            &&& run is Some ==> lines[head as int] == (Tone::Mono, run->0)
            &&& frame is Some ==> lines[at as int] == (Tone::Mono, frame->0)
            &&& frame is None ==> lines[at as int] == (Tone::Mono, "no surface  yet"@)
            &&& note is Some ==> lines[at + 1] == (Tone::Small, note->0)
        }),
{
}

/// A text begins with a head exactly where its first characters are the head's.
pub proof fn law_a_text_begins_with_its_head(
    text: Seq<char>,
    head: Seq<char>,
    rest: Seq<char>,
    k: int,
)
    ensures
        begins_with(head + rest, head),
        begins_with(text, seq![]),
        text.len() < head.len() ==> !begins_with(text, head),
        0 <= k < head.len() && k < text.len() && text[k] != head[k] ==> !begins_with(text, head),
        begins_with(text, head) ==> exists|tail: Seq<char>| text == #[trigger] (head + tail),
{
    assert((head + rest).take(head.len() as int) =~= head);
    assert(text.take(0) =~= Seq::<char>::empty());
    if begins_with(text, head) {
        assert(text =~= head + text.skip(head.len() as int));
        if 0 <= k < head.len() {
            assert(text.take(head.len() as int)[k] == text[k]);
        }
    }
}

/// Every note of a pass is shown behind the name of the pass, as a warning exactly where it
/// begins as one.
pub proof fn law_a_note_that_warns_is_shown_as_a_warning(
    pass: Seq<char>,
    notes: Seq<String>,
    k: int,
    rest: Seq<char>,
)
    requires
        0 <= k < notes.len(),
    ensures
        notes_shown(pass, notes).len() == notes.len(),
        notes_shown(pass, notes)[k].1 == pass + notes[k]@,
        notes[k]@ == WARNING_WORD@ + rest ==> notes_shown(pass, notes)[k].0 == Tone::Warning,
        (forall|tail: Seq<char>| notes[k]@ != #[trigger] (WARNING_WORD@ + tail)) ==> notes_shown(
            pass,
            notes,
        )[k].0 == Tone::Small,
{
    law_a_text_begins_with_its_head(notes[k]@, WARNING_WORD@, rest, 0);
}

/// The stress block warns first where there is anything to warn of, then has its headline,
/// then a line for every case.
pub proof fn law_the_stress_block_warns_first(summary: StressSummary, k: int)
    ensures
        ({
            let lines = stress_shown(summary);
            let at = if summary.warning is Some {
                1int
            } else {
                0
            };
            &&& lines.len() == at + 1 + summary.cases@.len()
            &&& summary.warning is Some ==> lines[0] == (
                Tone::StrongWarning,
                summary.warning->0@,
            )
            &&& lines[at] == (Tone::Strong, summary.headline@)
            &&& 0 <= k < summary.cases@.len() ==> lines[at + 1 + k] == (
                Tone::Mono,
                summary.cases@[k]@,
            )
        }),
{
    if 0 <= k < summary.cases@.len() {
        assert(Seq::<char>::empty() + summary.cases@[k]@ =~= summary.cases@[k]@);
    }
}

/// A summary that is being made anew says so first; its lines are shown either way.
pub proof fn law_a_stale_summary_says_so(stale: bool, summary: Seq<String>, k: int)
    ensures
        ({
            let lines = summary_shown(stale, summary);
            let at = if stale {
                1int
            } else {
                0
            };
            &&& lines.len() == at + summary.len()
            &&& stale ==> lines[0] == (Tone::Weak, "refreshing..."@)
            &&& 0 <= k < summary.len() ==> lines[at + k] == (Tone::Mono, summary[k]@)
        }),
{
    if 0 <= k < summary.len() {
        assert(Seq::<char>::empty() + summary[k]@ =~= summary[k]@);
    }
}

/// The two legends name every gesture and key there is, one to a line.
pub proof fn law_the_legends_name_every_key()
    ensures
        legend().len() == 15,
        forall|k: int| 0 <= k < 15 ==> (#[trigger] legend()[k]).0 == Tone::Mono,
        legend()[0].1 == "left click    select"@,
        legend()[1].1 == "left drag     orbit"@,
        legend()[2].1 == "drag handle   move or resize (snapped)"@,
        legend()[3].1 == "drag arc      rotate about that axis"@,
        legend()[4].1 == "Alt + drag    free drag, no snapping"@,
        legend()[5].1 == "click number  type an exact value"@,
        legend()[6].1 == "Esc           cancel the number being typed"@,
        legend()[7].1 == "right drag    pan"@,
        legend()[8].1 == "scroll        zoom"@,
        legend()[9].1 == "F             fit view"@,
        legend()[10].1 == "Delete        delete selection"@,
        legend()[11].1 == "Ctrl+Z / +Y   undo / redo"@,
        legend()[12].1 == "Ctrl+S        save"@,
        legend()[13].1 == "Ctrl+O        open another configuration"@,
        legend()[14].1 == "Ctrl+N        new configuration"@,
        view_legend().len() == 6,
        view_legend()[0] == (Tone::Strong, "controls"@),
        forall|k: int| 1 <= k < 6 ==> (#[trigger] view_legend()[k]).0 == Tone::Mono,
        view_legend()[1].1 == "left drag    orbit"@,
        view_legend()[2].1 == "right drag   pan"@,
        view_legend()[3].1 == "scroll       zoom"@,
        view_legend()[4].1 == "F            fit view"@,
        view_legend()[5].1 == "close window detaches"@,
{
}

/// A block is headed by what it is about.
pub proof fn law_a_block_is_headed_by_what_it_is_about()
    ensures
        block_name(Block::Objects) == "objects"@,
        block_name(Block::Properties) == "properties"@,
        block_name(Block::Show) == "show"@,
        block_name(Block::Stress) == "stress"@,
        block_name(Block::Problem) == "problem"@,
        block_name(Block::Controls) == "controls"@,
        block_name(Block::Domain) == "domain"@,
        block_name(Block::Keepout) == "keepout"@,
        block_name(Block::Keepin) == "keepin"@,
        block_name(Block::Supports) == "supports"@,
        block_name(Block::LoadCases) == "load cases"@,
        block_name(Block::Engine) == "engine"@,
        block_name(Block::Resolution) == "resolution"@,
        block_name(Block::Material) == "material"@,
        block_name(Block::Optimization) == "optimization"@,
        block_name(Block::Growth) == "growth"@,
        block_name(Block::Output) == "output"@,
{
}

/// What is worked with most is open at first: the objects and what is selected of them, the
/// switches, the stress, and the sections a run is tuned by. The lists, the problem, the
/// controls, the material and the output are folded.
pub proof fn law_the_blocks_worked_with_most_start_open(block: Block)
    ensures
        !starts_open(block) <==> block == Block::Problem || block == Block::Controls || block
            == Block::Domain || block == Block::Keepout || block == Block::Keepin || block
            == Block::Supports || block == Block::LoadCases || block == Block::Material || block
            == Block::Output,
{
}

/// A layer is listed and explained under its own name.
pub proof fn law_a_layer_is_explained_under_its_own_name()
    ensures
        label_of(Layer::Density) == "density surface"@ && help_of(Layer::Density) == HELP_DENSITY@,
        label_of(Layer::Supports) == "supports"@ && help_of(Layer::Supports) == HELP_SUPPORTS@,
        label_of(Layer::Loads) == "loads"@ && help_of(Layer::Loads) == HELP_LOADS@,
        label_of(Layer::Gizmo) == "gizmo"@ && help_of(Layer::Gizmo) == HELP_GIZMO@,
        label_of(Layer::Measure) == "dimensions"@ && help_of(Layer::Measure) == HELP_MEASURE@,
        label_of(Layer::Grid) == "floor grid"@ && help_of(Layer::Grid) == HELP_GRID@,
        label_of(Layer::Domain) == "domain (voxelized)"@ && help_of(Layer::Domain) == HELP_DOMAIN@,
        label_of(Layer::Keepout) == "keepout"@ && help_of(Layer::Keepout) == HELP_KEEPOUT@,
        label_of(Layer::Keepin) == "keepin"@ && help_of(Layer::Keepin) == HELP_KEEPIN@,
        label_of(Layer::Selection) == "selection"@ && help_of(Layer::Selection) == HELP_SELECTION@,
        label_of(Layer::Hover) == "hover highlight"@ && help_of(Layer::Hover) == HELP_HOVER@,
        label_of(Layer::Placement) == "placement preview"@ && help_of(Layer::Placement)
            == HELP_PLACEMENT@,
{
}

/// The property rows are those of what is selected: it can always be deleted, and is
/// otherwise named, has the rows of its own kind and those of its shape where it has one.
/// On the way out there is nothing left to edit.
pub proof fn law_the_property_rows_are_those_of_what_is_selected(
    selection: Option<Selection>,
    shaped: bool,
    deleting: bool,
)
    ensures
        ({
            let rows = property_rows_of(selection, shaped, deleting);
            let here = selection is Some && !deleting;
            &&& rows.contains(PropertyRow::NothingSelected) <==> selection is None
            &&& rows.contains(PropertyRow::Delete) <==> selection is Some
            &&& rows.contains(PropertyRow::Name) <==> here
            &&& rows.contains(PropertyRow::Operation) <==> here && selection->0 is Domain
            &&& rows.contains(PropertyRow::Directions) <==> here && selection->0 is Support
            &&& rows.contains(PropertyRow::LoadCase) <==> here && selection->0 is LoadCase
            &&& rows.contains(PropertyRow::Load) <==> here && selection->0 is Load
            &&& rows.contains(PropertyRow::Shape) <==> here && shaped
            &&& selection is Some ==> rows[0] == PropertyRow::Delete
            &&& here ==> rows[1] == PropertyRow::Name
            &&& here && shaped ==> rows[rows.len() - 1] == PropertyRow::Shape
            &&& rows.no_duplicates()
        }),
{
    let rows = property_rows_of(selection, shaped, deleting);
    assert(rows.len() > 0 && rows.contains(rows[0]));
    if rows.len() > 1 {
        assert(rows.contains(rows[1]));
    }
    if rows.len() > 2 {
        assert(rows.contains(rows[2]));
    }
    if rows.len() > 3 {
        assert(rows.contains(rows[3]));
    }
}

/// What a panel asks for once it has been drawn: a note where something was held back, the
/// edit where anything was touched, the deletion and the placement that were clicked, in
/// that order.
pub proof fn law_a_panel_asks_for_what_was_done_in_it(
    clamped: bool,
    touched: bool,
    deleting: bool,
    placing: Option<NewObject>,
)
    ensures
        ({
            let actions = panel_actions_of(clamped, touched, deleting, placing);
            let e = if clamped {
                1int
            } else {
                0
            };
            let d = e + if touched {
                1int
            } else {
                0
            };
            let p = d + if deleting {
                1int
            } else {
                0
            };
            &&& actions.len() == p + if placing is Some {
                1int
            } else {
                0
            }
            &&& clamped ==> actions[0] == PanelAction::NoteClamped
            &&& touched ==> actions[e] == PanelAction::Edited
            &&& deleting ==> actions[d] == PanelAction::DeleteSelection
            &&& placing is Some ==> actions[p] == PanelAction::TogglePlacing(placing->0)
        }),
{
}

/// A number over the scene is typed into once it is clicked, taken where typing ends with
/// the enter key, and dropped where it ends any other way.
pub proof fn law_a_typed_number_is_taken_with_enter(frame: CalloutFrame)
    ensures
        callout_step_of(frame) == CalloutStep::BeginTyping <==> !frame.typing && frame.clicked,
        callout_step_of(frame) == CalloutStep::Commit <==> frame.typing && frame.lost_focus
            && frame.enter,
        callout_step_of(frame) == CalloutStep::Cancel <==> frame.typing && frame.lost_focus
            && !frame.enter,
        callout_step_of(frame) == CalloutStep::Keep <==> (frame.typing && !frame.lost_focus) || (
        !frame.typing && !frame.clicked),
{
}

/// Leaving unsaved edits is asked about: which file has them, what would be edited instead
/// where that is known, and that a run would be stopped where one is going.
pub proof fn law_leaving_unsaved_edits_is_asked_about(
    path: Seq<char>,
    destination: Option<Seq<char>>,
    is_running: bool,
)
    ensures
        ({
            let lines = guard_shown(path, destination, is_running);
            let at = 2 + if destination is Some {
                1int
            } else {
                0
            };
            &&& lines.len() == at + if is_running {
                1int
            } else {
                0
            }
            &&& lines[0] == (Tone::Heading, "unsaved changes"@)
            &&& lines[1] == (Tone::Plain, path + " has edits that have not been written."@)
            &&& destination is Some ==> lines[2] == (
                Tone::Small,
                destination->0 + " would be edited instead"@,
            )
            &&& is_running ==> lines[at] == (
                Tone::Small,
                "the run in progress will be stopped, and will not write a file"@,
            )
        }),
{
}

/// The viewer lists the part and the setup, the editor its own layers too, all but the grid,
/// which has its switch elsewhere.
pub proof fn law_the_editor_lists_more_than_the_viewer(layer: Layer)
    ensures
        listed(true)(layer) <==> layer != Layer::Grid,
        listed(false)(layer) <==> layer == Layer::Density || layer == Layer::Domain || layer
            == Layer::Keepout || layer == Layer::Keepin || layer == Layer::Supports || layer
            == Layer::Loads,
{
}

/// A run says what it is doing, where it wrote what it made, and why it failed.
pub proof fn law_a_status_says_what_the_run_is_doing(status: RunStatus)
    ensures
        status is Optimizing ==> status_of(status) == "optimizing"@,
        status is Analysing ==> status_of(status) == "voids and stress"@,
        status is Exporting ==> status_of(status) == "exporting mesh"@,
        status is Finished ==> status_of(status) == "finished, wrote "@ + status->stl_path@,
        status is Failed ==> status_of(status) == "failed: "@ + status->Failed_0@,
{
}

/// The numbers of a run stand one to a line behind their names, the worst neighbourhood
/// among them where there is one.
pub proof fn law_the_numbers_of_a_run_stand_one_to_a_line(stats: StatsText)
    ensures
        ({
            let lines = stats_shown(stats);
            &&& forall|k: int| 0 <= k < lines.len() ==> (#[trigger] lines[k]).0 == Tone::Mono
            &&& stats is Growth ==> {
                &&& lines.len() == 6
                &&& lines[0].1 == "step        "@ + decimal_of(stats->Growth_iteration as int)
                &&& lines[1].1 == "phase       "@ + stats->phase@
                &&& lines[2].1 == "segments    "@ + decimal_of(stats->segments as int)
                &&& lines[3].1 == "attractors  "@ + decimal_of(stats->attractors as int)
                &&& lines[4].1 == "volume frac "@ + stats->Growth_volume@
                &&& lines[5].1 == "elapsed     "@ + stats->Growth_elapsed@ + " s"@
            }
            &&& stats is Density ==> {
                let at = if stats->worst is Some {
                    4int
                } else {
                    3
                };
                &&& lines.len() == at + 2
                &&& lines[0].1 == "iteration   "@ + decimal_of(stats->Density_iteration as int)
                &&& lines[1].1 == "compliance  "@ + stats->compliance@
                &&& lines[2].1 == "volume frac "@ + stats->Density_volume@
                &&& stats->worst is Some ==> lines[3].1 == "worst local "@ + stats->worst->0@
                &&& lines[at].1 == "max change  "@ + stats->change@
                &&& lines[at + 1].1 == "elapsed     "@ + stats->Density_elapsed@ + " s"@
            }
        }),
{
}

/// Before the first iteration it is waited for, except of the engine that has none.
pub proof fn law_only_an_engine_with_iterations_is_waited_for(engine: Option<Seq<char>>)
    ensures
        engine == Some("solid"@) ==> waiting_shown(engine).len() == 2 && waiting_shown(engine)[0]
            == (Tone::Mono, "no iterations"@) && waiting_shown(engine)[1].0 == Tone::SmallWeak,
        engine != Some("solid"@) ==> waiting_shown(engine).len() == 1 && waiting_shown(engine)[0]
            == (Tone::Mono, "waiting for the first iteration"@),
{
}

/// What surface is shown is said of it: which iteration's preview, the mesh that was
/// written, or that there is none yet.
pub proof fn law_the_surface_that_is_shown_is_named(iteration: usize)
    ensures
        frame_shown(Some(FrameKind::Preview { iteration })) == "preview of  iteration "@
            + decimal_of(iteration as int),
        frame_shown(Some(FrameKind::Final)) == "showing     exported mesh"@,
        frame_shown(None) == "no surface  yet"@,
{
}

/// A run's block: its heading, its status, its numbers or that they are waited for, what
/// surface is shown, the size of what was made once it is, and the note where there is one.
pub proof fn law_a_run_block_goes_in_order<R, Q>(
    progress: Progress<StatsText, R, Q>,
    engine: Option<Seq<char>>,
    frame: Option<FrameKind>,
    volume: Seq<char>,
    k: int,
)
    ensures
        ({
            let lines = run_shown(progress, engine, frame, volume);
            let numbers = if progress.latest is Some {
                stats_shown(progress.latest->0)
            } else {
                waiting_shown(engine)
            };
            let at = 2 + numbers.len() as int;
            let made = progress.status is Finished;
            let n = at + 1 + if made {
                2int
            } else {
                0
            };
            &&& lines.len() == n + if progress.note is Some {
                1int
            } else {
                0
            }
            &&& lines[0] == (Tone::Strong, "run"@)
            &&& lines[1] == (Tone::Mono, status_of(progress.status))
            &&& 0 <= k < numbers.len() ==> lines[2 + k] == numbers[k]
            &&& lines[at] == (Tone::Mono, frame_shown(frame))
            &&& made ==> lines[at + 1] == (
                Tone::Mono,
                "triangles   "@ + decimal_of(progress.status->triangles as int),
            ) && lines[at + 2] == (Tone::Mono, "volume      "@ + volume + " mm3"@)
            &&& progress.note is Some ==> lines[n] == (Tone::Small, progress.note->0@)
        }),
        worst_local_at(Some(progress)) is Some <==> progress.latest is Some
            && progress.latest->0 is Density && progress.latest->0->worst is Some,
        worst_local_at(Some(progress)) is Some ==> run_shown(
            progress,
            engine,
            frame,
            volume,
        )[worst_local_at(Some(progress))->0 as int].1 == "worst local "@
            + progress.latest->0->worst->0@,
        worst_local_at::<R, Q>(None) is None,
{
}

/// With nothing running the block says that, and what the scene is instead.
pub proof fn law_a_setup_says_that_nothing_runs()
    ensures
        setup_shown().len() == 2,
        setup_shown()[0] == (Tone::Strong, "problem setup"@),
        setup_shown()[1] == (
            Tone::Plain,
            "nothing is running; this is the model the optimizer will see"@,
        ),
{
}

} // verus!
