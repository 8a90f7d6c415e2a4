//! What a run does to the worker, to what is shown of it and to the surface it is drawn
//! on, stated of the runs, the values and the counts themselves.

use vstd::prelude::*;

use crate::config::ConfigView;
use crate::constants::VIEW_WINDOW_TITLE;
use crate::editor::grows;
use crate::forms::engine_named;
use crate::gpu::{
    action_for, at_least_one, give_up_line, refused_with, retry_line, said, status_of, step_is,
    streak_after, Acquisition, FrameStep, RenderStep, SurfaceAction, SurfaceStatus,
};
use crate::row_laws::law_the_engine_shown_decides_whether_it_grows;
use crate::scalar::Scalar;
use crate::session::{is_worst, notes_of, pause_of, says_panicked, title_of, PANICKED};
use crate::snapshot::{pushed, shut, taken, takes_one_more, RunStatus, SlotView, ViewLink};
use crate::text::decimal_of;
use crate::worker::{
    alive, asked_to_stop, coarsens, design_kept, failure_lines, generable, generated, has_room,
    label_of, launched, out_lines, own_output, preview_cancelled, preview_of, previews_as_it_is,
    running, started, stopped, thread_ended, writes, writing, RetainedView, RunKind, RunOutcome,
    WorkerView, WriteView, EXPORT_REFUSED,
};

verus! {

/// A preview runs as long as the shorter of its two budgets: the configuration's own where
/// that is below the cap, and the cap where it is not or there is none.
pub proof fn law_a_preview_runs_the_shorter_budget(
    config: ConfigView,
    cells: int,
    voxel_mm: Scalar,
    coarsened: Scalar,
)
    requires
        engine_named(config) != "growth"@,
        engine_named(config) != "solid"@,
    ensures
        ({
            let given = preview_of(config, cells, voxel_mm, coarsened).optimization.max_iterations;
            let own = config.optimization.max_iterations;
            &&& given is Some
            &&& own is None ==> given->0 == 30
            &&& own is Some && own->0 >= 30 ==> given->0 == 30
            &&& own is Some && own->0 < 30 ==> given->0 == own->0
        }),
{
    law_the_engine_shown_decides_whether_it_grows(config);
}

/// A preview of an engine that grows, or that fills the space, is the configuration as it
/// is.
pub proof fn law_engines_without_iterations_preview_as_they_are(
    config: ConfigView,
    cells: int,
    voxel_mm: Scalar,
    coarsened: Scalar,
)
    ensures
        engine_named(config) == "growth"@ || engine_named(config) == "solid"@ ==> preview_of(
            config,
            cells,
            voxel_mm,
            coarsened,
        ) == config,
        previews_as_it_is(config) <==> engine_named(config) == "growth"@ || engine_named(config)
            == "solid"@,
{
    law_the_engine_shown_decides_whether_it_grows(config);
}

/// A preview is coarser than the run exactly where the run has more cells than the budget
/// and a voxel that can be coarsened; either way it pins its voxel and asks for no count.
pub proof fn law_a_preview_is_coarser_only_over_its_budget(
    config: ConfigView,
    cells: int,
    voxel_mm: Scalar,
    coarsened: Scalar,
    budget: int,
)
    ensures
        coarsens(cells, voxel_mm, budget) <==> cells > budget && budget != 0 && 0 < voxel_mm.bits
            < 0x7ff0_0000_0000_0000,
        engine_named(config) != "growth"@ && engine_named(config) != "solid"@ ==> {
            let resolution = preview_of(config, cells, voxel_mm, coarsened).resolution;
            &&& resolution.target_cells is None
            &&& cells > 40_000 && 0 < voxel_mm.bits < 0x7ff0_0000_0000_0000
                ==> resolution.voxel_size_mm == Some(coarsened)
            &&& cells <= 40_000 || voxel_mm.bits == 0 || voxel_mm.bits >= 0x7ff0_0000_0000_0000
                ==> resolution.voxel_size_mm == Some(voxel_mm)
        },
{
    law_the_engine_shown_decides_whether_it_grows(config);
}

/// The three kinds of run have three names, and all but a preview write a file.
pub proof fn law_kinds_of_run_are_told_apart(a: RunKind, b: RunKind)
    ensures
        label_of(a) == label_of(b) <==> a == b,
        writes(RunKind::Full),
        writes(RunKind::Export),
        !writes(RunKind::Preview),
{
    reveal_strlit("preview");
    reveal_strlit("full run");
    reveal_strlit("stl generation");
    assert("preview"@.len() == 7 && "full run"@.len() == 8 && "stl generation"@.len() == 14);
}

/// What a worker is doing: it runs while its current run is not done, writes while that is
/// one that writes, and can generate while it holds a design that nothing is writing.
pub proof fn law_a_worker_does_what_its_run_does<P, Q>(worker: WorkerView<P, Q>, id: u64)
    ensures
        worker.current is None ==> !running(worker) && !writing(worker) && asked_to_stop(worker, id),
        worker.current is Some ==> {
            let run = worker.current->0;
            &&& running(worker) <==> !run.done
            &&& writing(worker) <==> !run.done && (run.kind == RunKind::Full || run.kind
                == RunKind::Export)
            &&& asked_to_stop(worker, id) <==> run.id != id
        },
        generable(worker) <==> worker.retained is Some && (worker.current is None
            || worker.current->0.done || worker.current->0.kind == RunKind::Preview),
        alive(worker, id) <==> worker.retired.contains(id) || (worker.current is Some
            && worker.current->0.id == id && !worker.current->0.done),
        has_room(worker) <==> worker.next < 0xffff_ffff_ffff_ffff && worker.live < usize::MAX,
{
}

/// A new worker has nothing going, nothing kept and nothing to complain of.
pub proof fn law_a_new_worker_is_idle<P, Q>(worker: WorkerView<P, Q>, id: u64)
    requires
        worker.idle(),
    ensures
        worker.current is None,
        worker.retired.len() == 0,
        worker.live == 0,
        worker.next == 0,
        worker.output_write is None,
        worker.retained is None,
        worker.startup_error is None,
        !alive(worker, id),
{
}

/// Stopping leaves no current run; one whose thread is still going goes to the end of
/// those that have been told to stop, and nothing else of the worker changes.
pub proof fn law_stopping_retires_the_run_in_hand<P, Q>(worker: WorkerView<P, Q>)
    ensures
        ({
            let after = stopped(worker);
            &&& after.current is None
            &&& worker.current is Some && !worker.current->0.done ==> {
                &&& after.retired.len() == worker.retired.len() + 1
                &&& after.retired[worker.retired.len() as int] == worker.current->0.id
                &&& forall|k: int|
                    0 <= k < worker.retired.len() ==> #[trigger] after.retired[k]
                        == worker.retired[k]
            }
            &&& worker.current is None || worker.current->0.done ==> after.retired
                == worker.retired
            &&& after.live == worker.live && after.next == worker.next
            &&& after.retained == worker.retained && after.output_write == worker.output_write
            &&& after.startup_error == worker.startup_error
        }),
        worker.current is Some && worker.current->0.kind == RunKind::Preview ==> preview_cancelled(
            worker,
        ) == stopped(worker),
        worker.current is None || worker.current->0.kind != RunKind::Preview ==> preview_cancelled(
            worker,
        ) == worker,
{
}

/// A launched run is the current one, of the kind asked for, under a number that no run
/// had before it, with one more thread going.
pub proof fn law_a_launched_run_is_the_current_one<P, Q>(worker: WorkerView<P, Q>, kind: RunKind)
    requires
        0 <= worker.next <= u64::MAX,
    ensures
        ({
            let after = launched(worker, kind);
            &&& after.current is Some
            &&& after.current->0.kind == kind
            &&& after.current->0.id == worker.next
            &&& !after.current->0.done
            &&& after.next == worker.next + 1
            &&& after.live == worker.live + 1
            &&& after.retired == worker.retired
            &&& after.retained == worker.retained && after.output_write == worker.output_write
            &&& after.startup_error == worker.startup_error
        }),
{
}

/// A thread that ends marks its own run done, or goes from those told to stop, and is one
/// thread fewer; one that is not going changes nothing.
pub proof fn law_a_thread_ends_its_own_run<P, Q>(worker: WorkerView<P, Q>, id: u64)
    ensures
        ({
            let after = thread_ended(worker, id);
            let own = worker.current is Some && worker.current->0.id == id;
            &&& !alive(worker, id) ==> after == worker
            &&& alive(worker, id) ==> after.live == worker.live - 1
            &&& alive(worker, id) && own ==> after.current is Some && after.current->0.done
                && after.current->0.id == id && after.current->0.kind == worker.current->0.kind
                && after.retired == worker.retired
            &&& alive(worker, id) && !own ==> after.current == worker.current && after.retired.len()
                == worker.retired.len() - 1
            &&& after.next == worker.next
            &&& after.retained == worker.retained && after.output_write == worker.output_write
            &&& after.startup_error == worker.startup_error
        }),
{
    if alive(worker, id) && worker.retired.contains(id) {
        let k = worker.retired.index_of(id);
        assert(0 <= k < worker.retired.len() && worker.retired[k] == id);
    }
}

/// Starting gives way to a run that writes, and otherwise ends a preview in hand. What was
/// built runs, as the kind asked for, with no design and no complaint left from before;
/// what was not built is complained of and leaves the design. A file is generated from a
/// design and never started.
pub proof fn law_a_start_runs_what_was_built<P, Q>(
    worker: WorkerView<P, Q>,
    kind: RunKind,
    problem: P,
    why: Seq<char>,
)
    requires
        0 <= worker.next <= u64::MAX,
    ensures
        ({
            let ran = started(worker, kind, Ok(problem));
            let failed = started(worker, kind, Err(why));
            let free = !(worker.current is Some && !worker.current->0.done && worker.current->0.kind
                != RunKind::Preview);
            &&& kind == RunKind::Export ==> ran.startup_error == Some(EXPORT_REFUSED@) && ran.current
                == worker.current && ran.retained == worker.retained && ran.live == worker.live
                && ran.retired == worker.retired
            &&& kind != RunKind::Export && !free ==> ran == worker && failed == worker
            &&& kind != RunKind::Export && free ==> {
                &&& ran.current is Some && ran.current->0.kind == kind && ran.current->0.id
                    == worker.next && !ran.current->0.done
                &&& ran.startup_error is None && ran.retained is None
                &&& ran.live == worker.live + 1 && ran.next == worker.next + 1
                &&& failed.startup_error == Some(why)
                &&& failed.retained == worker.retained
                &&& failed.live == worker.live && failed.next == worker.next
                &&& worker.current is Some && worker.current->0.kind == RunKind::Preview
                    ==> failed.current is None
                &&& worker.current is Some && worker.current->0.kind != RunKind::Preview
                    ==> failed.current == worker.current
                &&& worker.current is Some && worker.current->0.kind == RunKind::Preview
                    && !worker.current->0.done ==> ran.retired == worker.retired.push(
                    worker.current->0.id,
                ) && failed.retired == worker.retired.push(worker.current->0.id)
                &&& worker.current is None || worker.current->0.done ==> ran.retired
                    == worker.retired && failed.retired == worker.retired
            }
            &&& ran.output_write == worker.output_write && failed.output_write
                == worker.output_write
        }),
{
}

/// Generating runs the design that is held while nothing writes, and otherwise does
/// nothing.
pub proof fn law_generating_runs_the_design_that_is_held<P, Q>(worker: WorkerView<P, Q>)
    requires
        0 <= worker.next <= u64::MAX,
    ensures
        ({
            let after = generated(worker);
            let free = !(worker.current is Some && !worker.current->0.done && worker.current->0.kind
                != RunKind::Preview);
            &&& !free || worker.retained is None ==> after == worker
            &&& free && worker.retained is Some ==> {
                &&& after.current is Some && after.current->0.kind == RunKind::Export
                    && after.current->0.id == worker.next && !after.current->0.done
                &&& after.startup_error is None
                &&& after.retained == worker.retained
                &&& after.output_write == worker.output_write
                &&& after.live == worker.live + 1 && after.next == worker.next + 1
            }
        }),
{
}

/// A design is kept while the run that made it is still wanted, as it was made, and then
/// nothing else changes.
pub proof fn law_a_wanted_design_is_kept<P, Q>(
    worker: WorkerView<P, Q>,
    id: u64,
    design: RetainedView<P, Q>,
)
    ensures
        ({
            let after = design_kept(worker, id, design);
            let wanted = worker.current is Some && worker.current->0.id == id;
            &&& wanted ==> after.retained == Some(design)
            &&& !wanted ==> after.retained == worker.retained
            &&& after.current == worker.current && after.retired == worker.retired
            &&& after.live == worker.live && after.next == worker.next
            &&& after.output_write == worker.output_write
            &&& after.startup_error == worker.startup_error
        }),
{
}

/// A file is the worker's own while it is the one last written and has not been written
/// since, give or take two seconds; before anything was written none is.
pub proof fn law_a_file_is_own_until_it_is_written_again(
    parts: Seq<Seq<char>>,
    other: Seq<Seq<char>>,
    written: i128,
    modified: i128,
)
    ensures
        ({
            let record = Some(WriteView { parts, modified: written });
            &&& !own_output(None, parts, modified)
            &&& modified <= written ==> own_output(record, parts, modified)
            &&& written <= i128::MAX - 2_000_000_000 ==> (own_output(record, parts, modified)
                <==> modified <= written + 2_000_000_000)
            &&& written > i128::MAX - 2_000_000_000 ==> (own_output(record, parts, modified)
                <==> modified <= written)
            &&& other != parts ==> !own_output(record, other, modified)
        }),
{
}

/// A run that wrote says so and says a line for every line of its stress report; one that
/// was stopped says that, one that failed says nothing of a file.
pub proof fn law_a_run_says_what_became_of_it(kind: RunKind, outcome: RunOutcome, k: int)
    ensures
        match outcome {
            RunOutcome::Wrote { path, stress } => {
                let out = out_lines(kind, outcome);
                &&& out.len() == 1 + stress@.len()
                &&& out[0] == "editor wrote  "@ + path.text@
                &&& 0 <= k < stress@.len() ==> out[1 + k] == "editor stress "@ + stress@[k]@
                &&& failure_lines(kind, outcome).len() == 0
            },
            RunOutcome::Stopped => {
                let out = out_lines(kind, outcome);
                &&& out.len() == 1
                &&& kind == RunKind::Export ==> out[0] == "editor stl    "@
                    + "stopped; no file was written"@
                &&& kind != RunKind::Export ==> out[0] == "editor run    "@
                    + "stopped; no file was written"@
                &&& failure_lines(kind, outcome).len() == 0
            },
            RunOutcome::Failed { error } => {
                let said = failure_lines(kind, outcome);
                let column = if kind == RunKind::Export {
                    "editor stl    "@
                } else {
                    "editor run    "@
                };
                &&& out_lines(kind, outcome).len() == 0
                &&& said.len() == 2
                &&& said[0] == column + "failed and wrote nothing: "@ + error@
                &&& kind == RunKind::Export ==> said[1] == column
                    + "the session is unaffected; the design is still there to try again from"@
                &&& kind != RunKind::Export ==> said[1] == column
                    + "the session is unaffected; change the configuration and run again"@
            },
        },
{
}

/// A window's title ends with the name of what is open.
pub proof fn law_a_title_ends_with_the_name(name: Seq<char>)
    ensures
        title_of(name).len() == VIEW_WINDOW_TITLE@.len() + 3 + name.len(),
        title_of(name).skip(VIEW_WINDOW_TITLE@.len() as int + 3) == name,
        title_of(name).take(VIEW_WINDOW_TITLE@.len() as int) == VIEW_WINDOW_TITLE@,
{
    reveal_strlit(" - ");
    assert(title_of(name).skip(VIEW_WINDOW_TITLE@.len() as int + 3) =~= name);
    assert(title_of(name).take(VIEW_WINDOW_TITLE@.len() as int) =~= VIEW_WINDOW_TITLE@);
}

/// Only a failure is a panic, and only the one that says so; notes that were not taken are
/// no notes.
pub proof fn law_a_panic_is_a_failure_that_says_so(status: RunStatus, notes: Option<Vec<String>>)
    ensures
        says_panicked(status) ==> status is Failed && status->Failed_0@ == PANICKED@,
        !(status is Failed) ==> !says_panicked(status),
        status is Failed && status->Failed_0@ == PANICKED@ ==> says_panicked(status),
        notes is None ==> notes_of(notes).len() == 0,
        notes is Some ==> notes_of(notes) == notes->0@,
{
}

/// The worst of some peaks is one that none of them is above, there is one wherever there
/// are any, and of several it is the last.
pub proof fn law_there_is_one_worst_peak(peaks: Seq<Scalar>, j: int, k: int)
    ensures
        is_worst(peaks, j) && is_worst(peaks, k) ==> j == k,
        is_worst(peaks, k) && 0 <= j < peaks.len() ==> !peaks[k].below(peaks[j]),
        is_worst(peaks, k) && k < j < peaks.len() ==> peaks[j].bits != peaks[k].bits,
        peaks.len() > 0 ==> exists|w: int| is_worst(peaks, w),
    decreases peaks.len(),
{
    if is_worst(peaks, j) && is_worst(peaks, k) && j != k {
        assert(peaks[j].total_rank() <= peaks[k].total_rank());
        assert(peaks[k].total_rank() <= peaks[j].total_rank());
    }
    if is_worst(peaks, k) && 0 <= j < peaks.len() {
        assert(peaks[j].total_rank() <= peaks[k].total_rank());
    }
    if peaks.len() > 0 {
        lemma_a_worst(peaks);
    }
}

/// The worst of some peaks.
proof fn lemma_a_worst(peaks: Seq<Scalar>)
    requires
        peaks.len() > 0,
    ensures
        exists|w: int| is_worst(peaks, w),
    decreases peaks.len(),
{
    let last = peaks.len() - 1;
    if peaks.len() == 1 {
        assert(is_worst(peaks, 0));
    } else {
        let before = peaks.drop_last();
        lemma_a_worst(before);
        let w = choose|w: int| is_worst(before, w);
        assert forall|j: int| 0 <= j < before.len() implies (#[trigger] peaks[j]).total_rank()
            <= peaks[w].total_rank() by {
            assert(before[j].total_rank() <= before[w].total_rank());
        }
        assert forall|j: int| w < j < before.len() implies (#[trigger] peaks[j]).total_rank()
            < peaks[w].total_rank() by {
            assert(before[j].total_rank() < before[w].total_rank());
        }
        if peaks[last].total_rank() < peaks[w].total_rank() {
            assert(is_worst(peaks, w));
        } else {
            assert(is_worst(peaks, last));
        }
    }
}

/// Between two previews there is the least interval: what has passed of it and what is
/// waited make it up, and after it, or before the first, nothing is waited.
pub proof fn law_a_pause_makes_up_the_interval(since: u64)
    ensures
        pause_of(None) == 0,
        since <= 100_000_000 ==> since + pause_of(Some(since)) == 100_000_000,
        since > 100_000_000 ==> pause_of(Some(since)) == 0,
{
}

/// A slot that is open holds what was pushed last and counts what it lost by that; one
/// that is shut holds what it held and takes nothing in.
pub proof fn law_a_slot_holds_the_last_push<T>(slot: SlotView<T>, value: T)
    ensures
        !slot.closed ==> pushed(slot, value).value == Some(value) && !pushed(slot, value).closed,
        !slot.closed && slot.value is Some ==> pushed(slot, value).dropped == slot.dropped + 1,
        !slot.closed && slot.value is None ==> pushed(slot, value).dropped == slot.dropped,
        slot.closed ==> pushed(slot, value) == slot,
        taken(slot).value is None,
        taken(slot).closed == slot.closed,
        taken(slot).dropped == slot.dropped,
        shut(slot).closed,
        shut(slot).value == slot.value,
        shut(slot).dropped == slot.dropped,
        takes_one_more(slot) <==> slot.closed || slot.value is None || slot.dropped + 1
            <= usize::MAX,
{
}

/// A link nothing has gone over yet has both its slots open and empty, nothing to tell and
/// nobody gone.
pub proof fn law_an_untouched_link_has_nothing_on_it<S, R, Q, M>(link: ViewLink<S, R, Q, M>)
    ensures
        link.untouched() <==> {
            &&& link.densities@.value is None && !link.densities@.closed && link.densities@.dropped
                == 0
            &&& link.frames@.value is None && !link.frames@.closed && link.frames@.dropped == 0
            &&& link.progress.latest is None && link.progress.note is None
            &&& link.progress.trim@.len() == 0 && link.progress.flush@.len() == 0
            &&& link.progress.reinforce@.len() == 0 && link.progress.clamp@.len() == 0
            &&& link.progress.stress is None && link.progress.reduce is None
            &&& link.progress.status is Optimizing
            &&& !link.detached
        },
{
}

/// A surface that was had is drawn on, suboptimal or not; one that is not ready or not
/// seen is passed over; one that is out of date or lost is made anew; and a frame the
/// device would not have is rejected.
pub proof fn law_every_answer_of_the_surface_has_its_status(acquired: Acquisition)
    ensures
        status_of(acquired) == SurfaceStatus::Acquired <==> acquired == Acquisition::Success
            || acquired == Acquisition::Suboptimal,
        status_of(acquired) == SurfaceStatus::Skipped <==> acquired == Acquisition::Timeout
            || acquired == Acquisition::Occluded,
        status_of(acquired) == SurfaceStatus::Stale <==> acquired == Acquisition::Outdated
            || acquired == Acquisition::Lost,
        status_of(acquired) == SurfaceStatus::Rejected <==> acquired == Acquisition::Validation,
{
}

/// A drawn frame ends a streak of rejections, a rejected one is one more of it until the
/// count is full, and any other leaves it.
pub proof fn law_a_streak_counts_rejections(streak: int)
    ensures
        streak_after(streak, SurfaceStatus::Acquired) == 0,
        streak_after(streak, SurfaceStatus::Skipped) == streak,
        streak_after(streak, SurfaceStatus::Stale) == streak,
        streak < 0xffff_ffff ==> streak_after(streak, SurfaceStatus::Rejected) == streak + 1,
        streak == 0xffff_ffff ==> streak_after(streak, SurfaceStatus::Rejected) == streak,
{
}

/// What is done about a frame: it is drawn, passed over or made anew by its status alone,
/// and a rejection is tried again until there have been sixty.
pub proof fn law_a_rejected_frame_is_tried_again_until_the_limit(streak: u32)
    ensures
        action_for(streak as int, SurfaceStatus::Acquired) == SurfaceAction::Draw,
        action_for(streak as int, SurfaceStatus::Skipped) == SurfaceAction::Skip,
        action_for(streak as int, SurfaceStatus::Stale) == SurfaceAction::Reconfigure,
        streak < 60 ==> action_for(streak as int, SurfaceStatus::Rejected) == (
        SurfaceAction::Retry { streak }),
        streak >= 60 ==> action_for(streak as int, SurfaceStatus::Rejected) == (
        SurfaceAction::GiveUp { streak }),
{
}

/// What is said of a rejection names the failure where there is one; giving up says how
/// many there were.
pub proof fn law_a_rejection_says_what_failed(failure: Seq<char>, streak: int)
    ensures
        retry_line(Some(failure)).skip(15).take(failure.len() as int) == failure,
        give_up_line(Some(failure), streak).take(failure.len() as int) == failure,
        give_up_line(Some(failure), streak).skip(failure.len() as int + 6).take(
            decimal_of(streak).len() as int,
        ) == decimal_of(streak),
        give_up_line(None, streak).skip(17).take(decimal_of(streak).len() as int) == decimal_of(
            streak,
        ),
{
    reveal_strlit("viewer surface ");
    reveal_strlit(", and ");
    reveal_strlit("the GPU rejected ");
    assert(retry_line(Some(failure)).skip(15).take(failure.len() as int) =~= failure);
    assert(give_up_line(Some(failure), streak).take(failure.len() as int) =~= failure);
    assert(give_up_line(Some(failure), streak).skip(failure.len() as int + 6).take(
        decimal_of(streak).len() as int,
    ) =~= decimal_of(streak));
    assert(give_up_line(None, streak).skip(17).take(decimal_of(streak).len() as int)
        =~= decimal_of(streak));
}

/// After a frame: nothing more where it was drawn or passed over; the surface is made anew
/// where it is stale; a first rejection is spoken of, a later one is not; and the last is
/// what is given up with.
pub proof fn law_a_frame_ends_as_its_status_says(
    step: FrameStep,
    streak: u32,
    status: SurfaceStatus,
    failure: Option<Seq<char>>,
)
    requires
        step_is(step, streak as int, status, failure),
    ensures
        status == SurfaceStatus::Acquired || status == SurfaceStatus::Skipped ==> step is Done,
        status == SurfaceStatus::Stale ==> step is Reconfigure,
        status == SurfaceStatus::Rejected && streak < 60 ==> step is Retry,
        status == SurfaceStatus::Rejected && streak == 1 ==> step->say is Some && step->say->0@
            == retry_line(failure),
        status == SurfaceStatus::Rejected && streak < 60 && streak != 1 ==> step->say is None,
        status == SurfaceStatus::Rejected && streak >= 60 ==> step is GiveUp && step->message@
            == give_up_line(failure, streak as int),
{
}

/// A frame that is refused is over, rejected, and says what refused it.
pub proof fn law_a_refused_frame_is_over(step: RenderStep, failure: Seq<char>)
    ensures
        refused_with(step, failure) <==> step is Over && step->status == SurfaceStatus::Rejected
            && step->failure is Some && step->failure->0@ == failure,
{
}

/// A side is never less than one, and one that is is left alone.
pub proof fn law_a_side_is_at_least_one(size: u32)
    ensures
        size >= 1 ==> at_least_one(size) == size,
        size == 0 ==> at_least_one(size) == 1,
{
}

} // verus!
