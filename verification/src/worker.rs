//! The editor's background runs: what owns the worker, what is kept of a run,
//! and what a run that ended says.
//!
//! Three kinds of run go through here. A **preview** is what an edit starts: it
//! optimizes and nothing else, and a newer edit cancels it. A **full run** is the
//! whole pipeline, file included. An **stl generation** is the tail of that
//! pipeline alone, on the design a previous run left behind.
//!
//! A [`Worker`] is the session's record of them. The threads themselves belong
//! to the caller, who tells the worker what happened to each by the number the
//! worker gave it. A stopped run ends later than it is stopped, and the two
//! questions that raises have two answers: [`Worker::is_running`] is what the
//! panel shows, and a stopped run is gone from it at once; [`Worker::probe`]
//! counts the threads, and a stopped run is in it until its thread has ended.

use std::sync::Arc;

use vstd::prelude::*;
use vstd::string::*;

use crate::config::{Config, ConfigView, OptimizationConfig, ResolutionConfig};
use crate::constants::{
    SOLID_ENGINE, VIEW_EDIT_OUTPUT_MTIME_TOLERANCE_NS, VIEW_EDIT_PREVIEW_CELL_BUDGET,
    VIEW_EDIT_PREVIEW_MAX_ITERATIONS,
};
use crate::editor::grows;
use crate::forms::{engine_named, is_growth, shown_engine};
use crate::scalar::Scalar;
use crate::snapshot::{taken, Frame, Progress, RunStatus, ViewLink};
use crate::tally::{
    lemma_tally_at_most, lemma_tally_differs_at, lemma_tally_nothing, lemma_tally_reaches,
    lemma_tally_same, tally, where_member,
};
use crate::text::joined;

verus! {

/// What a run is for.
#[derive(Clone, Copy, Debug, PartialEq, Eq, Structural)]
pub enum RunKind {
    /// A fast, capped, coarsened re-run started by an edit. Writes nothing and
    /// is cancelled by the next edit.
    Preview,
    /// The real pipeline, file included, started by the user.
    Full,
    /// The pipeline's tail alone - cavities, stress, mesh, file - on the design
    /// a previous run left behind, started by the user. No engine runs.
    Export,
}

/// What the panel calls a run.
pub open spec fn label_of(kind: RunKind) -> Seq<char> {
    match kind {
        RunKind::Preview => "preview"@,
        RunKind::Full => "full run"@,
        RunKind::Export => "stl generation"@,
    }
}

/// Whether a run of this kind writes the output file.
pub open spec fn writes(kind: RunKind) -> bool {
    kind != RunKind::Preview
}

impl RunKind {
    /// Label the panel shows.
    pub fn label(self) -> (label: &'static str)
        ensures
            label@ == label_of(self),
    {
        match self {
            RunKind::Preview => "preview",
            RunKind::Full => "full run",
            RunKind::Export => "stl generation",
        }
    }

    /// Whether a run of this kind writes the output file.
    ///
    /// This is what owns the worker: two writers of one path race each other, so
    /// a run that writes holds it until the file is there - or until the stop
    /// button takes it away - and nothing else may start meanwhile.
    pub fn writes(self) -> (answer: bool)
        ensures
            answer == writes(self),
    {
        match self {
            RunKind::Preview => false,
            RunKind::Full => true,
            RunKind::Export => true,
        }
    }
}

/// How many run threads the worker started are still alive.
///
/// This is deliberately *not* [`Worker::is_running`]. That one is the session's
/// question; this one is the thread's: a stopped run only reaches its next
/// cancellation checkpoint some time later, and the window's event loop has to
/// keep servicing its message queue for exactly as long as that takes.
///
/// There is one count and no copy of it, so that it always answers for the runs
/// started since it was first looked at.
#[derive(Debug)]
pub struct RunProbe {
    live: usize,
}

impl Default for RunProbe {
    fn default() -> (probe: RunProbe)
        ensures
            probe.live() == 0,
    {
        RunProbe { live: 0 }
    }
}

impl RunProbe {
    /// Threads counted in and not yet out.
    pub closed spec fn live(&self) -> int {
        self.live as int
    }

    /// True while at least one run thread has not yet ended.
    pub fn is_running(&self) -> (answer: bool)
        ensures
            answer == (self.live() > 0),
    {
        self.live > 0
    }

    /// Count one run's thread in, before it starts.
    pub fn enter(&mut self) -> (guard: RunGuard)
        requires
            old(self).live() < usize::MAX,
        ensures
            entered(*old(self), *final(self), guard),
    {
        self.live = self.live + 1;
        RunGuard { done: false }
    }

    /// Count one run's thread out, whichever way its body ended, and mark its run
    /// and no other. A thread that is out already is not counted out again.
    pub fn leave(&mut self, guard: &mut RunGuard)
        requires
            old(guard).ended() || old(self).live() > 0,
        ensures
            left(*old(self), *final(self), *old(guard), *final(guard)),
    {
        if !guard.done {
            self.live = self.live - 1;
            guard.done = true;
        }
    }
}

/// One run's place in the count. It is neither copied nor made anywhere but on
/// entering, so that a thread is counted out once.
#[derive(Debug)]
pub struct RunGuard {
    done: bool,
}

impl RunGuard {
    /// Whether the thread's body has ended.
    pub closed spec fn ended(&self) -> bool {
        self.done
    }

    /// Whether the thread's body has ended, however it ended.
    pub fn is_done(&self) -> (answer: bool)
        ensures
            answer == self.ended(),
    {
        self.done
    }
}

/// What counting a thread in does: it makes one more, and its run has not ended.
pub open spec fn entered(before: RunProbe, after: RunProbe, guard: RunGuard) -> bool {
    after.live() == before.live() + 1 && !guard.ended()
}

/// What counting a thread out does: its run has ended, and there is one fewer if it
/// had not ended before.
pub open spec fn left(
    before: RunProbe,
    after: RunProbe,
    guard: RunGuard,
    gone: RunGuard,
) -> bool {
    &&& gone.ended()
    &&& after.live() == before.live() - (if guard.ended() {
        0int
    } else {
        1int
    })
}

/// A probe counts these guards: those whose threads have not ended.
pub open spec fn counts(probe: RunProbe, guards: Seq<RunGuard>) -> bool {
    probe.live() == tally(
        guards.len() as int,
        where_member(|g: int| !guards[g].ended(), |g: int| 1),
    )
}

/// A probe that has handed out no guard counts none, and entering one more counts
/// that one more and leaves every other as it was.
pub proof fn law_entering_counts_one_more(
    before: RunProbe,
    after: RunProbe,
    guards: Seq<RunGuard>,
    guard: RunGuard,
)
    requires
        counts(before, guards),
        entered(before, after, guard),
    ensures
        counts(after, guards.push(guard)),
        after.live() > 0,
        before.live() == 0 ==> forall|g: int|
            0 <= g < guards.len() ==> (#[trigger] guards[g]).ended(),
{
    let n = guards.len() as int;
    let more = guards.push(guard);
    let old_weight = where_member(|g: int| !guards[g].ended(), |g: int| 1);
    let new_weight = where_member(|g: int| !more[g].ended(), |g: int| 1);
    lemma_tally_same(n, old_weight, new_weight);
    lemma_tally_at_most(n, |g: int| !guards[g].ended());
    assert(more[n] == guard);
    law_the_probe_answers_for_its_guards(before, before, guards);
}

/// Ending a guard counts its own thread out and no other, and marks its own run and
/// no other; ending it once more changes nothing, and while another guard has not
/// ended the answer stays true.
pub proof fn law_a_guard_takes_its_own_thread_out_once(
    before: RunProbe,
    after: RunProbe,
    guards: Seq<RunGuard>,
    which: int,
    gone: RunGuard,
)
    requires
        counts(before, guards),
        0 <= which < guards.len(),
        left(before, after, guards[which], gone),
    ensures
        counts(after, guards.update(which, gone)),
        guards.update(which, gone)[which].ended(),
        forall|g: int|
            0 <= g < guards.len() && g != which ==> #[trigger] guards.update(which, gone)[g]
                == guards[g],
        guards[which].ended() ==> after.live() == before.live(),
        !guards[which].ended() ==> after.live() == before.live() - 1,
        (exists|g: int|
            0 <= g < guards.len() && g != which && !(#[trigger] guards[g]).ended())
            ==> after.live() > 0,
{
    let n = guards.len() as int;
    let fewer = guards.update(which, gone);
    let old_weight = where_member(|g: int| !guards[g].ended(), |g: int| 1);
    let new_weight = where_member(|g: int| !fewer[g].ended(), |g: int| 1);
    lemma_tally_differs_at(n, old_weight, new_weight, which);
    law_the_probe_answers_for_its_guards(after, after, fewer);
    if exists|g: int| 0 <= g < guards.len() && g != which && !(#[trigger] guards[g]).ended() {
        let g = choose|g: int|
            0 <= g < guards.len() && g != which && !(#[trigger] guards[g]).ended();
        assert(!fewer[g].ended());
    }
}

/// The answer is true exactly while a guard has not ended, and it is one answer
/// through every handle that counts these guards, whenever it was taken.
pub proof fn law_the_probe_answers_for_its_guards(
    probe: RunProbe,
    other: RunProbe,
    guards: Seq<RunGuard>,
)
    requires
        counts(probe, guards),
        counts(other, guards),
    ensures
        (probe.live() > 0) == (exists|g: int|
            0 <= g < guards.len() && !(#[trigger] guards[g]).ended()),
        (probe.live() > 0) == (other.live() > 0),
{
    let n = guards.len() as int;
    let weight = where_member(|g: int| !guards[g].ended(), |g: int| 1);
    if exists|g: int| 0 <= g < guards.len() && !(#[trigger] guards[g]).ended() {
        let g = choose|g: int| 0 <= g < guards.len() && !(#[trigger] guards[g]).ended();
        lemma_tally_reaches(n, |g: int| !guards[g].ended(), g);
    } else {
        lemma_tally_nothing(n, weight);
    }
}

/// Where a file is.
#[derive(Debug)]
pub struct FilePath {
    /// The path as it is written out.
    pub text: String,
    /// Its components, which are what two paths are compared by: a doubled
    /// separator names the same file as a single one. What separates them, and what
    /// may stand in front of them, is for the platform to say, so they come from
    /// whoever asked it.
    pub parts: Vec<String>,
}

/// The output file a run wrote, and when it turned out to have been written.
#[derive(Debug)]
pub struct OutputWrite {
    /// Components of the absolute path the run resolved the output path to; see
    /// [`FilePath::parts`].
    pub parts: Vec<String>,
    /// The modification time the file had once the write was done, in
    /// nanoseconds since the epoch, read back from the filesystem rather than
    /// taken from the clock: it is later compared against another one, and only
    /// the filesystem's own timeline makes that comparison mean anything.
    pub modified: i128,
}

/// An [`OutputWrite`] as its characters and its time.
#[verifier::ext_equal]
pub struct WriteView {
    /// See [`OutputWrite::parts`].
    pub parts: Seq<Seq<char>>,
    /// See [`OutputWrite::modified`].
    pub modified: i128,
}

/// What a recorded write is, if there is one.
pub open spec fn write_of(write: Option<OutputWrite>) -> Option<WriteView> {
    match write {
        Some(write) => Some(
            WriteView { parts: lines_of(write.parts@), modified: write.modified },
        ),
        None => None,
    }
}

/// A design a run produced, with the problem it belongs to.
///
/// The pair is what makes an on-demand export safe. The grid, the material, the
/// policies and the output path all come from the problem, so exporting a kept
/// field against a problem rebuilt from the configuration *as it is now* would
/// export it against whatever the user has edited since. The two travel together
/// and are replaced together; nothing can hand out one of them beside the other.
#[derive(Debug)]
pub struct Retained<P, Q> {
    problem: Arc<P>,
    densities: Vec<Scalar>,
    reduce: Option<Q>,
}

/// What a kept design is.
#[verifier::ext_equal]
pub struct RetainedView<P, Q> {
    /// The problem the field was produced against.
    pub problem: P,
    /// Physical density of every cell, in grid element order.
    pub densities: Seq<Scalar>,
    /// The schedule that chose the design, when a schedule did.
    pub reduce: Option<Q>,
}

impl<P, Q> View for Retained<P, Q> {
    type V = RetainedView<P, Q>;

    closed spec fn view(&self) -> RetainedView<P, Q> {
        RetainedView {
            problem: *self.problem,
            densities: self.densities@,
            reduce: self.reduce,
        }
    }
}

impl<P, Q> Retained<P, Q> {
    /// The problem the field was produced against, and the one an export of it
    /// must use.
    pub fn problem(&self) -> (problem: &P)
        ensures
            *problem == self@.problem,
    {
        &*self.problem
    }

    /// Physical density of every cell, in grid element order.
    pub fn densities(&self) -> (densities: &Vec<Scalar>)
        ensures
            densities@ == self@.densities,
    {
        &self.densities
    }

    /// The schedule that chose this design, when a schedule did.
    ///
    /// Set only where the engine hands its finished field over: a design kept
    /// mid-run is one stage of a schedule that has not finished.
    pub fn reduce(&self) -> (reduce: Option<&Q>)
        ensures
            match reduce {
                Some(reduce) => self@.reduce == Some(*reduce),
                None => self@.reduce is None,
            },
    {
        match &self.reduce {
            Some(reduce) => Some(reduce),
            None => None,
        }
    }

    /// A copy of the field, for a pass that resolves it in place: the design
    /// that was kept stays the one the run produced, so generating twice
    /// generates the same thing twice rather than compounding.
    pub fn copy_densities(&self) -> (densities: Vec<Scalar>)
        ensures
            densities@ == self@.densities,
    {
        copied(&self.densities)
    }
}

/// A second field that says the same.
fn copied(field: &Vec<Scalar>) -> (copy: Vec<Scalar>)
    ensures
        copy@ == field@,
{
    let mut copy: Vec<Scalar> = Vec::new();
    let mut k: usize = 0;
    while k < field.len()
        invariant
            k <= field.len(),
            copy@ == field@.take(k as int),
        decreases field.len() - k,
    {
        copy.push(field[k]);
        k = k + 1;
        assert(copy@ =~= field@.take(k as int));
    }
    assert(copy@ =~= field@);
    copy
}

/// What is kept in a slot, if anything is.
pub open spec fn kept_in<P, Q>(slot: Option<Arc<Retained<P, Q>>>) -> Option<RetainedView<P, Q>> {
    match slot {
        Some(kept) => Some(kept@),
        None => None,
    }
}

/// Where one run puts its newest design: the problem that design belongs to.
///
/// One of these per run, holding that run's own problem and writing into the
/// worker's single slot. The slot therefore holds the newest field of the newest
/// run to report one, always beside the problem it came from.
#[derive(Debug)]
pub struct Retention<P> {
    problem: Arc<P>,
}

impl<P> Retention<P> {
    /// The problem every design of this run belongs to.
    pub closed spec fn of(self) -> P {
        *self.problem
    }

    /// The retention of a run of `problem`.
    pub fn new(problem: P) -> (retention: Retention<P>)
        ensures
            retention.of() == problem,
    {
        Retention { problem: Arc::new(problem) }
    }

    /// The problem this run is of.
    pub fn problem(&self) -> (problem: &P)
        ensures
            *problem == self.of(),
    {
        &*self.problem
    }

    /// Keep `densities` as the newest design of this run, unless this run has
    /// been cancelled.
    ///
    /// Called from two places, and they are the same statement: every iteration
    /// the engine reports, and the moment the engine hands its finished field
    /// over. `reduce` is the schedule that chose the field, which only the
    /// second of those has. The cancellation has to be asked while the slot is
    /// held: a run is superseded by cancelling it and then clearing the slot, and
    /// an answer from before that could put a design of the superseded run
    /// behind the clear.
    pub fn keep<Q>(
        &self,
        slot: &mut Option<Arc<Retained<P, Q>>>,
        densities: Vec<Scalar>,
        reduce: Option<Q>,
        cancelled: bool,
    )
        ensures
            kept_in(*final(slot)) == (if cancelled {
                kept_in(*old(slot))
            } else {
                Some(
                    RetainedView { problem: self.of(), densities: densities@, reduce },
                )
            }),
    {
        if cancelled {
            return;
        }
        let kept = Retained { problem: self.problem.clone(), densities, reduce };
        *slot = Some(Arc::new(kept));
    }
}

/// Whether a preview of a grid of `cells` cells runs on a coarser one.
pub open spec fn coarsens(cells: int, voxel_mm: Scalar, budget: int) -> bool {
    cells > budget && budget != 0 && voxel_mm.finite() && Scalar { bits: 0 }.below(voxel_mm)
}

/// Voxel size a fast preview uses for a grid of `cells` cells at `voxel_mm`.
///
/// A grid inside the budget is left exactly as configured, so a small problem
/// previews at its real resolution. A larger one is coarsened by the cube root
/// of the excess, which is the factor that brings the cell count back to the
/// budget: cells scale with the cube of the voxel size. `coarsened` is the voxel
/// size times that root, and is not looked at where nothing is coarsened.
pub fn preview_voxel_size(
    cells: usize,
    voxel_mm: Scalar,
    budget: usize,
    coarsened: Scalar,
) -> (size_mm: Scalar)
    ensures
        size_mm == (if coarsens(cells as int, voxel_mm, budget as int) {
            coarsened
        } else {
            voxel_mm
        }),
{
    let nothing = Scalar { bits: 0 };
    if cells <= budget || budget == 0 || !voxel_mm.is_finite() || voxel_mm.le(nothing) {
        return voxel_mm;
    }
    coarsened
}

/// The configuration a fast preview of `config` runs, on a grid of `cells` cells
/// at `voxel_mm`.
pub open spec fn preview_of(
    config: ConfigView,
    cells: int,
    voxel_mm: Scalar,
    coarsened: Scalar,
) -> ConfigView {
    if previews_as_it_is(config) {
        config
    } else {
        ConfigView {
            optimization: OptimizationConfig {
                max_iterations: Some(capped(config.optimization.max_iterations)),
                ..config.optimization
            },
            resolution: ResolutionConfig {
                voxel_size_mm: Some(
                    if coarsens(cells, voxel_mm, VIEW_EDIT_PREVIEW_CELL_BUDGET as int) {
                        coarsened
                    } else {
                        voxel_mm
                    },
                ),
                target_cells: None,
            },
            ..config
        }
    }
}

/// The iterations a preview is given: its own, where they are fewer than the cap.
pub open spec fn capped(iterations: Option<usize>) -> usize {
    match iterations {
        Some(own) => if own < VIEW_EDIT_PREVIEW_MAX_ITERATIONS {
            own
        } else {
            VIEW_EDIT_PREVIEW_MAX_ITERATIONS
        },
        None => VIEW_EDIT_PREVIEW_MAX_ITERATIONS,
    }
}

/// True when the engine is quick enough to preview at the real configuration: it
/// grows a design, or it fills the domain.
pub open spec fn previews_as_it_is(config: ConfigView) -> bool {
    grows(config) || engine_named(config) == SOLID_ENGINE@
}

/// The configuration a fast preview of `config` runs.
///
/// Growth grows a whole design in milliseconds and the solid engine fills a
/// field in one pass, so both preview at the real configuration. Coarsening the
/// solid engine's grid would be worse than pointless besides: the surface it
/// produces *is* the domain. The density engine is capped at
/// [`VIEW_EDIT_PREVIEW_MAX_ITERATIONS`] iterations on a grid coarsened to
/// [`VIEW_EDIT_PREVIEW_CELL_BUDGET`] cells. Everything else, the solver table
/// included, is carried over untouched.
pub fn preview_config(
    config: &Config,
    cells: usize,
    voxel_mm: Scalar,
    coarsened: Scalar,
) -> (preview: Config)
    ensures
        preview@ == preview_of(config@, cells as int, voxel_mm, coarsened),
{
    let mut preview = config.copy();
    if is_growth(config) || shown_engine(config) == SOLID_ENGINE.to_owned() {
        return preview;
    }
    let cap: usize = VIEW_EDIT_PREVIEW_MAX_ITERATIONS;
    let iterations: usize = match config.optimization.max_iterations {
        Some(own) => if own < cap {
            own
        } else {
            cap
        },
        None => cap,
    };
    preview.optimization.max_iterations = Some(iterations);
    let voxel = preview_voxel_size(cells, voxel_mm, VIEW_EDIT_PREVIEW_CELL_BUDGET, coarsened);
    preview.resolution.voxel_size_mm = Some(voxel);
    preview.resolution.target_cells = None;
    preview
}

/// A preview is never given more iterations than the cap nor more than its
/// configuration asks for, and nothing but its iterations and its resolution
/// differs from the configuration it previews. A growth or a solid configuration
/// is previewed as it is.
pub proof fn law_a_preview_is_capped_and_nothing_else_about_it_changes(
    config: ConfigView,
    cells: int,
    voxel_mm: Scalar,
    coarsened: Scalar,
)
    ensures
        ({
            let preview = preview_of(config, cells, voxel_mm, coarsened);
            &&& previews_as_it_is(config) ==> preview == config
            &&& preview == (ConfigView {
                optimization: OptimizationConfig {
                    max_iterations: preview.optimization.max_iterations,
                    ..config.optimization
                },
                resolution: preview.resolution,
                ..config
            })
            &&& !previews_as_it_is(config) ==> {
                &&& preview.optimization.max_iterations matches Some(given)
                &&& given <= VIEW_EDIT_PREVIEW_MAX_ITERATIONS
                &&& config.optimization.max_iterations matches Some(own) ==> given <= own
                &&& preview.resolution.target_cells is None
                &&& cells <= VIEW_EDIT_PREVIEW_CELL_BUDGET ==> preview.resolution.voxel_size_mm
                    == Some(voxel_mm)
            }
        }),
{
}

/// One run in flight.
#[derive(Debug)]
pub struct Run<S, R, Q, M> {
    /// The number its thread is known by.
    id: u64,
    kind: RunKind,
    link: ViewLink<S, R, Q, M>,
    /// The thread's place in the count.
    guard: RunGuard,
}

/// A run that was stopped and whose thread is winding down.
#[derive(Debug)]
pub struct Retired {
    /// The number its thread is known by.
    id: u64,
    /// The thread's place in the count.
    guard: RunGuard,
}

/// What a run in flight is to the session.
pub struct RunView {
    /// The number its thread is known by.
    pub id: u64,
    /// What it is for.
    pub kind: RunKind,
    /// Whether its thread's body has ended.
    pub done: bool,
}

/// The editor's background runs: `P` is a problem, `Q` the record of a schedule,
/// `S`, `R` and `M` what a [`ViewLink`] carries.
#[derive(Debug)]
pub struct Worker<P, Q, S, R, M> {
    current: Option<Run<S, R, Q, M>>,
    /// Runs that were stopped and whose threads are winding down.
    retired: Vec<Retired>,
    /// How many run threads are alive, whatever kind they are and whether or
    /// not they have been stopped.
    threads: RunProbe,
    /// The number the next run gets.
    next: u64,
    /// What the last run to write wrote.
    output_write: Option<OutputWrite>,
    /// The newest design any run has reported, with the problem it belongs to.
    retained: Option<Arc<Retained<P, Q>>>,
    /// Set when the last run failed to start at all.
    startup_error: Option<String>,
}

/// What a worker is at one moment, but for the link of the run in flight, which is
/// written to by the run itself; [`Worker::link`] stands for it, and every contract
/// says of it what becomes of it.
#[verifier::ext_equal]
pub struct WorkerView<P, Q> {
    /// The run in flight, or the last one that ended without being stopped.
    pub current: Option<RunView>,
    /// Stopped runs whose threads have not ended.
    pub retired: Seq<u64>,
    /// Whether none of those has been counted out.
    pub retired_alive: bool,
    /// Threads alive.
    pub live: int,
    /// The number the next run gets.
    pub next: int,
    /// What the last run to write wrote.
    pub output_write: Option<WriteView>,
    /// The newest design.
    pub retained: Option<RetainedView<P, Q>>,
    /// Why the last run could not be started.
    pub startup_error: Option<Seq<char>>,
}

/// True while a run is going.
pub open spec fn running<P, Q>(worker: WorkerView<P, Q>) -> bool {
    worker.current matches Some(run) && !run.done
}

/// True while a run that writes the output file owns the worker.
pub open spec fn writing<P, Q>(worker: WorkerView<P, Q>) -> bool {
    worker.current matches Some(run) && !run.done && writes(run.kind)
}

/// True while there is a design to export and nothing that writes is running.
pub open spec fn generable<P, Q>(worker: WorkerView<P, Q>) -> bool {
    !writing(worker) && worker.retained is Some
}

/// Whether the run of that number has been asked to stop: it is no longer the
/// session's run.
pub open spec fn asked_to_stop<P, Q>(worker: WorkerView<P, Q>, id: u64) -> bool {
    !(worker.current matches Some(run) && run.id == id)
}

/// Whether the thread of that number has been started and has not ended.
pub open spec fn alive<P, Q>(worker: WorkerView<P, Q>, id: u64) -> bool {
    ||| worker.current matches Some(run) && run.id == id && !run.done
    ||| worker.retired.contains(id)
}

/// What holds of every worker: the count is the threads that are alive, and no
/// two of them share a number, nor one with a run still to come.
pub open spec fn sound<P, Q>(worker: WorkerView<P, Q>) -> bool {
    &&& worker.live == worker.retired.len() + (if running(worker) {
        1int
    } else {
        0int
    })
    &&& worker.retired_alive
    &&& worker.retired.no_duplicates()
    &&& forall|k: int|
        0 <= k < worker.retired.len() ==> (#[trigger] worker.retired[k]) < worker.next
    &&& worker.current matches Some(run) ==> run.id < worker.next && !worker.retired.contains(
        run.id,
    )
}

/// Whether another run can be numbered and counted.
pub open spec fn has_room<P, Q>(worker: WorkerView<P, Q>) -> bool {
    worker.next < u64::MAX && worker.live < usize::MAX
}

/// A worker after whatever was running was stopped.
pub open spec fn stopped<P, Q>(worker: WorkerView<P, Q>) -> WorkerView<P, Q> {
    WorkerView {
        current: None,
        retired: match worker.current {
            Some(run) => if run.done {
                worker.retired
            } else {
                worker.retired.push(run.id)
            },
            None => worker.retired,
        },
        ..worker
    }
}

/// A worker after a preview, if that is what was running, was stopped.
pub open spec fn preview_cancelled<P, Q>(worker: WorkerView<P, Q>) -> WorkerView<P, Q> {
    if worker.current matches Some(run) && run.kind == RunKind::Preview {
        stopped(worker)
    } else {
        worker
    }
}

/// A worker after a run of `kind` was made the current one.
pub open spec fn launched<P, Q>(worker: WorkerView<P, Q>, kind: RunKind) -> WorkerView<P, Q> {
    WorkerView {
        current: Some(RunView { id: worker.next as u64, kind, done: false }),
        live: worker.live + 1,
        next: worker.next + 1,
        ..worker
    }
}

/// A worker after the thread of that number ended. A thread ends once: one that has
/// ended already, or was never started, changes nothing.
pub open spec fn thread_ended<P, Q>(worker: WorkerView<P, Q>, id: u64) -> WorkerView<P, Q> {
    if !alive(worker, id) {
        worker
    } else {
        match worker.current {
            Some(run) if run.id == id => WorkerView {
                current: Some(RunView { done: true, ..run }),
                live: worker.live - 1,
                ..worker
            },
            _ => WorkerView {
                retired: worker.retired.remove(worker.retired.index_of(id)),
                live: worker.live - 1,
                ..worker
            },
        }
    }
}

/// Why a generation is not started from a configuration.
pub const EXPORT_REFUSED: &'static str = "an stl generation runs on the design already on screen rather than on a configuration; it is started from the panel's \"generate stl\" button";

/// A worker after it was asked to start a run of `kind` whose problem came out as
/// `built`.
pub open spec fn started<P, Q>(
    worker: WorkerView<P, Q>,
    kind: RunKind,
    built: Result<P, Seq<char>>,
) -> WorkerView<P, Q> {
    let freed = preview_cancelled(worker);
    if kind == RunKind::Export {
        WorkerView { startup_error: Some(EXPORT_REFUSED@), ..worker }
    } else if writing(freed) {
        freed
    } else {
        match built {
            Ok(_) => launched(
                WorkerView { startup_error: None, retained: None, ..freed },
                kind,
            ),
            Err(why) => WorkerView { startup_error: Some(why), ..freed },
        }
    }
}

/// A worker after a generation was asked for.
pub open spec fn generated<P, Q>(worker: WorkerView<P, Q>) -> WorkerView<P, Q> {
    if generable(worker) {
        launched(
            WorkerView { startup_error: None, ..preview_cancelled(worker) },
            RunKind::Export,
        )
    } else {
        worker
    }
}

/// A worker after the run of that number handed a design over.
pub open spec fn design_kept<P, Q>(
    worker: WorkerView<P, Q>,
    id: u64,
    design: RetainedView<P, Q>,
) -> WorkerView<P, Q> {
    if asked_to_stop(worker, id) {
        worker
    } else {
        WorkerView { retained: Some(design), ..worker }
    }
}

/// Whether a file at the path of these components written at `modified` is the one
/// that was recorded.
pub open spec fn own_output(
    write: Option<WriteView>,
    parts: Seq<Seq<char>>,
    modified: i128,
) -> bool {
    match write {
        None => false,
        Some(write) => write.parts == parts && modified <= (if write.modified
            + VIEW_EDIT_OUTPUT_MTIME_TOLERANCE_NS <= i128::MAX {
            write.modified + VIEW_EDIT_OUTPUT_MTIME_TOLERANCE_NS
        } else {
            write.modified as int
        }),
    }
}

/// What the thread of a run that was started works on.
#[derive(Debug)]
pub struct Job<P> {
    /// The number the thread is known by.
    pub id: u64,
    /// Where its designs go.
    pub retention: Retention<P>,
}

/// What the thread of a generation works on.
#[derive(Debug)]
pub struct ExportJob<P, Q> {
    /// The number the thread is known by.
    pub id: u64,
    /// The design it exports.
    pub design: Arc<Retained<P, Q>>,
}

/// The error in a result, as its characters.
pub open spec fn built_as<P>(built: Result<P, String>) -> Result<P, Seq<char>> {
    match built {
        Ok(problem) => Ok(problem),
        Err(why) => Err(why@),
    }
}

impl<P, Q, S, R, M> View for Worker<P, Q, S, R, M> {
    type V = WorkerView<P, Q>;

    closed spec fn view(&self) -> WorkerView<P, Q> {
        WorkerView {
            current: match self.current {
                Some(run) => Some(
                    RunView { id: run.id, kind: run.kind, done: run.guard.ended() },
                ),
                None => None,
            },
            retired: self.retired@.map_values(|run: Retired| run.id),
            retired_alive: forall|k: int|
                0 <= k < self.retired@.len() ==> !(#[trigger] self.retired@[k]).guard.ended(),
            live: self.threads.live(),
            next: self.next as int,
            output_write: write_of(self.output_write),
            retained: kept_in(self.retained),
            startup_error: crate::config::text_of(self.startup_error),
        }
    }
}

impl<P, Q, S, R, M> Default for Worker<P, Q, S, R, M> {
    fn default() -> (worker: Worker<P, Q, S, R, M>)
        ensures
            worker@.idle(),
            sound(worker@),
    {
        Worker::new()
    }
}

impl<P, Q> WorkerView<P, Q> {
    /// Nothing running, nothing kept and nothing to say.
    pub open spec fn idle(self) -> bool {
        self == (WorkerView::<P, Q> {
            current: None,
            retired: Seq::empty(),
            retired_alive: true,
            live: 0,
            next: 0,
            output_write: None,
            retained: None,
            startup_error: None,
        })
    }
}

impl<P, Q, S, R, M> Worker<P, Q, S, R, M> {
    /// The link of the run in flight.
    pub closed spec fn link(self) -> Option<ViewLink<S, R, Q, M>> {
        match self.current {
            Some(run) => Some(run.link),
            None => None,
        }
    }

    /// A worker with nothing running.
    pub fn new() -> (worker: Worker<P, Q, S, R, M>)
        ensures
            worker@.idle(),
            sound(worker@),
            worker.link() is None,
    {
        let worker = Worker {
            current: None,
            retired: Vec::new(),
            threads: RunProbe { live: 0 },
            next: 0,
            output_write: None,
            retained: None,
            startup_error: None,
        };
        assert(worker@.retired =~= Seq::<u64>::empty());
        worker
    }

    /// What is running, if anything.
    pub fn kind(&self) -> (kind: Option<RunKind>)
        ensures
            kind == (match self@.current {
                Some(run) => Some(run.kind),
                None => None,
            }),
    {
        match &self.current {
            Some(run) => Some(run.kind),
            None => None,
        }
    }

    /// Whether one more run can be numbered and counted.
    pub fn has_room(&self) -> (answer: bool)
        ensures
            answer == has_room(self@),
    {
        self.next < u64::MAX && self.threads.live < usize::MAX
    }

    /// True while a run is going.
    ///
    /// The session's answer, not the threads': a stopped run is no longer
    /// running by this measure the instant it is stopped, while its thread is
    /// still on its way to the next checkpoint. [`Worker::probe`] is the one
    /// that covers that interval.
    pub fn is_running(&self) -> (answer: bool)
        ensures
            answer == running(self@),
    {
        match &self.current {
            Some(run) => !run.guard.is_done(),
            None => false,
        }
    }

    /// How many run threads are alive, for the window's event loop.
    pub fn probe(&self) -> (probe: &RunProbe)
        ensures
            probe.live() == self@.live,
    {
        &self.threads
    }

    /// True while a full run owns the worker: the panel offers "stop" and
    /// refuses "run full", and nothing else may take the worker from it.
    pub fn is_running_full(&self) -> (answer: bool)
        ensures
            answer == (self@.current matches Some(run) && run.kind == RunKind::Full && !run.done),
    {
        match &self.current {
            Some(run) => run.kind == RunKind::Full && !run.guard.is_done(),
            None => false,
        }
    }

    /// True while a run that writes the output file owns the worker: the full
    /// pipeline, or an on-demand stl generation.
    pub fn is_writing(&self) -> (answer: bool)
        ensures
            answer == writing(self@),
    {
        match &self.current {
            Some(run) => run.kind.writes() && !run.guard.is_done(),
            None => false,
        }
    }

    /// The newest design any run of this worker has reported, with the problem
    /// it was produced against.
    ///
    /// Always the field *as the engine produced it*, never one the deliverable
    /// passes have been over: a generation applies those passes to whatever is
    /// here, so a field that had already been through them would come out having
    /// had them applied twice.
    pub fn retained(&self) -> (design: Option<Arc<Retained<P, Q>>>)
        ensures
            kept_in(design) == self@.retained,
    {
        match &self.retained {
            Some(design) => Some(design.clone()),
            None => None,
        }
    }

    /// Whether an on-demand export may be started: there is a design to export,
    /// and nothing that writes the output file is running.
    ///
    /// Deliberately says nothing about the *configuration* being runnable: the
    /// pair being exported carries its own problem, so a design stays exportable
    /// through any edit, however broken.
    pub fn can_generate(&self) -> (answer: bool)
        ensures
            answer == generable(self@),
    {
        !self.is_writing() && self.retained.is_some()
    }

    /// Progress of the current run, for the stats panel.
    pub fn progress(&self) -> (progress: Option<&Progress<S, R, Q>>)
        ensures
            match (progress, self.link()) {
                (Some(progress), Some(link)) => *progress == link.progress,
                (None, None) => true,
                _ => false,
            },
    {
        match &self.current {
            Some(run) => Some(run.link.progress()),
            None => None,
        }
    }

    /// Why the last run could not be started, if it could not.
    pub fn startup_error(&self) -> (why: Option<&str>)
        ensures
            match why {
                Some(why) => self@.startup_error == Some(why@),
                None => self@.startup_error is None,
            },
    {
        match &self.startup_error {
            Some(why) => Some(why.as_str()),
            None => None,
        }
    }

    /// Whether a file at the path of these components whose modification time is `modified` is the one
    /// a run of this worker left behind.
    ///
    /// The recorded time is the file's own, read back after the write, so an
    /// untouched file compares equal. The tolerance is for the filesystems that
    /// do not resolve a timestamp as finely as the write records it, or that
    /// settle it a moment after the handle is closed; it is the width of the
    /// window in which somebody else's write is mistaken for ours.
    pub fn wrote_output(&self, parts: &Vec<String>, modified: i128) -> (answer: bool)
        ensures
            answer == own_output(self@.output_write, lines_of(parts@), modified),
    {
        match &self.output_write {
            None => false,
            Some(write) => {
                let latest: i128 = match write.modified.checked_add(
                    VIEW_EDIT_OUTPUT_MTIME_TOLERANCE_NS,
                ) {
                    Some(latest) => latest,
                    None => write.modified,
                };
                same_lines(&write.parts, parts) && modified <= latest
            },
        }
    }

    /// Note the file a run has just written, with the modification time it
    /// turned out to have.
    ///
    /// A file whose time could not be read records nothing, which leaves the
    /// editor warning that it was written elsewhere: the harmless way round,
    /// since the warning is advice and the alternative is silence about a real
    /// overwrite.
    pub fn record_write(&mut self, parts: Vec<String>, modified: Option<i128>)
        requires
            sound(old(self)@),
        ensures
            final(self)@ == (match modified {
                Some(modified) => WorkerView {
                    output_write: Some(WriteView { parts: lines_of(parts@), modified }),
                    ..old(self)@
                },
                None => old(self)@,
            }),
            final(self).link() == old(self).link(),
            sound(final(self)@),
    {
        match modified {
            Some(modified) => {
                self.output_write = Some(OutputWrite { parts, modified });
            },
            None => {},
        }
    }

    /// Take the newest rendered surface the current run has produced.
    pub fn take_frame(&mut self) -> (frame: Option<Frame<M>>)
        ensures
            final(self)@ == old(self)@,
            match (old(self).link(), final(self).link()) {
                (Some(before), Some(after)) => {
                    &&& frame == before.frames@.value
                    &&& after.frames@ == taken(before.frames@)
                    &&& after.densities == before.densities
                    &&& after.progress == before.progress
                    &&& after.detached == before.detached
                },
                (None, None) => frame is None,
                _ => false,
            },
    {
        match &mut self.current {
            Some(run) => run.link.frames.try_take(),
            None => None,
        }
    }

    /// The link the thread of that number reports through.
    ///
    /// A run that was stopped has none: its window went away with it, and what
    /// it still says reaches nobody.
    pub fn link_of(&mut self, id: u64) -> (link: Option<&mut ViewLink<S, R, Q, M>>)
        ensures
            link is Some == !asked_to_stop(old(self)@, id),
            match link {
                Some(link) => {
                    &&& old(self).link() == Some(*link)
                    &&& final(self).link() == Some(*final(link))
                },
                None => final(self).link() == old(self).link(),
            },
            final(self)@ == old(self)@,
    {
        match &mut self.current {
            Some(run) => if run.id == id {
                Some(&mut run.link)
            } else {
                None
            },
            None => None,
        }
    }

    /// Whether the run of that number is to stop.
    pub fn cancelled(&self, id: u64) -> (answer: bool)
        ensures
            answer == asked_to_stop(self@, id),
    {
        match &self.current {
            Some(run) => run.id != id,
            None => true,
        }
    }

    /// Keep a design of the run of that number, unless it was asked to stop.
    pub fn keep(
        &mut self,
        id: u64,
        retention: &Retention<P>,
        densities: Vec<Scalar>,
        reduce: Option<Q>,
    )
        requires
            sound(old(self)@),
        ensures
            final(self)@ == design_kept(
                old(self)@,
                id,
                RetainedView { problem: retention.of(), densities: densities@, reduce },
            ),
            final(self).link() == old(self).link(),
            sound(final(self)@),
    {
        let cancelled = self.cancelled(id);
        retention.keep(&mut self.retained, densities, reduce, cancelled);
    }

    /// Ask an auto-regrow preview to stop, because a newer edit has made it
    /// obsolete. A run that writes is left alone: it is producing a file the
    /// user asked for, and only the stop button takes that away.
    pub fn cancel_preview(&mut self)
        requires
            sound(old(self)@),
        ensures
            final(self)@ == preview_cancelled(old(self)@),
            final(self).link() == (if old(self)@.current matches Some(run) && run.kind
                == RunKind::Preview {
                None
            } else {
                old(self).link()
            }),
            sound(final(self)@),
    {
        let preview = match &self.current {
            Some(run) => run.kind == RunKind::Preview,
            None => false,
        };
        if preview {
            self.stop();
        }
    }

    /// Stop whatever is running, whatever kind it is.
    ///
    /// A stopped run never reaches its export: it writes no file, not a partial
    /// one and not by accident. Idempotent, and a no-op when nothing is running.
    ///
    /// What it does *not* do is throw the design away. The field the run had
    /// reached stays, because that is what is on screen and the user may still
    /// want its deliverables; [`Worker::generate`] is how they ask.
    pub fn stop(&mut self)
        requires
            sound(old(self)@),
        ensures
            final(self)@ == stopped(old(self)@),
            final(self).link() is None,
            sound(final(self)@),
    {
        let ghost before = self@;
        match self.current.take() {
            None => {},
            Some(run) => {
                if !run.guard.is_done() {
                    self.retired.push(Retired { id: run.id, guard: run.guard });
                    proof {
                        assert(self@.retired =~= before.retired.push(run.id));
                        lemma_one_more_retired(before, run.id);
                    }
                }
            },
        }
    }

    /// Record that the thread of that number has ended, however it ended. Saying so twice
    /// is saying so once.
    pub fn ended(&mut self, id: u64)
        requires
            sound(old(self)@),
        ensures
            final(self)@ == thread_ended(old(self)@, id),
            final(self).link() == old(self).link(),
            sound(final(self)@),
    {
        let ghost before = self@;
        match &mut self.current {
            Some(run) => {
                if run.id == id {
                    self.threads.leave(&mut run.guard);
                    return;
                }
            },
            None => {},
        }
        let ghost retired = self.retired@;
        let mut k: usize = 0;
        while k < self.retired.len() && self.retired[k].id != id
            invariant
                k <= self.retired.len(),
                *self == *old(self),
                self@ == before,
                self.retired@ == retired,
                forall|j: int| 0 <= j < k ==> (#[trigger] before.retired[j]) != id,
            decreases self.retired.len() - k,
        {
            assert(before.retired[k as int] == retired[k as int].id);
            k = k + 1;
        }
        if k == self.retired.len() {
            return;
        }
        assert(before.retired[k as int] == id);
        assert(before.retired.contains(id));
        let mut gone = self.retired.remove(k);
        self.threads.leave(&mut gone.guard);
        proof {
            assert(self@.retired =~= before.retired.remove(k as int));
            assert forall|j: int| 0 <= j < self.retired@.len() implies !(
            #[trigger] self.retired@[j]).guard.ended() by {
                assert(self.retired@[j] == retired[if j < k {
                    j
                } else {
                    j + 1
                }]);
            }
            lemma_one_fewer_retired(before, id, k as int);
        }
    }

    /// Forget every run, once the threads of all of them have ended.
    pub fn join(&mut self)
        requires
            sound(old(self)@),
            old(self)@.live == 0,
        ensures
            final(self)@ == (WorkerView { current: None, ..old(self)@ }),
            final(self).link() is None,
            sound(final(self)@),
    {
        self.current = None;
    }
}

/// Stopping a run that was going moves it to the retired ones.
proof fn lemma_one_more_retired<P, Q>(worker: WorkerView<P, Q>, id: u64)
    requires
        sound(worker),
        worker.current matches Some(run) && run.id == id && !run.done,
    ensures
        sound(stopped(worker)),
{
    let after = stopped(worker);
    assert(after.retired == worker.retired.push(id));
    assert(after.retired.no_duplicates());
}

/// A retired thread that ended leaves a sound worker behind.
proof fn lemma_one_fewer_retired<P, Q>(worker: WorkerView<P, Q>, id: u64, k: int)
    requires
        sound(worker),
        0 <= k < worker.retired.len(),
        worker.retired[k] == id,
        !(worker.current matches Some(run) && run.id == id),
    ensures
        worker.retired.index_of(id) == k,
        sound(thread_ended(worker, id)),
{
    assert(worker.retired.contains(id));
    let found = worker.retired.index_of(id);
    assert(worker.retired[found] == id);
    assert(found == k);
    let after = thread_ended(worker, id);
    assert(after.retired == worker.retired.remove(k));
    assert forall|j: int| 0 <= j < after.retired.len() implies (#[trigger] after.retired[j])
        < after.next by {
        assert(after.retired[j] == worker.retired[if j < k {
            j
        } else {
            j + 1
        }]);
    }
    if let Some(run) = worker.current {
        if after.retired.contains(run.id) {
            let j = choose|j: int| 0 <= j < after.retired.len() && after.retired[j] == run.id;
            assert(worker.retired[if j < k {
                j
            } else {
                j + 1
            }] == run.id);
        }
    }
}

impl<P, Q, S, R, M> Worker<P, Q, S, R, M> {
    /// Make a run of `kind` the current one, and hand back the number its thread
    /// is known by.
    ///
    /// Counted here, before the thread exists, so the window can never observe a
    /// gap between starting a run and its thread being alive.
    fn launch(&mut self, kind: RunKind) -> (id: u64)
        requires
            sound(old(self)@),
            has_room(old(self)@),
            !running(old(self)@),
        ensures
            final(self)@ == launched(old(self)@, kind),
            final(self).link() matches Some(link) && link.untouched(),
            id == old(self)@.next,
            sound(final(self)@),
    {
        let ghost before = self@;
        let id = self.next;
        self.next = id + 1;
        let guard = self.threads.enter();
        self.current = Some(Run { id, kind, link: ViewLink::new(), guard });
        proof {
            if before.retired.contains(id) {
                let k = choose|k: int| 0 <= k < before.retired.len() && before.retired[k] == id;
                assert(before.retired[k] < before.next);
            }
        }
        id
    }

    /// Start a run, replacing whatever was running, on the problem `build`
    /// makes of a configuration.
    ///
    /// The error is what `build` said, when the configuration cannot be turned
    /// into a problem; the caller shows it and nothing starts. `Ok(None)` is a
    /// worker that a run that writes owns: it owns it until its file is there, or
    /// until the stop button takes it away.
    ///
    /// [`RunKind::Export`] is not one of these. It runs on a design a run
    /// already produced rather than on a configuration, and [`Worker::generate`]
    /// is where it starts; asked for here, it is refused with that reason, before
    /// anything is touched.
    pub fn start<F: FnOnce() -> Result<P, String>>(
        &mut self,
        build: F,
        kind: RunKind,
    ) -> (job: Result<Option<Job<P>>, String>)
        requires
            sound(old(self)@),
            has_room(old(self)@),
            build.requires(()),
        ensures
            sound(final(self)@),
            kind == RunKind::Export ==> {
                &&& final(self)@ == (WorkerView {
                    startup_error: Some(EXPORT_REFUSED@),
                    ..old(self)@
                })
                &&& final(self).link() == old(self).link()
                &&& job matches Err(why) && why@ == EXPORT_REFUSED@
            },
            kind != RunKind::Export && writing(old(self)@) ==> {
                &&& final(self)@ == old(self)@
                &&& final(self).link() == old(self).link()
                &&& job matches Ok(None)
            },
            kind != RunKind::Export && !writing(old(self)@) ==> exists|built: Result<P, String>|
                {
                    &&& #[trigger] build.ensures((), built)
                    &&& final(self)@ == started(old(self)@, kind, built_as(built))
                    &&& match built {
                        Ok(problem) => {
                            &&& job matches Ok(Some(job)) && job.id == old(self)@.next
                                && job.retention.of() == problem
                            &&& final(self).link() matches Some(link) && link.untouched()
                        },
                        Err(why) => {
                            &&& job matches Err(said) && said@ == why@
                            &&& final(self).link() == (if old(self)@.current matches Some(run)
                                && run.kind == RunKind::Preview {
                                None
                            } else {
                                old(self).link()
                            })
                        },
                    }
                },
    {
        if kind == RunKind::Export {
            self.startup_error = Some(EXPORT_REFUSED.to_owned());
            return Err(EXPORT_REFUSED.to_owned());
        }
        self.cancel_preview();
        if self.is_writing() {
            return Ok(None);
        }
        let built = build();
        match self.begin(kind, built) {
            Ok(job) => Ok(Some(job)),
            Err(why) => Err(why),
        }
    }

    /// Start a run of `kind` on the problem that was built for it, or record why
    /// none could be.
    ///
    /// Whatever design was kept belonged to the run that produced it and to the
    /// configuration that run was of. Until this one has reported one of its own
    /// there is nothing on screen, and so nothing to export.
    pub fn begin(&mut self, kind: RunKind, built: Result<P, String>) -> (job: Result<
        Job<P>,
        String,
    >)
        requires
            sound(old(self)@),
            has_room(old(self)@),
            kind != RunKind::Export,
            old(self)@ == preview_cancelled(old(self)@),
            !writing(old(self)@),
        ensures
            sound(final(self)@),
            final(self)@ == started(old(self)@, kind, built_as(built)),
            match built {
                Ok(problem) => {
                    &&& job matches Ok(job) && job.id == old(self)@.next && job.retention.of()
                        == problem
                    &&& final(self).link() matches Some(link) && link.untouched()
                },
                Err(why) => {
                    &&& job matches Err(said) && said@ == why@
                    &&& final(self).link() == old(self).link()
                },
            },
    {
        match built {
            Ok(problem) => {
                self.startup_error = None;
                self.retained = None;
                let id = self.launch(kind);
                Ok(Job { id, retention: Retention::new(problem) })
            },
            Err(why) => {
                self.startup_error = Some(why.as_str().to_owned());
                Err(why)
            },
        }
    }

    /// Start an export of the design that was kept.
    ///
    /// This is the one path on which a *stopped* run leaves a file behind, and
    /// what leaves it is this call rather than the stop. `None` when there is
    /// nothing to export or something that writes is already running.
    pub fn generate(&mut self) -> (job: Option<ExportJob<P, Q>>)
        requires
            sound(old(self)@),
            has_room(old(self)@),
        ensures
            sound(final(self)@),
            final(self)@ == generated(old(self)@),
            match job {
                Some(job) => {
                    &&& generable(old(self)@)
                    &&& job.id == old(self)@.next
                    &&& old(self)@.retained == Some(job.design@)
                    &&& final(self).link() matches Some(link) && link.untouched()
                },
                None => {
                    &&& !generable(old(self)@)
                    &&& final(self).link() == old(self).link()
                },
            },
    {
        if !self.can_generate() {
            return None;
        }
        let design = match self.retained() {
            Some(design) => design,
            None => {
                return None;
            },
        };
        self.cancel_preview();
        self.startup_error = None;
        let id = self.launch(RunKind::Export);
        Some(ExportJob { id, design })
    }
}

/// What an engine hands over when it is done.
#[derive(Debug)]
pub struct EngineField<Q> {
    /// Physical density of every cell, in grid element order.
    pub densities: Vec<Scalar>,
    /// The schedule that chose the design, when a schedule did.
    pub reduce: Option<Q>,
    /// Iterations it took.
    pub iterations: usize,
}

impl<P, Q, S, R, M> Worker<P, Q, S, R, M> {
    /// Record how the engine of a preview ended. Nothing is analysed and nothing
    /// is written.
    ///
    /// The design is kept like any other run's, which is what makes a generation
    /// export what is on screen. Returns the iterations it took, when there is a
    /// design whose surface is to be shown: a preview that was cancelled shows
    /// nothing, and one that failed says why instead. The status of one that
    /// succeeded is left alone, because none of the stages a status describes has
    /// happened.
    pub fn preview_designed(
        &mut self,
        id: u64,
        retention: &Retention<P>,
        field: Result<EngineField<Q>, String>,
    ) -> (shown: Option<usize>)
        requires
            sound(old(self)@),
        ensures
            sound(final(self)@),
            match field {
                Ok(field) => {
                    &&& final(self)@ == design_kept(
                        old(self)@,
                        id,
                        RetainedView {
                            problem: retention.of(),
                            densities: field.densities@,
                            reduce: field.reduce,
                        },
                    )
                    &&& final(self).link() == old(self).link()
                    &&& shown == (if asked_to_stop(old(self)@, id) {
                        None
                    } else {
                        Some(field.iterations)
                    })
                },
                Err(why) => {
                    &&& final(self)@ == old(self)@
                    &&& shown is None
                    &&& asked_to_stop(old(self)@, id) ==> final(self).link() == old(self).link()
                    &&& !asked_to_stop(old(self)@, id) ==> {
                        let before = old(self).link()->0;
                        let after = final(self).link()->0;
                        &&& final(self).link() is Some
                        &&& after.progress.status matches RunStatus::Failed(said) && said@ == why@
                        &&& after == (ViewLink {
                            progress: Progress {
                                status: after.progress.status,
                                ..before.progress
                            },
                            ..before
                        })
                    }
                },
            },
    {
        match field {
            Ok(field) => {
                if self.cancelled(id) {
                    return None;
                }
                self.keep(id, retention, field.densities, field.reduce);
                Some(field.iterations)
            },
            Err(why) => {
                match self.link_of(id) {
                    Some(link) => {
                        link.set_status(RunStatus::Failed(why));
                    },
                    None => {},
                }
                None
            },
        }
    }
}

impl<P, Q: Copy, S, R, M> Worker<P, Q, S, R, M> {
    /// Record how the engine of a full run ended, and hand its field on to the
    /// passes.
    ///
    /// What is kept is the engine's own field, from before the passes resolve it in
    /// place: a generation runs those passes itself, and running them on what they
    /// have already been over would be running them twice. The field of a run that
    /// was stopped is handed on all the same and kept nowhere, and a run that failed
    /// keeps nothing and says why.
    pub fn run_designed(
        &mut self,
        id: u64,
        retention: &Retention<P>,
        field: Result<EngineField<Q>, String>,
    ) -> (handed: Result<EngineField<Q>, String>)
        requires
            sound(old(self)@),
        ensures
            sound(final(self)@),
            match field {
                Ok(made) => {
                    &&& handed == field
                    &&& final(self)@ == design_kept(
                        old(self)@,
                        id,
                        RetainedView {
                            problem: retention.of(),
                            densities: made.densities@,
                            reduce: made.reduce,
                        },
                    )
                    &&& final(self).link() == old(self).link()
                },
                Err(why) => {
                    &&& handed matches Err(said) && said@ == why@
                    &&& final(self)@ == old(self)@
                    &&& asked_to_stop(old(self)@, id) ==> final(self).link() == old(self).link()
                    &&& !asked_to_stop(old(self)@, id) ==> {
                        let before = old(self).link()->0;
                        let after = final(self).link()->0;
                        &&& final(self).link() is Some
                        &&& after.progress.status matches RunStatus::Failed(said) && said@ == why@
                        &&& after == (ViewLink {
                            progress: Progress {
                                status: after.progress.status,
                                ..before.progress
                            },
                            ..before
                        })
                    }
                },
            },
    {
        match field {
            Ok(field) => {
                let densities = copied(&field.densities);
                self.keep(id, retention, densities, field.reduce);
                Ok(field)
            },
            Err(why) => {
                match self.link_of(id) {
                    Some(link) => {
                        link.set_status(RunStatus::Failed(why.as_str().to_owned()));
                    },
                    None => {},
                }
                Err(why)
            },
        }
    }
}

/// Whether two lists of texts are the same.
fn same_lines(a: &Vec<String>, b: &Vec<String>) -> (answer: bool)
    ensures
        answer == (lines_of(a@) == lines_of(b@)),
{
    if a.len() != b.len() {
        assert(lines_of(a@).len() != lines_of(b@).len());
        return false;
    }
    let mut k: usize = 0;
    while k < a.len()
        invariant
            k <= a.len(),
            a.len() == b.len(),
            forall|j: int| 0 <= j < k ==> #[trigger] a@[j]@ == b@[j]@,
        decreases a.len() - k,
    {
        if a[k] != b[k] {
            assert(lines_of(a@)[k as int] != lines_of(b@)[k as int]);
            return false;
        }
        k = k + 1;
    }
    assert(lines_of(a@) =~= lines_of(b@));
    true
}

/// How a run that writes ended.
#[derive(Debug)]
pub enum RunOutcome {
    /// The file was written.
    Wrote {
        /// Where it went.
        path: FilePath,
        /// What the part came out at, line by line; none where the stress solve
        /// produced no report.
        stress: Vec<String>,
    },
    /// It was asked to stop, and wrote nothing.
    Stopped,
    /// It failed, and wrote nothing.
    Failed {
        /// The formatted error chain.
        error: String,
    },
}

/// What is said of a run that ended, on the session's console.
#[derive(Debug)]
pub struct Said {
    /// Lines for the standard output.
    pub out: Vec<String>,
    /// Lines for the standard error.
    pub failure: Vec<String>,
}

/// The characters of every line of a list.
pub open spec fn lines_of(lines: Seq<String>) -> Seq<Seq<char>> {
    lines.map_values(|line: String| line@)
}

/// The lines about a part that was written: where it went, then what it came out
/// at, each under the name of what says it.
pub open spec fn wrote_lines(path: Seq<char>, stress: Seq<Seq<char>>) -> Seq<Seq<char>> {
    seq!["editor wrote  "@ + path] + stress.map_values(
        |line: Seq<char>| "editor stress "@ + line,
    )
}

/// The first column of what is said of a run.
pub open spec fn column_of(kind: RunKind) -> Seq<char> {
    if kind == RunKind::Export {
        "editor stl    "@
    } else {
        "editor run    "@
    }
}

/// The lines on the standard output about a run of `kind` that ended so.
pub open spec fn out_lines(kind: RunKind, outcome: RunOutcome) -> Seq<Seq<char>> {
    match outcome {
        RunOutcome::Wrote { path, stress } => wrote_lines(path.text@, lines_of(stress@)),
        RunOutcome::Stopped => seq![column_of(kind) + "stopped; no file was written"@],
        RunOutcome::Failed { error } => seq![],
    }
}

/// The lines on the standard error about it.
pub open spec fn failure_lines(kind: RunKind, outcome: RunOutcome) -> Seq<Seq<char>> {
    match outcome {
        RunOutcome::Failed { error } => seq![
            column_of(kind) + "failed and wrote nothing: "@ + error@,
            column_of(kind) + (if kind == RunKind::Export {
                "the session is unaffected; the design is still there to try again from"@
            } else {
                "the session is unaffected; change the configuration and run again"@
            }),
        ],
        _ => seq![],
    }
}

/// The stress lines of a part that was written, as the console has them.
///
/// The lines the panel draws, beside the line that says where the file went: a
/// user who has the terminal in front of them reads the safety factor there, and
/// one who has the window in front of them reads the same number in it.
fn echo_stress(out: &mut Vec<String>, stress: &Vec<String>)
    ensures
        lines_of(final(out)@) == lines_of(old(out)@) + lines_of(stress@).map_values(
            |line: Seq<char>| "editor stress "@ + line,
        ),
{
    let ghost before = out@;
    let mut k: usize = 0;
    while k < stress.len()
        invariant
            k <= stress.len(),
            lines_of(out@) == lines_of(before) + lines_of(stress@).take(k as int).map_values(
                |line: Seq<char>| "editor stress "@ + line,
            ),
        decreases stress.len() - k,
    {
        let ghost said = out@;
        out.push(joined("editor stress ", stress[k].as_str()));
        proof {
            assert(lines_of(out@) =~= lines_of(said).push("editor stress "@ + stress@[k as int]@));
            assert(lines_of(stress@).take(k + 1) =~= lines_of(stress@).take(k as int).push(
                stress@[k as int]@,
            ));
        }
        k = k + 1;
        assert(lines_of(out@) =~= lines_of(before) + lines_of(stress@).take(
            k as int,
        ).map_values(|line: Seq<char>| "editor stress "@ + line));
    }
    assert(lines_of(stress@).take(k as int) =~= lines_of(stress@));
    assert(lines_of(before) + lines_of(stress@).take(k as int).map_values(
        |line: Seq<char>| "editor stress "@ + line,
    ) =~= lines_of(before) + lines_of(stress@).map_values(
        |line: Seq<char>| "editor stress "@ + line,
    ));
}

/// What is said of a run of `kind` that ended.
///
/// A failure deliberately does not read like the process failing: an editor
/// session survives a run that fails, and the window is still there to fix it
/// in.
pub fn said_of(kind: RunKind, outcome: &RunOutcome) -> (said: Said)
    ensures
        lines_of(said.out@) == out_lines(kind, *outcome),
        lines_of(said.failure@) == failure_lines(kind, *outcome),
{
    let column: &'static str = match kind {
        RunKind::Export => "editor stl    ",
        RunKind::Preview => "editor run    ",
        RunKind::Full => "editor run    ",
    };
    let mut out: Vec<String> = Vec::new();
    let mut failure: Vec<String> = Vec::new();
    match outcome {
        RunOutcome::Wrote { path, stress } => {
            out.push(joined("editor wrote  ", path.text.as_str()));
            assert(lines_of(out@) =~= seq!["editor wrote  "@ + path.text@]);
            echo_stress(&mut out, stress);
        },
        RunOutcome::Stopped => {
            out.push(joined(column, "stopped; no file was written"));
        },
        RunOutcome::Failed { error } => {
            let mut first = joined(column, "failed and wrote nothing: ");
            first.append(error.as_str());
            failure.push(first);
            let second = match kind {
                RunKind::Export => joined(
                    column,
                    "the session is unaffected; the design is still there to try again from",
                ),
                RunKind::Preview => joined(
                    column,
                    "the session is unaffected; change the configuration and run again",
                ),
                RunKind::Full => joined(
                    column,
                    "the session is unaffected; change the configuration and run again",
                ),
            };
            failure.push(second);
        },
    }
    assert(lines_of(out@) =~= out_lines(kind, *outcome));
    assert(lines_of(failure@) =~= failure_lines(kind, *outcome));
    Said { out, failure }
}

impl<P, Q, S, R, M> Worker<P, Q, S, R, M> {
    /// Record how a run that writes ended, and say it.
    ///
    /// `modified` is the modification time of the file that was written, where
    /// there is one and it could be read. The record is made here and nowhere
    /// else: this is the one moment at which the file is known to have been
    /// written, which is what lets the editor tell its own output from one
    /// something else overwrote.
    pub fn run_over(&mut self, kind: RunKind, outcome: RunOutcome, modified: Option<i128>) -> (said:
        Said)
        requires
            sound(old(self)@),
        ensures
            sound(final(self)@),
            final(self).link() == old(self).link(),
            final(self)@ == (match (outcome, modified) {
                (RunOutcome::Wrote { path, .. }, Some(modified)) => WorkerView {
                    output_write: Some(WriteView { parts: lines_of(path.parts@), modified }),
                    ..old(self)@
                },
                _ => old(self)@,
            }),
            lines_of(said.out@) == out_lines(kind, outcome),
            lines_of(said.failure@) == failure_lines(kind, outcome),
    {
        let said = said_of(kind, &outcome);
        match outcome {
            RunOutcome::Wrote { path, .. } => {
                self.record_write(path.parts, modified);
            },
            RunOutcome::Stopped => {},
            RunOutcome::Failed { .. } => {},
        }
        said
    }
}

/// One run that writes owns the worker at a time: while one is going, neither an
/// edit's preview nor another full run nor a generation takes the worker, the
/// design or the thread count from it.
pub proof fn law_one_writer_owns_the_worker<P, Q>(
    worker: WorkerView<P, Q>,
    kind: RunKind,
    built: Result<P, Seq<char>>,
)
    requires
        writing(worker),
    ensures
        preview_cancelled(worker) == worker,
        kind != RunKind::Export ==> started(worker, kind, built) == worker,
        !generable(worker),
        generated(worker) == worker,
{
}

/// Stopping hands the worker back at once and throws nothing away: nothing is
/// running or writing, the design and the record of the last write stay, the
/// thread is still counted, and the kept design may be exported. Stopping again
/// changes nothing.
pub proof fn law_stopping_keeps_the_design_and_frees_the_worker<P, Q>(worker: WorkerView<P, Q>)
    requires
        sound(worker),
    ensures
        sound(stopped(worker)),
        !running(stopped(worker)),
        !writing(stopped(worker)),
        stopped(worker).retained == worker.retained,
        stopped(worker).output_write == worker.output_write,
        stopped(worker).live == worker.live,
        generable(stopped(worker)) == (worker.retained is Some),
        stopped(stopped(worker)) == stopped(worker),
{
    if running(worker) {
        lemma_one_more_retired(worker, worker.current->0.id);
    }
}

/// What a generation exports is the engine's own field, whatever the passes made of
/// the one they were handed: the design a full run kept is there when the run has
/// ended, when it was stopped, and when the generation has begun.
pub proof fn law_a_generation_exports_the_engines_own_field<P, Q>(
    worker: WorkerView<P, Q>,
    id: u64,
    design: RetainedView<P, Q>,
)
    requires
        sound(worker),
        has_room(worker),
        !asked_to_stop(worker, id),
    ensures
        ({
            let kept = design_kept(worker, id, design);
            &&& kept.retained == Some(design)
            &&& thread_ended(kept, id).retained == Some(design)
            &&& generable(thread_ended(kept, id))
            &&& generated(thread_ended(kept, id)).retained == Some(design)
            &&& stopped(kept).retained == Some(design)
            &&& generable(stopped(kept))
            &&& generated(stopped(kept)).retained == Some(design)
        }),
{
}

/// A run that was stopped keeps no design of its own any more, neither at once
/// nor once a run that replaced it has started: what it hands over leaves the
/// slot as it is.
pub proof fn law_a_stopped_run_keeps_nothing<P, Q>(
    worker: WorkerView<P, Q>,
    kind: RunKind,
    problem: P,
    design: RetainedView<P, Q>,
)
    requires
        sound(worker),
        has_room(worker),
        worker.current is Some,
        kind != RunKind::Export,
    ensures
        ({
            let id = worker.current->0.id;
            let free = stopped(worker);
            let replaced = started(free, kind, Ok(problem));
            &&& design_kept(free, id, design) == free
            &&& design_kept(replaced, id, design) == replaced
            &&& replaced.retained is None
        }),
{
}

/// A thread is counted until it has ended: stopping its run and starting others
/// leaves it counted, and its end takes it and no other out, once, and marks its own
/// run and no other.
pub proof fn law_the_probe_counts_a_thread_until_it_ends<P, Q>(
    worker: WorkerView<P, Q>,
    id: u64,
    other: u64,
)
    requires
        sound(worker),
        alive(worker, id),
        alive(worker, other),
        id != other,
    ensures
        worker.live >= 2,
        alive(stopped(worker), id),
        stopped(worker).live == worker.live,
        thread_ended(worker, id).live == worker.live - 1,
        !alive(thread_ended(worker, id), id),
        alive(thread_ended(worker, id), other),
        thread_ended(thread_ended(worker, id), id) == thread_ended(worker, id),
        worker.current matches Some(run) ==> {
            let after = thread_ended(worker, id).current;
            after == Some(RunView { done: run.done || run.id == id, ..run })
        },
{
    let retired = worker.retired;
    if let Some(run) = worker.current {
        if !run.done {
            assert(stopped(worker).retired[retired.len() as int] == run.id);
            assert(stopped(worker).retired.contains(run.id));
        }
    }
    if retired.contains(id) {
        let k = retired.index_of(id);
        assert(retired[k] == id);
        assert(stopped(worker).retired[k] == id);
        assert(!(worker.current matches Some(run) && run.id == id));
        lemma_one_fewer_retired(worker, id, k);
        let left = retired.remove(k);
        if left.contains(id) {
            let j = choose|j: int| 0 <= j < left.len() && left[j] == id;
            assert(retired[if j < k {
                j
            } else {
                j + 1
            }] == id);
        }
        if retired.contains(other) {
            let j = retired.index_of(other);
            assert(retired[j] == other);
            assert(left[if j < k {
                j
            } else {
                j - 1
            }] == other);
        }
    } else if retired.contains(other) {
        let j = retired.index_of(other);
        assert(retired[j] == other);
    }
}

/// A generation exports the design that is kept and leaves it kept, so that
/// generating once more exports the same design again.
pub proof fn law_generating_leaves_the_design<P, Q>(worker: WorkerView<P, Q>)
    requires
        sound(worker),
        has_room(worker),
        generable(worker),
    ensures
        generated(worker).retained == worker.retained,
        writing(generated(worker)),
        generable(thread_ended(generated(worker), worker.next as u64)),
{
}

/// An untouched file of the worker's own is recognised, and one somebody wrote
/// more than the tolerance later is not, nor one at another path.
pub proof fn law_an_own_file_is_told_from_an_overwritten_one(
    parts: Seq<Seq<char>>,
    other: Seq<Seq<char>>,
    written: i128,
    modified: i128,
)
    requires
        written + VIEW_EDIT_OUTPUT_MTIME_TOLERANCE_NS <= i128::MAX,
    ensures
        ({
            let record = Some(WriteView { parts, modified: written });
            &&& own_output(record, parts, written)
            &&& own_output(record, parts, modified) == (modified - written
                <= VIEW_EDIT_OUTPUT_MTIME_TOLERANCE_NS)
            &&& other != parts ==> !own_output(record, other, modified)
        }),
{
}

} // verus!
