//! A run behind a window: what is shown of it while it goes, what is published
//! when it ends, and what the caller is told.

use vstd::prelude::*;
use vstd::string::*;

use crate::constants::{VIEW_PREVIEW_MIN_INTERVAL_NS, VIEW_WINDOW_TITLE};
use crate::scalar::Scalar;
use crate::scene::Scene;
use crate::snapshot::{
    pushed, shut, taken, takes_one_more, DensitySnapshot, Frame, FrameKind, Progress, RunStatus,
    SlotView, ViewLink,
};
use crate::text::joined;

verus! {

/// What both the window and the console call a worker that panicked.
pub const PANICKED: &'static str = "the optimization thread panicked";

/// What is said of a run that came back without an outcome.
pub const STOPPED_EARLY: &'static str = "the run was stopped before it could export";

/// The title of a window on a project of that name.
pub open spec fn title_of(name: Seq<char>) -> Seq<char> {
    VIEW_WINDOW_TITLE@ + " - "@ + name
}

/// The title of the window on a project: the build, and the project.
pub fn window_title(name: &str) -> (title: String)
    ensures
        title@ == title_of(name@),
{
    let mut title = joined(VIEW_WINDOW_TITLE, " - ");
    title.append(name);
    title
}

/// What is to be done next towards a window on a problem setup.
#[derive(Debug)]
pub enum SetupStep<V> {
    /// Build the scene.
    Build,
    /// Open the window.
    Show {
        /// Its title.
        title: String,
        /// What it shows.
        scene: Scene<V>,
    },
    /// Nothing: it came to this.
    Over {
        /// What it came to.
        outcome: Result<(), String>,
    },
}

/// What follows the probe of an adapter, which comes first: nothing is built for a
/// machine that cannot show it, and no window is left half open.
pub fn setup_probed<V>(adapter: Result<(), String>) -> (step: SetupStep<V>)
    ensures
        match adapter {
            Err(why) => step == (SetupStep::<V>::Over { outcome: Err(why) }),
            Ok(_) => step is Build,
        },
{
    match adapter {
        Err(why) => SetupStep::Over { outcome: Err(why) },
        Ok(_) => SetupStep::Build,
    }
}

/// What follows the building of the scene: the window opens on it, or not at all.
/// Nothing is optimized and nothing is written.
pub fn setup_built<V>(name: &str, scene: Result<Scene<V>, String>) -> (step: SetupStep<V>)
    ensures
        match scene {
            Err(why) => step == (SetupStep::<V>::Over { outcome: Err(why) }),
            Ok(built) => step matches SetupStep::Show { title, scene } && title@ == title_of(name@)
                && scene == built,
        },
{
    match scene {
        Err(why) => SetupStep::Over { outcome: Err(why) },
        Ok(scene) => SetupStep::Show { title: window_title(name), scene },
    }
}

/// What a link's channels are once the scope that fed them is over: closed, or
/// detached where it is the window that went away.
///
/// Asked on the panicking path as well as the normal one. The mesher waits on
/// the snapshot channel, so an unwind that skipped the close would leave it
/// waiting for ever.
pub fn close_link<S, R, Q, M>(link: &mut ViewLink<S, R, Q, M>, detach: bool)
    ensures
        final(link).densities@ == shut(old(link).densities@),
        final(link).frames@ == (if detach {
            shut(old(link).frames@)
        } else {
            old(link).frames@
        }),
        final(link).detached == (old(link).detached || detach),
        final(link).progress == old(link).progress,
{
    if detach {
        link.detach();
    } else {
        link.densities.close();
    }
}

/// Whether a status says that the worker panicked.
pub open spec fn says_panicked(status: RunStatus) -> bool {
    status matches RunStatus::Failed(why) && why@ == PANICKED@
}

/// Mark the run failed if its worker is unwinding rather than returning.
///
/// A panic never reaches what reports an error, so without this the window would
/// sit on stale stats until someone closed it. A worker that returns is left as
/// it is.
pub fn fail_on_panic<S, R, Q, M>(link: &mut ViewLink<S, R, Q, M>, panicking: bool)
    ensures
        panicking ==> says_panicked(final(link).progress.status),
        *final(link) == (ViewLink {
            progress: Progress {
                status: if panicking {
                    final(link).progress.status
                } else {
                    old(link).progress.status
                },
                ..old(link).progress
            },
            ..*old(link)
        }),
{
    if panicking {
        link.set_status(RunStatus::Failed(PANICKED.to_owned()));
    }
}

/// What the caller of a run behind a window is told, `joined` being what its
/// worker thread came back with and `None` a thread that panicked.
pub fn run_outcome<O>(worker: Option<Result<Option<O>, String>>) -> (outcome: Result<O, String>)
    ensures
        match worker {
            None => outcome matches Err(why) && why@ == PANICKED@,
            Some(Err(why)) => outcome == Err::<O, String>(why),
            Some(Ok(None)) => outcome matches Err(why) && why@ == STOPPED_EARLY@,
            Some(Ok(Some(done))) => outcome == Ok::<O, String>(done),
        },
{
    match worker {
        None => Err(PANICKED.to_owned()),
        Some(Err(why)) => Err(why),
        Some(Ok(None)) => Err(STOPPED_EARLY.to_owned()),
        Some(Ok(Some(done))) => Ok(done),
    }
}

/// What is printed when the window of a run stopped and the run goes on.
pub fn viewer_stopped(error: &str) -> (line: String)
    ensures
        line@ == "warning: the viewer stopped ("@ + error@ + "); the run continues headless"@,
{
    let mut line = joined("warning: the viewer stopped (", error);
    line.append("); the run continues headless");
    line
}

/// Record how the engine ended: a failure reaches the window, and the field is
/// handed on as it came.
pub fn optimized<F, S, R, Q, M>(
    link: &mut ViewLink<S, R, Q, M>,
    field: Result<F, String>,
) -> (handed: Result<F, String>)
    ensures
        handed == field,
        match field {
            Ok(_) => *final(link) == *old(link),
            Err(why) => {
                &&& final(link).progress.status matches RunStatus::Failed(said) && said@ == why@
                &&& *final(link) == (ViewLink {
                    progress: Progress {
                        status: final(link).progress.status,
                        ..old(link).progress
                    },
                    ..*old(link)
                })
            },
        },
{
    match field {
        Ok(field) => Ok(field),
        Err(why) => {
            link.set_status(RunStatus::Failed(why.as_str().to_owned()));
            Err(why)
        },
    }
}

/// What a density field came to once every pass had been over it and the file was
/// written.
#[derive(Debug)]
pub struct Completed<R, Q, M> {
    /// The exported surface, ready to draw.
    pub mesh: M,
    /// The same surface coloured by stress, where there is a stress report.
    pub stress: Option<M>,
    /// What the trim pass said, where there was one.
    pub trim: Option<Vec<String>>,
    /// What the flush pass said, where there was one.
    pub flush: Option<Vec<String>>,
    /// What the reinforcement pass said, where there was one.
    pub reinforce: Option<Vec<String>>,
    /// What the boundary clamp said, where there was one.
    pub clamp: Option<Vec<String>>,
    /// What the part came out at, where the stress solve produced a report.
    pub summary: Option<R>,
    /// The schedule that chose the design, with what the part came out at
    /// measured onto it.
    pub reduce: Option<Q>,
    /// Triangle count of the exported mesh.
    pub triangles: usize,
    /// Enclosed volume of the exported mesh.
    pub volume_mm3: Scalar,
    /// Where the file went.
    pub stl_path: String,
}

/// The notes of a pass that may not have run.
pub open spec fn notes_of(notes: Option<Vec<String>>) -> Seq<String> {
    match notes {
        Some(notes) => notes@,
        None => seq![],
    }
}

/// The notes of a pass, none where there was none.
fn notes_or_none(notes: Option<Vec<String>>) -> (lines: Vec<String>)
    ensures
        lines@ == notes_of(notes),
{
    match notes {
        Some(notes) => notes,
        None => {
            let none: Vec<String> = Vec::new();
            assert(none@ =~= seq![]);
            none
        },
    }
}

/// Publish what a completed run came to.
///
/// The last stage of every run that writes, the one a kept design is exported
/// through included, so that the window, the notes and the stress summary are the
/// same whichever it was. A run that was stopped before it wrote anything leaves
/// the link as it is, and one that failed leaves its error there and no frame.
/// Returns whether there was a part to publish.
pub fn finish<S, R, Q, M>(
    link: &mut ViewLink<S, R, Q, M>,
    completed: Result<Option<Completed<R, Q, M>>, String>,
) -> (published: Result<bool, String>)
    requires
        completed matches Ok(Some(_)) ==> takes_one_more(old(link).frames@),
    ensures
        final(link).densities == old(link).densities,
        final(link).detached == old(link).detached,
        final(link).progress.latest == old(link).progress.latest,
        final(link).progress.note == old(link).progress.note,
        match completed {
            Ok(None) => {
                &&& published matches Ok(part) && !part
                &&& *final(link) == *old(link)
            },
            Err(why) => {
                &&& published == Err::<bool, String>(why)
                &&& final(link).frames == old(link).frames
                &&& final(link).progress.status matches RunStatus::Failed(said) && said@ == why@
                &&& *final(link) == (ViewLink {
                    progress: Progress {
                        status: final(link).progress.status,
                        ..old(link).progress
                    },
                    ..*old(link)
                })
            },
            Ok(Some(part)) => {
                &&& published matches Ok(part) && part
                &&& final(link).frames@ == pushed(
                    old(link).frames@,
                    Frame { kind: FrameKind::Final, mesh: part.mesh, stress: part.stress },
                )
                &&& final(link).progress.trim@ == notes_of(part.trim)
                &&& final(link).progress.flush@ == notes_of(part.flush)
                &&& final(link).progress.reinforce@ == notes_of(part.reinforce)
                &&& final(link).progress.clamp@ == notes_of(part.clamp)
                &&& final(link).progress.stress == part.summary
                &&& final(link).progress.reduce == part.reduce
                &&& final(link).progress.status == (RunStatus::Finished {
                    triangles: part.triangles,
                    volume_mm3: part.volume_mm3,
                    stl_path: part.stl_path,
                })
            },
        },
{
    match completed {
        Err(why) => {
            link.set_status(RunStatus::Failed(why.as_str().to_owned()));
            Err(why)
        },
        Ok(None) => Ok(false),
        Ok(Some(part)) => {
            link.frames.push(
                Frame { kind: FrameKind::Final, mesh: part.mesh, stress: part.stress },
            );
            link.set_trim_notes(notes_or_none(part.trim));
            link.set_flush_notes(notes_or_none(part.flush));
            link.set_reinforce_notes(notes_or_none(part.reinforce));
            link.set_clamp_notes(notes_or_none(part.clamp));
            link.set_stress_summary(part.summary);
            link.set_reduce(part.reduce);
            link.set_status(
                RunStatus::Finished {
                    triangles: part.triangles,
                    volume_mm3: part.volume_mm3,
                    stl_path: part.stl_path,
                },
            );
            Ok(true)
        },
    }
}

/// Whether `k` is the load case whose peak a safety factor is quoted from: no
/// peak is above its own, and every later one is below it.
pub open spec fn is_worst(peaks: Seq<Scalar>, k: int) -> bool {
    &&& 0 <= k < peaks.len()
    &&& forall|j: int|
        0 <= j < peaks.len() ==> (#[trigger] peaks[j]).total_rank() <= peaks[k].total_rank()
    &&& forall|j: int|
        k < j < peaks.len() ==> (#[trigger] peaks[j]).total_rank() < peaks[k].total_rank()
}

/// Which load case the exported surface is coloured by, and what its ramp is
/// normalized against.
#[derive(Clone, Copy, Debug)]
pub struct StressPick {
    /// Index of the load case.
    pub case: usize,
    /// The stress the top of the ramp stands for.
    pub reference: Scalar,
}

/// Choose what the exported surface is coloured by.
///
/// The load case with the highest peak is the one shown, because that is the one
/// a safety factor is quoted from. The ramp is normalized against the material's
/// yield strength when there is one, so the colours read the same across runs of
/// the same material; without one it falls back to the peak of the run itself.
/// A report without a case colours nothing.
pub fn stress_layer(peaks: &Vec<Scalar>, yield_strength: Option<Scalar>) -> (pick: Option<
    StressPick,
>)
    ensures
        match pick {
            None => peaks@.len() == 0,
            Some(pick) => {
                &&& is_worst(peaks@, pick.case as int)
                &&& pick.reference == (match yield_strength {
                    Some(yield_strength) => yield_strength,
                    None => peaks@[pick.case as int],
                })
            },
        },
        pick is Some <==> peaks@.len() > 0,
        pick is Some && yield_strength is Some ==> pick->0.reference == yield_strength->0,
        pick is Some && yield_strength is None ==> pick->0.reference
            == peaks@[pick->0.case as int],
{
    if peaks.len() == 0 {
        return None;
    }
    let mut worst: usize = 0;
    let mut k: usize = 1;
    while k < peaks.len()
        invariant
            1 <= k <= peaks.len(),
            worst < k,
            is_worst(peaks@.take(k as int), worst as int),
        decreases peaks.len() - k,
    {
        let ghost before = peaks@.take(k as int);
        let ghost found = worst as int;
        proof {
            assert forall|j: int| 0 <= j < k implies #[trigger] peaks@[j] == before[j] by {}
        }
        if peaks[worst].total_le(peaks[k]) {
            worst = k;
        }
        k = k + 1;
        proof {
            let after = peaks@.take(k as int);
            assert forall|j: int| 0 <= j < after.len() implies (#[trigger] after[j]).total_rank()
                <= after[worst as int].total_rank() by {
                if j < k - 1 {
                    assert(before[j].total_rank() <= before[found].total_rank());
                }
            }
            assert forall|j: int| worst < j < after.len() implies (#[trigger] after[j]).total_rank()
                < after[worst as int].total_rank() by {
                if j < k - 1 {
                    assert(before[j].total_rank() < before[found].total_rank());
                }
            }
        }
    }
    assert(peaks@.take(k as int) =~= peaks@);
    let reference = match yield_strength {
        Some(yield_strength) => yield_strength,
        None => peaks[worst],
    };
    Some(StressPick { case: worst, reference })
}

/// How long the mesher waits before it meshes a snapshot, `since` being how long
/// ago it finished the one before.
pub open spec fn pause_of(since: Option<u64>) -> int {
    match since {
        Some(since) => if since < VIEW_PREVIEW_MIN_INTERVAL_NS {
            VIEW_PREVIEW_MIN_INTERVAL_NS - since
        } else {
            0
        },
        None => 0,
    }
}

/// How long the mesher waits before it meshes the snapshot it has just taken, in
/// nanoseconds; `None` is not at all.
pub fn preview_pause(since: Option<u64>) -> (pause: Option<u64>)
    ensures
        match pause {
            Some(pause) => pause == pause_of(since) && pause > 0,
            None => pause_of(since) == 0,
        },
{
    match since {
        Some(since) => if since < VIEW_PREVIEW_MIN_INTERVAL_NS {
            Some(VIEW_PREVIEW_MIN_INTERVAL_NS - since)
        } else {
            None
        },
        None => None,
    }
}

/// The snapshot to mesh once the mesher has waited: a newer one, where one has
/// landed meanwhile.
pub fn newest_snapshot<S, R, Q, M>(
    link: &mut ViewLink<S, R, Q, M>,
    held: DensitySnapshot,
) -> (snapshot: DensitySnapshot)
    ensures
        snapshot == (match old(link).densities@.value {
            Some(newer) => newer,
            None => held,
        }),
        final(link).densities@ == taken(old(link).densities@),
        final(link).frames == old(link).frames,
        final(link).progress == old(link).progress,
        final(link).detached == old(link).detached,
{
    match link.densities.try_take() {
        Some(newer) => newer,
        None => held,
    }
}

/// Show the surface of a preview, and say whether the mesher goes on.
///
/// A preview that could not be extracted is skipped; the run itself reports the
/// same failure when it exports. A window that takes no more frames is what ends
/// the mesher.
pub fn preview_meshed<S, R, Q, M>(
    link: &mut ViewLink<S, R, Q, M>,
    iteration: usize,
    surface: Option<M>,
) -> (goes_on: bool)
    requires
        surface is Some ==> takes_one_more(old(link).frames@),
    ensures
        final(link).frames@ == (match surface {
            Some(mesh) => pushed(
                old(link).frames@,
                Frame { kind: FrameKind::Preview { iteration }, mesh, stress: None },
            ),
            None => old(link).frames@,
        }),
        goes_on == (surface is None || !old(link).frames@.closed),
        final(link).densities == old(link).densities,
        final(link).progress == old(link).progress,
        final(link).detached == old(link).detached,
{
    match surface {
        None => true,
        Some(mesh) => link.frames.push(
            Frame { kind: FrameKind::Preview { iteration }, mesh, stress: None },
        ),
    }
}

/// One thing that happens to a snapshot channel.
pub enum Move<T> {
    /// The engine reports a design.
    Push(T),
    /// The mesher takes what is pending.
    Take,
}

/// A snapshot channel, and the design the mesher took last.
pub struct Traffic<T> {
    /// The channel.
    pub slot: SlotView<T>,
    /// What the mesher took last.
    pub held: Option<T>,
}

/// An open channel after `moves`, in that order.
pub open spec fn traffic<T>(moves: Seq<Move<T>>) -> Traffic<T>
    decreases moves.len(),
{
    if moves.len() == 0 {
        Traffic { slot: SlotView { value: None, closed: false, dropped: 0 }, held: None }
    } else {
        let before = traffic(moves.drop_last());
        match moves.last() {
            Move::Push(value) => Traffic { slot: pushed(before.slot, value), ..before },
            Move::Take => Traffic {
                slot: taken(before.slot),
                held: match before.slot.value {
                    Some(value) => Some(value),
                    None => before.held,
                },
            },
        }
    }
}

/// The last design that was reported.
pub open spec fn last_pushed<T>(moves: Seq<Move<T>>) -> Option<T>
    decreases moves.len(),
{
    if moves.len() == 0 {
        None
    } else {
        match moves.last() {
            Move::Push(value) => Some(value),
            Move::Take => last_pushed(moves.drop_last()),
        }
    }
}

/// However far the mesher falls behind and however many designs are dropped on
/// the way, once the channel is closed and drained the last design it took is the
/// newest one that was ever reported.
pub proof fn law_the_newest_design_is_meshed_last<T>(moves: Seq<Move<T>>)
    ensures
        ({
            let end = traffic(moves);
            let drained = match shut(end.slot).value {
                Some(value) => Some(value),
                None => end.held,
            };
            &&& drained == last_pushed(moves)
            &&& !end.slot.closed
        }),
    decreases moves.len(),
{
    if moves.len() > 0 {
        law_the_newest_design_is_meshed_last(moves.drop_last());
    }
}

} // verus!
