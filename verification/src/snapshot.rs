//! The hand-off between the optimization worker, the preview mesher and the
//! render thread.
//!
//! Every hand-off uses [`LatestSlot`]: a channel of capacity one whose `push`
//! overwrites whatever the consumer has not taken yet. A viewer only ever wants
//! the newest design, so dropping the intermediate ones is the correct
//! behaviour rather than a compromise, and it bounds the memory the link can
//! hold to a single snapshot no matter how far behind the consumer falls.

use vstd::prelude::*;

use crate::scalar::Scalar;

verus! {

/// What a slot is at one moment.
pub struct SlotView<T> {
    /// The value waiting to be taken.
    pub value: Option<T>,
    /// True once pushes are refused.
    pub closed: bool,
    /// Values that were overwritten before anyone took them.
    pub dropped: int,
}

/// A single slot channel that keeps only the most recently pushed value.
#[derive(Debug)]
pub struct LatestSlot<T> {
    value: Option<T>,
    closed: bool,
    dropped: usize,
}

/// What a consumer that would rather wait finds in a slot.
#[derive(Debug, PartialEq, Eq)]
pub enum Polled<T> {
    /// The pending value, now taken.
    Value(T),
    /// Nothing, and nothing will come.
    Closed,
    /// Nothing yet.
    Empty,
}

/// A slot after a push.
pub open spec fn pushed<T>(slot: SlotView<T>, value: T) -> SlotView<T> {
    if slot.closed {
        slot
    } else {
        SlotView {
            value: Some(value),
            closed: false,
            dropped: if slot.value is Some {
                slot.dropped + 1
            } else {
                slot.dropped
            },
        }
    }
}

/// True while the count of what was discarded can take one more, or none would be
/// counted: the slot is closed, or nothing is pending.
pub open spec fn takes_one_more<T>(slot: SlotView<T>) -> bool {
    slot.closed || slot.value is None || slot.dropped < usize::MAX
}

/// A slot after its pending value, if any, was taken.
pub open spec fn taken<T>(slot: SlotView<T>) -> SlotView<T> {
    SlotView { value: None, closed: slot.closed, dropped: slot.dropped }
}

/// A slot after it was closed.
pub open spec fn shut<T>(slot: SlotView<T>) -> SlotView<T> {
    SlotView { value: slot.value, closed: true, dropped: slot.dropped }
}

impl<T> View for LatestSlot<T> {
    type V = SlotView<T>;

    closed spec fn view(&self) -> SlotView<T> {
        SlotView { value: self.value, closed: self.closed, dropped: self.dropped as int }
    }
}

impl<T> Default for LatestSlot<T> {
    fn default() -> (slot: LatestSlot<T>)
        ensures
            slot@ == (SlotView::<T> { value: None, closed: false, dropped: 0 }),
    {
        LatestSlot::new()
    }
}

impl<T> LatestSlot<T> {
    /// An empty, open slot.
    pub fn new() -> (slot: LatestSlot<T>)
        ensures
            slot@ == (SlotView::<T> { value: None, closed: false, dropped: 0 }),
    {
        LatestSlot { value: None, closed: false, dropped: 0 }
    }

    /// Whether a value can be pushed: the count of what was discarded can take one
    /// more, or none would be counted.
    pub fn can_take_one_more(&self) -> (answer: bool)
        ensures
            answer == takes_one_more(self@),
    {
        self.closed || self.value.is_none() || self.dropped < usize::MAX
    }

    /// Store `value`, discarding any value the consumer has not taken.
    ///
    /// Returns false once the slot is closed, which is how a producer learns
    /// that the consumer has gone away.
    pub fn push(&mut self, value: T) -> (taken_in: bool)
        requires
            takes_one_more(old(self)@),
        ensures
            taken_in == !old(self)@.closed,
            final(self)@ == pushed(old(self)@, value),
    {
        if self.closed {
            return false;
        }
        if self.value.is_some() {
            self.dropped = self.dropped + 1;
        }
        self.value = Some(value);
        true
    }

    /// Take the pending value without blocking.
    pub fn try_take(&mut self) -> (value: Option<T>)
        ensures
            value == old(self)@.value,
            final(self)@ == taken(old(self)@),
    {
        self.value.take()
    }

    /// Take the pending value, or learn whether one may still come. A consumer
    /// that is answered [`Polled::Empty`] waits for a push or a close and asks
    /// again.
    pub fn poll(&mut self) -> (answer: Polled<T>)
        ensures
            answer == (match old(self)@.value {
                Some(value) => Polled::Value(value),
                None => if old(self)@.closed {
                    Polled::Closed
                } else {
                    Polled::Empty
                },
            }),
            answer is Value <==> old(self)@.value is Some,
            answer is Closed <==> old(self)@.value is None && old(self)@.closed,
            answer is Value ==> answer->Value_0 == old(self)@.value->0,
            final(self)@ == taken(old(self)@),
    {
        match self.value.take() {
            Some(value) => Polled::Value(value),
            None => if self.closed {
                Polled::Closed
            } else {
                Polled::Empty
            },
        }
    }

    /// Take the pending value of a slot that has one, or learn from a closed one
    /// that none will come. Nothing else can push while this slot is held, so a
    /// slot that is neither would never answer.
    pub fn take_blocking(&mut self) -> (value: Option<T>)
        requires
            old(self)@.value is Some || old(self)@.closed,
        ensures
            value == old(self)@.value,
            final(self)@ == taken(old(self)@),
    {
        match self.poll() {
            Polled::Value(value) => Some(value),
            Polled::Closed => None,
            Polled::Empty => None,
        }
    }

    /// Refuse further pushes. The pending value, if any, stays takeable so a
    /// consumer can drain the slot before it stops.
    pub fn close(&mut self)
        ensures
            final(self)@ == shut(old(self)@),
    {
        self.closed = true;
    }

    /// True once [`LatestSlot::close`] has been called.
    pub fn is_closed(&self) -> (answer: bool)
        ensures
            answer == self@.closed,
    {
        self.closed
    }

    /// True while a value is waiting to be taken.
    pub fn is_pending(&self) -> (answer: bool)
        ensures
            answer == (self@.value is Some),
    {
        self.value.is_some()
    }

    /// How many values were overwritten before anyone took them.
    pub fn dropped(&self) -> (count: usize)
        ensures
            count == self@.dropped,
    {
        self.dropped
    }
}

/// A slot after a run of pushes with nobody taking anything.
pub open spec fn pushed_all<T>(slot: SlotView<T>, values: Seq<T>) -> SlotView<T>
    decreases values.len(),
{
    if values.len() == 0 {
        slot
    } else {
        pushed(pushed_all(slot, values.drop_last()), values.last())
    }
}

/// However much is pushed at an open slot, a slow consumer finds the newest
/// value and nothing older, and every other one is counted as dropped.
pub proof fn law_only_the_newest_value_survives<T>(slot: SlotView<T>, values: Seq<T>)
    requires
        !slot.closed,
        values.len() > 0,
    ensures
        pushed_all(slot, values) == (SlotView {
            value: Some(values.last()),
            closed: false,
            dropped: slot.dropped + values.len() - (if slot.value is Some {
                0int
            } else {
                1int
            }),
        }),
    decreases values.len(),
{
    if values.len() == 1 {
        assert(pushed_all(slot, values.drop_last()) == slot);
    } else {
        law_only_the_newest_value_survives(slot, values.drop_last());
    }
}

/// A closed slot refuses whatever is pushed, still yields the value that was
/// pending when it closed, and yields nothing after it.
pub proof fn law_a_closed_slot_yields_its_pending_value_and_no_other<T>(
    slot: SlotView<T>,
    values: Seq<T>,
)
    ensures
        pushed_all(shut(slot), values) == shut(slot),
        shut(slot).value == slot.value,
        pushed_all(taken(shut(slot)), values).value is None,
    decreases values.len(),
{
    if values.len() > 0 {
        law_a_closed_slot_yields_its_pending_value_and_no_other(slot, values.drop_last());
        lemma_taken_and_closed_stays_empty(slot, values.drop_last());
    }
}

proof fn lemma_taken_and_closed_stays_empty<T>(slot: SlotView<T>, values: Seq<T>)
    ensures
        pushed_all(taken(shut(slot)), values) == taken(shut(slot)),
    decreases values.len(),
{
    if values.len() > 0 {
        lemma_taken_and_closed_stays_empty(slot, values.drop_last());
    }
}

/// Physical densities of one optimization iteration.
#[derive(Debug)]
pub struct DensitySnapshot {
    /// One-based iteration the densities belong to.
    pub iteration: usize,
    /// Physical density of every cell, in grid element order.
    pub densities: Vec<Scalar>,
}

/// What a rendered frame of the density layer represents.
#[derive(Clone, Copy, Debug, PartialEq, Eq, Structural)]
pub enum FrameKind {
    /// An unsmoothed, unvalidated preview of an intermediate design.
    Preview {
        /// Iteration the preview was extracted from.
        iteration: usize,
    },
    /// The smoothed, validated surface that was written to the file.
    Final,
}

/// A render-ready density surface.
#[derive(Debug)]
pub struct Frame<M> {
    /// Whether this is a preview or the exported surface.
    pub kind: FrameKind,
    /// Flat shaded triangles of the surface.
    pub mesh: M,
    /// The same surface coloured by von Mises stress, when the run produced a
    /// stress report. Only a final frame ever carries one.
    pub stress: Option<M>,
}

/// Where a run has got to, for the stats overlay.
#[derive(Debug)]
pub enum RunStatus {
    /// The engine is iterating.
    Optimizing,
    /// The engine finished; enclosed cavities and stresses are being worked out.
    Analysing,
    /// The engine finished and the mesh is being extracted and written.
    Exporting,
    /// The file was written.
    Finished {
        /// Triangle count of the exported mesh.
        triangles: usize,
        /// Enclosed volume of the exported mesh in cubic millimetres.
        volume_mm3: Scalar,
        /// Where the file went.
        stl_path: String,
    },
    /// The run failed; the string is the formatted error chain.
    Failed(String),
}

impl Default for RunStatus {
    fn default() -> (status: RunStatus)
        ensures
            status == RunStatus::Optimizing,
    {
        RunStatus::Optimizing
    }
}

/// The stats block the side panel shows: `S` is a progress line of the engine,
/// `R` the summary of a stress report, `Q` the record of a schedule.
#[derive(Debug)]
pub struct Progress<S, R, Q> {
    /// Most recent per-iteration line.
    pub latest: Option<S>,
    /// Most recent one-off engine message.
    pub note: Option<String>,
    /// What the trim pass said, once the run has finished. Separate from `note`
    /// because it is not the engine's line and must not displace it.
    pub trim: Vec<String>,
    /// What the flush pass said, once the run has finished.
    pub flush: Vec<String>,
    /// What the reinforcement pass said, once the run has finished.
    pub reinforce: Vec<String>,
    /// What the boundary clamp said, once the run has finished.
    pub clamp: Vec<String>,
    /// What the part came out at, once the run has analysed the field it
    /// exported. `None` while a run is going, and for a run whose stress solve
    /// produced no report.
    pub stress: Option<R>,
    /// The schedule that chose the design that was exported, when a schedule
    /// did, as the export left it.
    pub reduce: Option<Q>,
    /// Stage the run is in.
    pub status: RunStatus,
}

impl<S, R, Q> Progress<S, R, Q> {
    /// Nothing reported yet.
    pub open spec fn nothing(self) -> bool {
        &&& self.latest is None
        &&& self.note is None
        &&& self.trim@.len() == 0
        &&& self.flush@.len() == 0
        &&& self.reinforce@.len() == 0
        &&& self.clamp@.len() == 0
        &&& self.stress is None
        &&& self.reduce is None
        &&& self.status == RunStatus::Optimizing
    }
}

/// Everything shared between the optimization worker, the preview mesher and
/// the window.
#[derive(Debug)]
pub struct ViewLink<S, R, Q, M> {
    /// Newest density field waiting for the preview mesher.
    pub densities: LatestSlot<DensitySnapshot>,
    /// Newest render-ready surface waiting for the window.
    pub frames: LatestSlot<Frame<M>>,
    /// Latest progress line and run status.
    pub progress: Progress<S, R, Q>,
    /// Set when the window has gone away; the run continues headless and stops
    /// paying for snapshots.
    pub detached: bool,
}

impl<S, R, Q, M> ViewLink<S, R, Q, M> {
    /// Attached, with nothing reported and nothing waiting.
    pub open spec fn untouched(self) -> bool {
        &&& self.densities@ == (SlotView::<DensitySnapshot> {
            value: None,
            closed: false,
            dropped: 0,
        })
        &&& self.frames@ == (SlotView::<Frame<M>> { value: None, closed: false, dropped: 0 })
        &&& self.progress.nothing()
        &&& !self.detached
    }

    /// A link with nothing reported yet.
    pub fn new() -> (link: ViewLink<S, R, Q, M>)
        ensures
            link.untouched(),
    {
        ViewLink {
            densities: LatestSlot::new(),
            frames: LatestSlot::new(),
            progress: Progress {
                latest: None,
                note: None,
                trim: Vec::new(),
                flush: Vec::new(),
                reinforce: Vec::new(),
                clamp: Vec::new(),
                stress: None,
                reduce: None,
                status: RunStatus::Optimizing,
            },
            detached: false,
        }
    }

    /// The current progress.
    pub fn progress(&self) -> (progress: &Progress<S, R, Q>)
        ensures
            *progress == self.progress,
    {
        &self.progress
    }

    /// Record the stage a run is in.
    pub fn set_status(&mut self, status: RunStatus)
        ensures
            *final(self) == (ViewLink {
                progress: Progress { status, ..old(self).progress },
                ..*old(self)
            }),
    {
        self.progress.status = status;
    }

    /// Record what the trim pass said, for the panel.
    ///
    /// Written once, where the pass ends, rather than with the engine's lines:
    /// the trim happens after the engine has handed its field over, and the
    /// lines have to outlive the moment the way the finished status does.
    pub fn set_trim_notes(&mut self, notes: Vec<String>)
        ensures
            *final(self) == (ViewLink {
                progress: Progress { trim: notes, ..old(self).progress },
                ..*old(self)
            }),
    {
        self.progress.trim = notes;
    }

    /// Record what the flush pass said, for the panel.
    pub fn set_flush_notes(&mut self, notes: Vec<String>)
        ensures
            *final(self) == (ViewLink {
                progress: Progress { flush: notes, ..old(self).progress },
                ..*old(self)
            }),
    {
        self.progress.flush = notes;
    }

    /// Record what the reinforcement pass said, for the panel.
    pub fn set_reinforce_notes(&mut self, notes: Vec<String>)
        ensures
            *final(self) == (ViewLink {
                progress: Progress { reinforce: notes, ..old(self).progress },
                ..*old(self)
            }),
    {
        self.progress.reinforce = notes;
    }

    /// Record what the boundary clamp said, for the panel.
    pub fn set_clamp_notes(&mut self, notes: Vec<String>)
        ensures
            *final(self) == (ViewLink {
                progress: Progress { clamp: notes, ..old(self).progress },
                ..*old(self)
            }),
    {
        self.progress.clamp = notes;
    }

    /// Record what the part came out at, for the panel. `None` is a run that
    /// produced no report, and it is written all the same - a summary is
    /// replaced rather than left over.
    pub fn set_stress_summary(&mut self, summary: Option<R>)
        ensures
            *final(self) == (ViewLink {
                progress: Progress { stress: summary, ..old(self).progress },
                ..*old(self)
            }),
    {
        self.progress.stress = summary;
    }

    /// Record the schedule that chose the part, for the panel. `None` is written
    /// all the same, as a summary is.
    pub fn set_reduce(&mut self, reduce: Option<Q>)
        ensures
            *final(self) == (ViewLink {
                progress: Progress { reduce, ..old(self).progress },
                ..*old(self)
            }),
    {
        self.progress.reduce = reduce;
    }

    /// True once the window has detached.
    pub fn is_detached(&self) -> (answer: bool)
        ensures
            answer == self.detached,
    {
        self.detached
    }

    /// Detach: stop collecting snapshots and let every waiter go.
    pub fn detach(&mut self)
        ensures
            final(self).detached,
            final(self).densities@ == shut(old(self).densities@),
            final(self).frames@ == shut(old(self).frames@),
            final(self).progress == old(self).progress,
    {
        self.detached = true;
        self.densities.close();
        self.frames.close();
    }

    /// Mirror a progress line of the engine, while the window is attached.
    pub fn report_iteration(&mut self, stats: S)
        ensures
            *final(self) == (if old(self).detached {
                *old(self)
            } else {
                ViewLink {
                    progress: Progress { latest: Some(stats), ..old(self).progress },
                    ..*old(self)
                }
            }),
    {
        if self.detached {
            return;
        }
        self.progress.latest = Some(stats);
    }

    /// Mirror a message of the engine, while the window is attached.
    pub fn report_note(&mut self, message: String)
        ensures
            *final(self) == (if old(self).detached {
                *old(self)
            } else {
                ViewLink {
                    progress: Progress { note: Some(message), ..old(self).progress },
                    ..*old(self)
                }
            }),
    {
        if self.detached {
            return;
        }
        self.progress.note = Some(message);
    }

    /// Hand the mesher a field of the engine, while the window is attached.
    ///
    /// Once the window is gone the copy would be pure overhead, and the run has
    /// to finish at full speed.
    pub fn report_densities(&mut self, iteration: usize, densities: Vec<Scalar>)
        requires
            old(self).detached || takes_one_more(old(self).densities@),
        ensures
            final(self).densities@ == (if old(self).detached {
                old(self).densities@
            } else {
                pushed(old(self).densities@, DensitySnapshot { iteration, densities })
            }),
            final(self).frames == old(self).frames,
            final(self).progress == old(self).progress,
            final(self).detached == old(self).detached,
    {
        if self.detached {
            return;
        }
        self.densities.push(DensitySnapshot { iteration, densities });
    }

    /// Whether the run is to stop, given what the wrapped reporter answers.
    ///
    /// Detaching is deliberately *not* a stop. Closing the window detaches the
    /// link and the run finishes headless; only a reporter that says so stops
    /// anything.
    pub fn cancelled(&self, asked_to_stop: bool) -> (answer: bool)
        ensures
            answer == asked_to_stop,
    {
        asked_to_stop
    }
}

} // verus!
