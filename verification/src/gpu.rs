//! The renderer's own decisions: what a frame came to, what is done about a
//! device that refuses, and what is drawn in which order.

use vstd::prelude::*;
use vstd::string::*;

use crate::constants::VIEW_SURFACE_REJECTION_LIMIT;
use crate::scene::{
    is_translucent, law_every_layer_has_one_slot, layer_order, layers, slot_of, Layer, Scene,
    SceneView, LAYER_COUNT,
};
use crate::text::{decimal, decimal_of};

verus! {

/// What the device answered when it was asked for the next frame.
#[derive(Clone, Copy, Debug, PartialEq, Eq, Structural)]
pub enum Acquisition {
    /// A frame.
    Success,
    /// A frame, on a surface that no longer matches the window quite.
    Suboptimal,
    /// No frame in time.
    Timeout,
    /// No frame, because the window is not visible.
    Occluded,
    /// The surface no longer matches the window.
    Outdated,
    /// The surface is gone.
    Lost,
    /// The device refused.
    Validation,
}

/// What acquiring the next surface frame reported.
#[derive(Clone, Copy, Debug, PartialEq, Eq, Structural)]
pub enum SurfaceStatus {
    /// A frame came back and was drawn into.
    Acquired,
    /// No frame this time, and nothing is wrong with the surface: the
    /// compositor was busy, or the window is not visible.
    Skipped,
    /// The surface no longer matches the window and has to be reconfigured.
    Stale,
    /// The device refused: it would not hand a frame over, or it would not
    /// give a frame it had handed over what drawing into it needs.
    Rejected,
}

/// What an answer of the device says about the surface.
pub open spec fn status_of(acquired: Acquisition) -> SurfaceStatus {
    match acquired {
        Acquisition::Success | Acquisition::Suboptimal => SurfaceStatus::Acquired,
        Acquisition::Timeout | Acquisition::Occluded => SurfaceStatus::Skipped,
        Acquisition::Outdated | Acquisition::Lost => SurfaceStatus::Stale,
        Acquisition::Validation => SurfaceStatus::Rejected,
    }
}

impl SurfaceStatus {
    /// Read what the device answered.
    ///
    /// Only the acquisition: whether an acquired frame was really drawn is the
    /// device's next answer, and the renderer observes that one instead.
    pub fn of(acquired: Acquisition) -> (status: SurfaceStatus)
        ensures
            status == status_of(acquired),
    {
        match acquired {
            Acquisition::Success => SurfaceStatus::Acquired,
            Acquisition::Suboptimal => SurfaceStatus::Acquired,
            Acquisition::Timeout => SurfaceStatus::Skipped,
            Acquisition::Occluded => SurfaceStatus::Skipped,
            Acquisition::Outdated => SurfaceStatus::Stale,
            Acquisition::Lost => SurfaceStatus::Stale,
            Acquisition::Validation => SurfaceStatus::Rejected,
        }
    }
}

/// What the renderer does about it.
#[derive(Clone, Copy, Debug, PartialEq, Eq, Structural)]
pub enum SurfaceAction {
    /// Draw into the frame that came back.
    Draw,
    /// Skip this frame and leave the surface alone.
    Skip,
    /// Reconfigure the surface and skip this frame.
    Reconfigure,
    /// The same, after a rejection: `streak` counts the consecutive rejected
    /// frames including this one, so the first of a streak can say so once.
    Retry {
        /// Consecutive rejected frames, this one included.
        streak: u32,
    },
    /// Give up on the device: `streak` frames in a row were rejected and it has
    /// not come back.
    GiveUp {
        /// Consecutive rejected frames, this one included.
        streak: u32,
    },
}

/// How the drawing surface is behaving, frame by frame.
///
/// A rejected frame may be a device that is resetting, or busy with somebody
/// else's memory: the surface is reconfigured and the frame skipped, and only a
/// rejection that goes on for [`VIEW_SURFACE_REJECTION_LIMIT`] consecutive
/// frames is a device that is not coming back. A frame that was *drawn* is what
/// clears the streak, because the recovery is proven by drawing and by no other
/// answer the surface gives: a skipped or stale frame neither counts towards the
/// limit nor forgives what came before it.
#[derive(Clone, Copy, Debug, PartialEq, Eq, Structural)]
pub struct SurfaceHealth {
    rejections: u32,
}

/// The streak after one more answer.
pub open spec fn streak_after(streak: int, status: SurfaceStatus) -> int {
    match status {
        SurfaceStatus::Acquired => 0,
        SurfaceStatus::Skipped | SurfaceStatus::Stale => streak,
        SurfaceStatus::Rejected => if streak < u32::MAX {
            streak + 1
        } else {
            streak
        },
    }
}

/// What is done about an answer that leaves the streak where it is.
pub open spec fn action_for(streak: int, status: SurfaceStatus) -> SurfaceAction {
    match status {
        SurfaceStatus::Acquired => SurfaceAction::Draw,
        SurfaceStatus::Skipped => SurfaceAction::Skip,
        SurfaceStatus::Stale => SurfaceAction::Reconfigure,
        SurfaceStatus::Rejected => if streak >= VIEW_SURFACE_REJECTION_LIMIT {
            SurfaceAction::GiveUp { streak: streak as u32 }
        } else {
            SurfaceAction::Retry { streak: streak as u32 }
        },
    }
}

impl Default for SurfaceHealth {
    fn default() -> (health: SurfaceHealth)
        ensures
            health.streak() == 0,
    {
        SurfaceHealth { rejections: 0 }
    }
}

impl SurfaceHealth {
    /// Consecutive rejected frames so far.
    pub closed spec fn streak(self) -> int {
        self.rejections as int
    }

    /// Record what one acquisition reported and say what to do about it.
    pub fn observe(&mut self, status: SurfaceStatus) -> (action: SurfaceAction)
        ensures
            final(self).streak() == streak_after(old(self).streak(), status),
            action == action_for(final(self).streak(), status),
    {
        match status {
            SurfaceStatus::Acquired => {
                self.rejections = 0;
                SurfaceAction::Draw
            },
            SurfaceStatus::Skipped => SurfaceAction::Skip,
            SurfaceStatus::Stale => SurfaceAction::Reconfigure,
            SurfaceStatus::Rejected => {
                self.rejections = self.rejections.saturating_add(1);
                if self.rejections >= VIEW_SURFACE_REJECTION_LIMIT {
                    SurfaceAction::GiveUp { streak: self.rejections }
                } else {
                    SurfaceAction::Retry { streak: self.rejections }
                }
            },
        }
    }
}

/// The streak after a run of answers.
pub open spec fn streak_after_all(streak: int, answers: Seq<SurfaceStatus>) -> int
    decreases answers.len(),
{
    if answers.len() == 0 {
        streak
    } else {
        streak_after(streak_after_all(streak, answers.drop_last()), answers.last())
    }
}

/// How many of a run of answers are rejections.
pub open spec fn rejections_in(answers: Seq<SurfaceStatus>) -> int
    decreases answers.len(),
{
    if answers.len() == 0 {
        0
    } else {
        rejections_in(answers.drop_last()) + (if answers.last() == SurfaceStatus::Rejected {
            1int
        } else {
            0int
        })
    }
}

/// While no frame is drawn, the streak counts the rejections and nothing else:
/// a skipped or a stale frame neither adds to it nor forgives it.
pub proof fn law_only_a_drawn_frame_clears_the_streak(streak: int, answers: Seq<SurfaceStatus>)
    requires
        0 <= streak,
        streak + answers.len() <= u32::MAX,
        !answers.contains(SurfaceStatus::Acquired),
    ensures
        streak_after_all(streak, answers) == streak + rejections_in(answers),
        0 <= rejections_in(answers) <= answers.len(),
    decreases answers.len(),
{
    if answers.len() > 0 {
        assert(answers.last() != SurfaceStatus::Acquired) by {
            assert(answers.contains(answers[answers.len() - 1]));
        }
        assert(!answers.drop_last().contains(SurfaceStatus::Acquired)) by {
            if answers.drop_last().contains(SurfaceStatus::Acquired) {
                let k = choose|k: int|
                    0 <= k < answers.len() - 1 && answers.drop_last()[k]
                        == SurfaceStatus::Acquired;
                assert(answers[k] == SurfaceStatus::Acquired);
            }
        }
        law_only_a_drawn_frame_clears_the_streak(streak, answers.drop_last());
    }
}

/// The viewer gives up at the limit and not before: with nothing drawn since the
/// streak began, the next rejection is retried while fewer than the limit have
/// been counted, and given up on from there.
pub proof fn law_the_limit_is_what_is_given_up_at(answers: Seq<SurfaceStatus>)
    requires
        answers.len() < u32::MAX,
        !answers.contains(SurfaceStatus::Acquired),
    ensures
        ({
            let streak = streak_after(
                streak_after_all(0, answers),
                SurfaceStatus::Rejected,
            );
            action_for(streak, SurfaceStatus::Rejected) == (if rejections_in(answers) + 1
                >= VIEW_SURFACE_REJECTION_LIMIT {
                SurfaceAction::GiveUp { streak: (rejections_in(answers) + 1) as u32 }
            } else {
                SurfaceAction::Retry { streak: (rejections_in(answers) + 1) as u32 }
            })
        }),
{
    law_only_a_drawn_frame_clears_the_streak(0, answers);
}

/// What is left to do about a frame that is over.
#[derive(Debug)]
pub enum FrameStep {
    /// Nothing.
    Done,
    /// Reconfigure the surface; a refusal of that is this frame's verdict.
    Reconfigure,
    /// Reconfigure the surface whatever comes of it, saying `say` first.
    Retry {
        /// The line to print, on the frame that opened the streak.
        say: Option<String>,
    },
    /// End the session with this message.
    GiveUp {
        /// What is said about the device.
        message: String,
    },
}

/// What is printed when a streak of rejections begins.
pub open spec fn retry_line(failure: Option<Seq<char>>) -> Seq<char> {
    match failure {
        Some(failure) => "viewer surface "@ + failure + "; reconfiguring and retrying"@,
        None => RETRY_UNSAID@,
    }
}

/// What is printed when a streak begins with a refusal that said nothing.
pub const RETRY_UNSAID: &'static str = "viewer surface the GPU rejected a frame; reconfiguring and retrying (the device may be resetting)";

/// What is said of a device that was given up on.
pub open spec fn give_up_line(failure: Option<Seq<char>>, streak: int) -> Seq<char> {
    match failure {
        Some(failure) => failure + ", and "@ + decimal_of(streak) + GIVE_UP_SAID@,
        None => "the GPU rejected "@ + decimal_of(streak) + GIVE_UP_UNSAID@,
    }
}

/// How the message about a device that said why it refused ends.
pub const GIVE_UP_SAID: &'static str = " consecutive frames of the viewer went the same way; the device did not come back";

/// How the message about a device that said nothing ends.
pub const GIVE_UP_UNSAID: &'static str = " consecutive frames of the viewer; the device was likely reset and did not come back";

/// A text that may be absent, as its characters.
pub open spec fn said(text: Option<String>) -> Option<Seq<char>> {
    match text {
        Some(text) => Some(text@),
        None => None,
    }
}

/// What a step is, for a frame that came to `status` with the streak where it is.
pub open spec fn step_is(
    step: FrameStep,
    streak: int,
    status: SurfaceStatus,
    failure: Option<Seq<char>>,
) -> bool {
    match action_for(streak, status) {
        SurfaceAction::Draw | SurfaceAction::Skip => step is Done,
        SurfaceAction::Reconfigure => step is Reconfigure,
        SurfaceAction::Retry { streak } => step matches FrameStep::Retry { say } && said(say)
            == (if streak == 1 {
            Some(retry_line(failure))
        } else {
            None
        }),
        SurfaceAction::GiveUp { streak } => step matches FrameStep::GiveUp { message } && message@
            == give_up_line(failure, streak as int),
    }
}

impl SurfaceHealth {
    /// What one frame came to, and what the renderer does about it.
    ///
    /// The one place the streak is advanced, so a frame counts once however it
    /// ended. `failure` is what the device said when it refused, when it said
    /// anything. The line about a streak is printed once, on the frame that
    /// opened it: a device that is resetting rejects frames as fast as they are
    /// asked for.
    pub fn frame_over(&mut self, status: SurfaceStatus, failure: Option<String>) -> (step: FrameStep)
        ensures
            final(self).streak() == streak_after(old(self).streak(), status),
            step_is(step, final(self).streak(), status, said(failure)),
    {
        match self.observe(status) {
            SurfaceAction::Draw => FrameStep::Done,
            SurfaceAction::Skip => FrameStep::Done,
            SurfaceAction::Reconfigure => FrameStep::Reconfigure,
            SurfaceAction::Retry { streak } => {
                if streak == 1 {
                    let say = match failure {
                        Some(failure) => {
                            let mut line = "viewer surface ".to_owned();
                            line.append(failure.as_str());
                            line.append("; reconfiguring and retrying");
                            line
                        },
                        None => RETRY_UNSAID.to_owned(),
                    };
                    FrameStep::Retry { say: Some(say) }
                } else {
                    FrameStep::Retry { say: None }
                }
            },
            SurfaceAction::GiveUp { streak } => {
                let message = match failure {
                    Some(failure) => {
                        let mut line = failure;
                        line.append(", and ");
                        line.append(decimal(streak as u64).as_str());
                        line.append(GIVE_UP_SAID);
                        line
                    },
                    None => {
                        let mut line = "the GPU rejected ".to_owned();
                        line.append(decimal(streak as u64).as_str());
                        line.append(GIVE_UP_UNSAID);
                        line
                    },
                };
                FrameStep::GiveUp { message }
            },
        }
    }

    /// What a reconfigure a frame asked for came to.
    ///
    /// A surface that has to be reconfigured and cannot be is a device refusing
    /// this frame rather than a window that moved, and it is counted as one: a
    /// device answering "outdated" for ever, with every reconfigure refused,
    /// would otherwise be retried for ever.
    pub fn reconfigured(&mut self, refusal: Option<String>) -> (step: FrameStep)
        ensures
            refusal is None ==> step is Done && final(self).streak() == old(self).streak(),
            refusal is Some ==> final(self).streak() == streak_after(
                old(self).streak(),
                SurfaceStatus::Rejected,
            ) && step_is(
                step,
                final(self).streak(),
                SurfaceStatus::Rejected,
                said(refusal),
            ),
    {
        match refusal {
            None => FrameStep::Done,
            Some(failure) => self.frame_over(SurfaceStatus::Rejected, Some(failure)),
        }
    }
}

/// A surface that is always stale and never reconfigured is given up on: each
/// such frame counts once, so the limit is reached after that many of them.
pub proof fn law_a_surface_nobody_can_reconfigure_is_given_up_on(frames: int)
    requires
        1 <= frames <= u32::MAX,
    ensures
        ({
            let streak = streak_after_all(0, stale_and_refused(frames));
            &&& streak == frames
            &&& action_for(streak, SurfaceStatus::Rejected) is GiveUp <==> frames
                >= VIEW_SURFACE_REJECTION_LIMIT
        }),
    decreases frames,
{
    let answers = stale_and_refused(frames);
    if frames > 1 {
        law_a_surface_nobody_can_reconfigure_is_given_up_on(frames - 1);
    } else {
        assert(stale_and_refused(0).len() == 0);
        assert(streak_after_all(0, stale_and_refused(0)) == 0);
    }
    let before = stale_and_refused(frames - 1);
    assert(answers.drop_last() =~= before.push(SurfaceStatus::Stale));
    assert(answers.drop_last().drop_last() =~= before);
    assert(streak_after_all(0, answers.drop_last()) == streak_after_all(0, before));
}

/// What is observed of frames that are stale and whose reconfigure is refused.
pub open spec fn stale_and_refused(frames: int) -> Seq<SurfaceStatus>
    decreases frames,
{
    if frames <= 0 {
        seq![]
    } else {
        stale_and_refused(frames - 1).push(SurfaceStatus::Stale).push(SurfaceStatus::Rejected)
    }
}

/// Where a frame has got to.
#[derive(Debug)]
pub enum RenderStep {
    /// Ask the surface for the frame.
    Acquire,
    /// Draw into the frame.
    Draw,
    /// Present the frame.
    Present,
    /// The frame is over.
    Over {
        /// What it came to.
        status: SurfaceStatus,
        /// What the device said, when it refused.
        failure: Option<String>,
    },
}

/// A frame that the device refused.
pub open spec fn refused_with(step: RenderStep, failure: Seq<char>) -> bool {
    step matches RenderStep::Over { status, failure: what } && status == SurfaceStatus::Rejected
        && said(what) == Some(failure)
}

/// Begin a frame. A layer the device would not take is this frame's verdict
/// before the frame is even asked for: it is the same device, and it is about to
/// be asked for more.
pub fn begin_frame(refused: Option<String>) -> (step: RenderStep)
    ensures
        match said(refused) {
            Some(failure) => refused_with(step, failure),
            None => step is Acquire,
        },
{
    match refused {
        Some(failure) => RenderStep::Over {
            status: SurfaceStatus::Rejected,
            failure: Some(failure),
        },
        None => RenderStep::Acquire,
    }
}

/// Go on with what the surface answered.
pub fn frame_acquired(answer: Result<Acquisition, String>) -> (step: RenderStep)
    ensures
        match answer {
            Err(failure) => refused_with(step, failure@),
            Ok(acquired) => if status_of(acquired) == SurfaceStatus::Acquired {
                step is Draw
            } else {
                step matches RenderStep::Over { status, failure } && status == status_of(acquired)
                    && failure is None
            },
        },
{
    match answer {
        Err(failure) => RenderStep::Over {
            status: SurfaceStatus::Rejected,
            failure: Some(failure),
        },
        Ok(acquired) => {
            let status = SurfaceStatus::of(acquired);
            if status != SurfaceStatus::Acquired {
                RenderStep::Over { status, failure: None }
            } else {
                RenderStep::Draw
            }
        },
    }
}

/// Go on with what drawing came to. Where nothing was drawn nothing is
/// presented: the frame is dropped and the streak decides whether the device
/// gets another.
pub fn frame_drawn(answer: Result<(), String>) -> (step: RenderStep)
    ensures
        match answer {
            Err(failure) => refused_with(step, failure@),
            Ok(_) => step is Present,
        },
{
    match answer {
        Err(failure) => RenderStep::Over {
            status: SurfaceStatus::Rejected,
            failure: Some(failure),
        },
        Ok(_) => RenderStep::Present,
    }
}

/// End a frame with what presenting came to. Presenting is refused like the
/// rest: a frame drawn into a surface that went invalid in the meantime is a
/// frame that never reached the screen.
pub fn frame_presented(answer: Result<(), String>) -> (step: RenderStep)
    ensures
        match answer {
            Err(failure) => refused_with(step, failure@),
            Ok(_) => step matches RenderStep::Over { status, failure } && status
                == SurfaceStatus::Acquired && failure is None,
        },
{
    match answer {
        Err(failure) => RenderStep::Over {
            status: SurfaceStatus::Rejected,
            failure: Some(failure),
        },
        Ok(_) => RenderStep::Over { status: SurfaceStatus::Acquired, failure: None },
    }
}

/// The vertex buffers of the layers, and what the device last refused outside a
/// frame.
#[derive(Debug)]
pub struct LayerBuffers<B> {
    buffers: Vec<Option<B>>,
    refused: Option<String>,
}

/// What the buffers are at one moment.
#[verifier::ext_equal]
pub struct BuffersView<B> {
    /// One entry per layer, in the order of their slots.
    pub buffers: Seq<Option<B>>,
    /// What the device refused, waiting for the next frame to count it.
    pub refused: Option<Seq<char>>,
}

impl<B> View for LayerBuffers<B> {
    type V = BuffersView<B>;

    closed spec fn view(&self) -> BuffersView<B> {
        BuffersView { buffers: self.buffers@, refused: said(self.refused) }
    }
}

impl<B> LayerBuffers<B> {
    /// One entry per layer.
    pub open spec fn wf(&self) -> bool {
        self@.buffers.len() == LAYER_COUNT
    }

    /// No layer uploaded, nothing refused.
    pub fn new() -> (buffers: LayerBuffers<B>)
        ensures
            buffers.wf(),
            forall|s: int| 0 <= s < LAYER_COUNT ==> #[trigger] buffers@.buffers[s] is None,
            buffers@.refused is None,
    {
        let mut buffers: Vec<Option<B>> = Vec::new();
        let mut s: usize = 0;
        while s < LAYER_COUNT
            invariant
                s <= LAYER_COUNT,
                buffers@.len() == s,
                forall|t: int| 0 <= t < s ==> #[trigger] buffers@[t] is None,
            decreases LAYER_COUNT - s,
        {
            buffers.push(None);
            s += 1;
        }
        LayerBuffers { buffers, refused: None }
    }

    /// Clear a layer that has nothing to draw.
    pub fn clear(&mut self, layer: Layer)
        requires
            old(self).wf(),
        ensures
            final(self).wf(),
            final(self)@ == (BuffersView {
                buffers: old(self)@.buffers.update(slot_of(layer), None),
                ..old(self)@
            }),
    {
        self.buffers.set(layer.slot(), None);
    }

    /// Record what uploading a layer came to.
    ///
    /// A device that refuses the buffer leaves the layer empty, and what it said
    /// waits for the next frame.
    pub fn uploaded(&mut self, layer: Layer, answer: Result<B, String>)
        requires
            old(self).wf(),
        ensures
            final(self).wf(),
            final(self)@ == (match answer {
                Ok(buffer) => BuffersView {
                    buffers: old(self)@.buffers.update(slot_of(layer), Some(buffer)),
                    ..old(self)@
                },
                Err(failure) => BuffersView {
                    buffers: old(self)@.buffers.update(slot_of(layer), None),
                    refused: Some(failure@),
                },
            }),
    {
        match answer {
            Ok(buffer) => {
                self.buffers.set(layer.slot(), Some(buffer));
            },
            Err(failure) => {
                self.buffers.set(layer.slot(), None);
                self.refused = Some(failure);
            },
        }
    }

    /// Take what the device refused, for the frame that counts it.
    pub fn take_refused(&mut self) -> (refused: Option<String>)
        requires
            old(self).wf(),
        ensures
            final(self).wf(),
            said(refused) == old(self)@.refused,
            final(self)@ == (BuffersView { refused: None, ..old(self)@ }),
    {
        self.refused.take()
    }

    /// The buffer of a layer, if it has one.
    pub fn get(&self, layer: Layer) -> (buffer: Option<&B>)
        requires
            self.wf(),
        ensures
            match (buffer, self@.buffers[slot_of(layer)]) {
                (Some(got), Some(there)) => *got == there,
                (None, None) => true,
                _ => false,
            },
    {
        self.buffers[layer.slot()].as_ref()
    }

    /// The layers that are drawn, in the order they are drawn in.
    ///
    /// Opaque first so the translucent overlays can test against a finished
    /// depth buffer without writing to it.
    pub fn draw_order<V>(&self, scene: &Scene<V>) -> (order: Vec<Layer>)
        requires
            self.wf(),
            scene.wf(),
        ensures
            order@ == drawn_layers(scene@, self@, false, LAYER_COUNT as int) + drawn_layers(
                scene@,
                self@,
                true,
                LAYER_COUNT as int,
            ),
    {
        let all = layers();
        let mut order: Vec<Layer> = Vec::new();
        let mut s: usize = 0;
        while s < LAYER_COUNT
            invariant
                s <= LAYER_COUNT,
                all@ == layer_order(),
                self.wf(),
                scene.wf(),
                order@ == drawn_layers(scene@, self@, false, s as int),
            decreases LAYER_COUNT - s,
        {
            let layer = all[s];
            if !layer.info().translucent && scene.is_visible(layer) && self.get(layer).is_some() {
                order.push(layer);
            }
            s += 1;
        }
        let ghost opaque = order@;
        let mut s: usize = 0;
        assert(order@ =~= opaque + drawn_layers(scene@, self@, true, 0));
        while s < LAYER_COUNT
            invariant
                s <= LAYER_COUNT,
                all@ == layer_order(),
                self.wf(),
                scene.wf(),
                order@ == opaque + drawn_layers(scene@, self@, true, s as int),
            decreases LAYER_COUNT - s,
        {
            let layer = all[s];
            let ghost before = order@;
            if layer.info().translucent && scene.is_visible(layer) && self.get(layer).is_some() {
                order.push(layer);
            }
            assert(order@ =~= opaque + drawn_layers(scene@, self@, true, s + 1));
            s += 1;
        }
        order
    }
}

/// Of the first layers, those of one kind that are on screen and have a buffer.
pub open spec fn drawn_layers<V, B>(
    scene: SceneView<V>,
    buffers: BuffersView<B>,
    translucent: bool,
    slots: int,
) -> Seq<Layer>
    decreases slots,
{
    if slots <= 0 {
        seq![]
    } else {
        let before = drawn_layers(scene, buffers, translucent, slots - 1);
        let layer = layer_order()[slots - 1];
        if is_translucent(layer) == translucent && scene.drawn(layer)
            && buffers.buffers[slot_of(layer)] is Some {
            before.push(layer)
        } else {
            before
        }
    }
}

/// The part of the surface the scene is drawn into: as wide as the view owns, at
/// least a pixel, and never wider than the surface.
pub fn scene_viewport(scene_width: u32, width: u32, height: u32) -> (size: (u32, u32))
    ensures
        size.0 == (if scene_width < 1 {
            1int
        } else if scene_width > at_least_one(width) {
            at_least_one(width)
        } else {
            scene_width as int
        }),
        size.1 == at_least_one(height),
        1 <= size.0 <= at_least_one(width),
        1 <= scene_width <= width ==> size.0 == scene_width,
        scene_width >= width >= 1 ==> size.0 == width,
        height >= 1 ==> size.1 == height,
{
    let widest: u32 = if width < 1 {
        1
    } else {
        width
    };
    let shown: u32 = if scene_width < 1 {
        1
    } else if scene_width > widest {
        widest
    } else {
        scene_width
    };
    let tall: u32 = if height < 1 {
        1
    } else {
        height
    };
    (shown, tall)
}

/// A size of at least one pixel.
pub open spec fn at_least_one(size: u32) -> int {
    if size < 1 {
        1
    } else {
        size as int
    }
}

/// The size a window was given, where it is one the surface can have. A window
/// that was minimized has no size to configure.
pub fn resized(width: u32, height: u32) -> (size: Option<(u32, u32)>)
    ensures
        size == (if width == 0 || height == 0 {
            None
        } else {
            Some((width, height))
        }),
        size is Some <==> width > 0 && height > 0,
        size is Some ==> size == Some((width, height)),
{
    if width == 0 || height == 0 {
        None
    } else {
        Some((width, height))
    }
}

/// Which of the offered colour formats is used: the first that is not encoded
/// for display, and otherwise the first of all. The overlay paints encoded
/// colours and expects a plain target.
pub fn choose_format(encoded: &Vec<bool>) -> (chosen: Option<usize>)
    ensures
        match chosen {
            None => encoded@.len() == 0,
            Some(at) => {
                &&& at < encoded@.len()
                &&& encoded@[at as int] ==> at == 0 && forall|k: int|
                    0 <= k < encoded@.len() ==> #[trigger] encoded@[k]
                &&& !encoded@[at as int] ==> forall|k: int|
                    0 <= k < at ==> #[trigger] encoded@[k]
            },
        },
{
    let mut k: usize = 0;
    while k < encoded.len()
        invariant
            k <= encoded@.len(),
            forall|j: int| 0 <= j < k ==> #[trigger] encoded@[j],
        decreases encoded@.len() - k,
    {
        if !encoded[k] {
            return Some(k);
        }
        k += 1;
    }
    if encoded.len() > 0 {
        Some(0)
    } else {
        None
    }
}

} // verus!
