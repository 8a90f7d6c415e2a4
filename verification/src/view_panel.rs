//! The side panel of a run or a setup view, and the layer switches it shares with
//! the editor's.

use vstd::prelude::*;
use vstd::string::*;

use crate::config::text_of;
use crate::constants::{SOLID_ENGINE, VIEW_LAYER_SWITCHES_LABEL};
use crate::panel::{say, shown, Line, Tone, NO_SURFACE};
use crate::scene::{
    law_a_switch_elsewhere_belongs_to_the_editor, law_every_layer_has_one_slot, layer_order,
    layers, role_of, slot_of, switch_of, Layer, LayerRole, Scene, SwitchHome,
};
use crate::snapshot::{FrameKind, Progress, RunStatus};
use crate::text::{decimal, decimal_of, joined};

verus! {

/// What a switch says while the layer behind it is empty.
pub const ABSENT_LAYER_HELP: &'static str = "nothing has produced this layer yet";

/// Whether the `show` block of a panel lists a layer's switch.
pub open spec fn listed(editor: bool) -> spec_fn(Layer) -> bool {
    |layer: Layer|
        (editor || role_of(layer) != LayerRole::Editor) && switch_of(layer) == SwitchHome::Show
}

/// The switches of a `show` block.
#[derive(Debug)]
pub struct LayerSwitches {
    /// Heading of the block, where the block writes its own.
    pub heading: Option<&'static str>,
    /// The layers that have a switch in it, in order.
    pub layers: Vec<Layer>,
    /// Whether each of those can be ticked: only where the layer is there.
    pub present: Vec<bool>,
    /// Whether the stress colours can be switched on.
    pub stress: bool,
    /// Whether the density surface can be shaded flat.
    pub flat: bool,
}

/// The layer visibility switches and the two shading toggles of a panel.
///
/// Layers the editor alone produces are listed only when `editor` is set;
/// everywhere else they do not exist. A layer whose switch is homed elsewhere is
/// left out whichever panel is drawing: the block that owns such a switch draws
/// it itself. The editor's panel draws the block under a header that carries the
/// heading, and a heading inside that body would say it twice.
pub fn layer_switches<V>(scene: &Scene<V>, editor: bool) -> (switches: LayerSwitches)
    requires
        scene.wf(),
    ensures
        match switches.heading {
            Some(heading) => !editor && heading@ == VIEW_LAYER_SWITCHES_LABEL@,
            None => editor,
        },
        switches.layers@ == layer_order().filter(listed(editor)),
        switches.present@.len() == switches.layers@.len(),
        forall|k: int|
            0 <= k < switches.layers@.len() ==> #[trigger] switches.present@[k] == (scene@.mesh(
                switches.layers@[k],
            ) is Some),
        switches.stress == (scene@.stress is Some),
        switches.flat == (scene@.mesh(Layer::Density) is Some),
{
    let order = layers();
    let mut kept: Vec<Layer> = Vec::new();
    let mut present: Vec<bool> = Vec::new();
    let mut k: usize = 0;
    proof {
        reveal(Seq::filter);
        assert(kept@ =~= layer_order().take(0).filter(listed(editor)));
    }
    while k < order.len()
        invariant
            k <= order.len(),
            order@ == layer_order(),
            scene.wf(),
            kept@ == layer_order().take(k as int).filter(listed(editor)),
            present@.len() == kept@.len(),
            forall|j: int|
                0 <= j < kept@.len() ==> #[trigger] present@[j] == (scene@.mesh(kept@[j]) is Some),
        decreases order.len() - k,
    {
        let layer = order[k];
        let info = layer.info();
        proof {
            reveal(Seq::filter);
            assert(layer_order().take(k + 1).drop_last() =~= layer_order().take(k as int));
        }
        if (editor || info.role != LayerRole::Editor) && info.switch == SwitchHome::Show {
            kept.push(layer);
            present.push(scene.get(layer).is_some());
        }
        k = k + 1;
    }
    assert(layer_order().take(k as int) =~= layer_order());
    LayerSwitches {
        heading: if editor {
            None
        } else {
            Some(VIEW_LAYER_SWITCHES_LABEL)
        },
        layers: kept,
        present,
        stress: scene.has_stress(),
        flat: scene.get(Layer::Density).is_some(),
    }
}

/// A panel outside the editor lists every layer the editor does not own and no
/// other, and the editor's lists every layer whose switch is in that block.
pub proof fn law_a_panel_lists_its_own_layers(layer: Layer)
    ensures
        layer_order().filter(listed(false)).contains(layer) == (role_of(layer)
            != LayerRole::Editor),
        layer_order().filter(listed(true)).contains(layer) == (switch_of(layer)
            == SwitchHome::Show),
{
    law_every_layer_has_one_slot(layer);
    if switch_of(layer) == SwitchHome::Elsewhere {
        law_a_switch_elsewhere_belongs_to_the_editor(layer);
    }
    lemma_filtered(layer, listed(false));
    lemma_filtered(layer, listed(true));
}

/// A layer is among the ones a rule keeps when the rule keeps it.
proof fn lemma_filtered(layer: Layer, rule: spec_fn(Layer) -> bool)
    ensures
        layer_order().filter(rule).contains(layer) == rule(layer),
{
    law_every_layer_has_one_slot(layer);
    broadcast use vstd::seq_lib::group_filter_ensures;

    let order = layer_order();
    if rule(layer) {
        assert(order[slot_of(layer)] == layer);
        assert(order.contains(layer));
        assert(order.filter(rule).contains(order[slot_of(layer)]));
    }
    if order.filter(rule).contains(layer) {
        let k = choose|k: int| 0 <= k < order.filter(rule).len() && order.filter(rule)[k] == layer;
        assert(rule(order.filter(rule)[k]));
    }
}

/// What the stage of a run is called.
pub open spec fn status_of(status: RunStatus) -> Seq<char> {
    match status {
        RunStatus::Optimizing => "optimizing"@,
        RunStatus::Analysing => "voids and stress"@,
        RunStatus::Exporting => "exporting mesh"@,
        RunStatus::Finished { stl_path, .. } => "finished, wrote "@ + stl_path@,
        RunStatus::Failed(error) => "failed: "@ + error@,
    }
}

/// Short label for the stage a run is in.
pub fn status_label(status: &RunStatus) -> (label: String)
    ensures
        label@ == status_of(*status),
{
    match status {
        RunStatus::Optimizing => "optimizing".to_owned(),
        RunStatus::Analysing => "voids and stress".to_owned(),
        RunStatus::Exporting => "exporting mesh".to_owned(),
        RunStatus::Finished { stl_path, .. } => joined("finished, wrote ", stl_path.as_str()),
        RunStatus::Failed(error) => joined("failed: ", error.as_str()),
    }
}

/// One progress line of an engine, its measured values written out.
#[derive(Debug)]
pub enum StatsText {
    /// The growth engine never evaluates a compliance, so the block it fills is
    /// a different one.
    Growth {
        /// Step.
        iteration: usize,
        /// What it is doing.
        phase: String,
        /// Segments so far.
        segments: usize,
        /// Attractors left.
        attractors: usize,
        /// Volume fraction.
        volume: String,
        /// Seconds so far.
        elapsed: String,
    },
    /// Every other engine.
    Density {
        /// Iteration.
        iteration: usize,
        /// Compliance.
        compliance: String,
        /// Volume fraction.
        volume: String,
        /// The fullest neighbourhood, while a local volume cap is active.
        worst: Option<String>,
        /// Largest change of a cell.
        change: String,
        /// Seconds so far.
        elapsed: String,
    },
}

/// A line of a column of values.
pub open spec fn row(text: Seq<char>) -> (Tone, Seq<char>) {
    (Tone::Mono, text)
}

/// The rows a progress line fills.
pub open spec fn stats_shown(stats: StatsText) -> Seq<(Tone, Seq<char>)> {
    match stats {
        StatsText::Growth { iteration, phase, segments, attractors, volume, elapsed } => seq![
            row("step        "@ + decimal_of(iteration as int)),
            row("phase       "@ + phase@),
            row("segments    "@ + decimal_of(segments as int)),
            row("attractors  "@ + decimal_of(attractors as int)),
            row("volume frac "@ + volume@),
            row("elapsed     "@ + elapsed@ + " s"@),
        ],
        StatsText::Density { iteration, compliance, volume, worst, change, elapsed } => seq![
            row("iteration   "@ + decimal_of(iteration as int)),
            row("compliance  "@ + compliance@),
            row("volume frac "@ + volume@),
        ] + (match worst {
            Some(worst) => seq![row("worst local "@ + worst@)],
            None => seq![],
        }) + seq![row("max change  "@ + change@), row("elapsed     "@ + elapsed@ + " s"@)],
    }
}

/// What an engine that has reported nothing yet is said to be doing.
pub open spec fn waiting_shown(engine: Option<Seq<char>>) -> Seq<(Tone, Seq<char>)> {
    if engine == Some(SOLID_ENGINE@) {
        seq![row("no iterations"@), (Tone::SmallWeak, SOLID_NOTE@)]
    } else {
        seq![row("waiting for the first iteration"@)]
    }
}

/// Why the solid engine shows no progress.
pub const SOLID_NOTE: &'static str = "the solid engine fills the domain and optimizes nothing, so there is no progress to show";

/// What the surface on screen is.
pub open spec fn frame_shown(frame: Option<FrameKind>) -> Seq<char> {
    match frame {
        Some(FrameKind::Preview { iteration }) => "preview of  iteration "@ + decimal_of(
            iteration as int,
        ),
        Some(FrameKind::Final) => "showing     exported mesh"@,
        None => NO_SURFACE@,
    }
}

/// What a panel says of a run, `volume` being the exported volume written out.
pub open spec fn run_shown<R, Q>(
    progress: Progress<StatsText, R, Q>,
    engine: Option<Seq<char>>,
    frame: Option<FrameKind>,
    volume: Seq<char>,
) -> Seq<(Tone, Seq<char>)> {
    seq![(Tone::Strong, "run"@), row(status_of(progress.status))] + (match progress.latest {
        Some(stats) => stats_shown(stats),
        None => waiting_shown(engine),
    }) + seq![row(frame_shown(frame))] + (match progress.status {
        RunStatus::Finished { triangles, .. } => seq![
            row("triangles   "@ + decimal_of(triangles as int)),
            row("volume      "@ + volume + " mm3"@),
        ],
        _ => seq![],
    }) + (match progress.note {
        Some(note) => seq![(Tone::Small, note@)],
        None => seq![],
    })
}

/// The row of the fullest neighbourhood, where a run says one: behind its heading and
/// its status, an iteration, a compliance and a volume.
pub open spec fn worst_local_at<R, Q>(progress: Option<Progress<StatsText, R, Q>>) -> Option<usize> {
    match progress {
        Some(Progress { latest: Some(StatsText::Density { worst: Some(_), .. }), .. }) => Some(5),
        _ => None,
    }
}

/// The row of a run's block that says how full the fullest neighbourhood is, which is
/// the one row with an explanation of its own.
pub fn worst_local_row<R, Q>(progress: Option<&Progress<StatsText, R, Q>>) -> (at: Option<usize>)
    ensures
        match progress {
            None => at is None,
            Some(progress) => {
                &&& at == worst_local_at(Some(*progress))
                &&& forall|engine: Option<Seq<char>>, frame: Option<FrameKind>, volume: Seq<char>|
                    at matches Some(at) ==> at < (#[trigger] run_shown(
                        *progress,
                        engine,
                        frame,
                        volume,
                    )).len() && run_shown(*progress, engine, frame, volume)[at as int] == row(
                        "worst local "@ + progress.latest->0->worst->0@,
                    )
            },
        },
{
    match progress {
        Some(progress) => match &progress.latest {
            Some(StatsText::Density { worst: Some(_), .. }) => Some(5),
            _ => None,
        },
        None => None,
    }
}

/// What a panel says where nothing is running.
pub open spec fn setup_shown() -> Seq<(Tone, Seq<char>)> {
    seq![
        (Tone::Strong, "problem setup"@),
        (Tone::Plain, "nothing is running; this is the model the optimizer will see"@),
    ]
}

/// A number behind a heading.
fn counted(head: &str, n: usize) -> (text: String)
    ensures
        text@ == head@ + decimal_of(n as int),
{
    joined(head, decimal(n as u64).as_str())
}

/// A value behind a heading and before a unit.
fn measured(head: &str, value: &str, unit: &str) -> (text: String)
    ensures
        text@ == head@ + value@ + unit@,
{
    let mut text = joined(head, value);
    text.append(unit);
    text
}

/// Add the rows a progress line fills.
fn say_stats(lines: &mut Vec<Line>, stats: &StatsText)
    ensures
        shown(final(lines)@) == shown(old(lines)@) + stats_shown(*stats),
{
    let ghost before = shown(lines@);
    match stats {
        StatsText::Growth { iteration, phase, segments, attractors, volume, elapsed } => {
            say(lines, Tone::Mono, counted("step        ", *iteration));
            say(lines, Tone::Mono, joined("phase       ", phase.as_str()));
            say(lines, Tone::Mono, counted("segments    ", *segments));
            say(lines, Tone::Mono, counted("attractors  ", *attractors));
            say(lines, Tone::Mono, joined("volume frac ", volume.as_str()));
            say(lines, Tone::Mono, measured("elapsed     ", elapsed.as_str(), " s"));
        },
        StatsText::Density { iteration, compliance, volume, worst, change, elapsed } => {
            say(lines, Tone::Mono, counted("iteration   ", *iteration));
            say(lines, Tone::Mono, joined("compliance  ", compliance.as_str()));
            say(lines, Tone::Mono, joined("volume frac ", volume.as_str()));
            match worst {
                Some(worst) => {
                    say(lines, Tone::Mono, joined("worst local ", worst.as_str()));
                },
                None => {},
            }
            say(lines, Tone::Mono, joined("max change  ", change.as_str()));
            say(lines, Tone::Mono, measured("elapsed     ", elapsed.as_str(), " s"));
        },
    }
    assert(shown(lines@) =~= before + stats_shown(*stats));
}

/// What the panel says of a run, or that nothing is running.
///
/// `engine` is here for one line: an engine that never reports an iteration - the
/// solid one - has to be told apart from one whose first iteration has not landed
/// yet.
pub fn run_block<R, Q>(
    progress: Option<&Progress<StatsText, R, Q>>,
    engine: Option<String>,
    frame: Option<FrameKind>,
    volume: &str,
) -> (lines: Vec<Line>)
    ensures
        shown(lines@) == (match progress {
            Some(progress) => run_shown(*progress, text_of(engine), frame, volume@),
            None => setup_shown(),
        }),
{
    let mut lines: Vec<Line> = Vec::new();
    assert(shown(lines@) =~= seq![]);
    match progress {
        None => {
            say(&mut lines, Tone::Strong, "problem setup".to_owned());
            say(
                &mut lines,
                Tone::Plain,
                "nothing is running; this is the model the optimizer will see".to_owned(),
            );
            assert(shown(lines@) =~= setup_shown());
        },
        Some(progress) => {
            say(&mut lines, Tone::Strong, "run".to_owned());
            say(&mut lines, Tone::Mono, status_label(&progress.status));
            match &progress.latest {
                Some(stats) => {
                    say_stats(&mut lines, stats);
                },
                None => {
                    let solid = match &engine {
                        Some(engine) => *engine == SOLID_ENGINE.to_owned(),
                        None => false,
                    };
                    if solid {
                        say(&mut lines, Tone::Mono, "no iterations".to_owned());
                        say(&mut lines, Tone::SmallWeak, SOLID_NOTE.to_owned());
                    } else {
                        say(&mut lines, Tone::Mono, "waiting for the first iteration".to_owned());
                    }
                },
            }
            let surface = match frame {
                Some(FrameKind::Preview { iteration }) => counted(
                    "preview of  iteration ",
                    iteration,
                ),
                Some(FrameKind::Final) => "showing     exported mesh".to_owned(),
                None => NO_SURFACE.to_owned(),
            };
            say(&mut lines, Tone::Mono, surface);
            match &progress.status {
                RunStatus::Finished { triangles, .. } => {
                    say(&mut lines, Tone::Mono, counted("triangles   ", *triangles));
                    say(&mut lines, Tone::Mono, measured("volume      ", volume, " mm3"));
                },
                _ => {},
            }
            match &progress.note {
                Some(note) => {
                    say(&mut lines, Tone::Small, note.as_str().to_owned());
                },
                None => {},
            }
            assert(shown(lines@) =~= run_shown(*progress, text_of(engine), frame, volume@));
        },
    }
    lines
}

} // verus!
