//! What the side panels say, block by block, and what their controls ask for.
//!
//! A panel is a list of lines and of switches; drawing them is the caller's. The
//! editor's panel and the panel of a run or a setup view share the layer
//! switches, so the same scene is controlled the same way in both windows.

use vstd::prelude::*;
use vstd::string::*;

use crate::config::text_of;
use crate::constants::{
    VIEW_EDIT_BLOCK_CONTROLS, VIEW_EDIT_BLOCK_OBJECTS, VIEW_EDIT_BLOCK_PROBLEM,
    VIEW_EDIT_BLOCK_PROPERTIES, VIEW_EDIT_BLOCK_STRESS, VIEW_EDIT_LOAD_CASE_LIST,
    VIEW_LAYER_SWITCHES_LABEL,
};
use crate::editor::{EditorState, StateView};
use crate::objects::{NewObject, Selection};
use crate::sameness::same_config;
use crate::snapshot::Progress;
use crate::text::joined;
use crate::worker::{generable, running, writing, Worker, WorkerView};

verus! {

/// How a line of a panel is drawn.
#[derive(Clone, Copy, Debug, PartialEq, Eq, Structural)]
pub enum Tone {
    /// As it is.
    Plain,
    /// As a heading.
    Heading,
    /// Small.
    Small,
    /// Weak.
    Weak,
    /// Small and weak.
    SmallWeak,
    /// Strong.
    Strong,
    /// With every character as wide as every other.
    Mono,
    /// Small, in the colour of a warning.
    Warning,
    /// Strong, in the colour of a warning.
    StrongWarning,
    /// Strong, in the colour of an error.
    StrongError,
}

/// One line of a panel.
#[derive(Debug)]
pub struct Line {
    /// How it is drawn.
    pub tone: Tone,
    /// What it says.
    pub text: String,
}

/// Lines as what they say and how.
pub open spec fn shown(lines: Seq<Line>) -> Seq<(Tone, Seq<char>)> {
    lines.map_values(|line: Line| (line.tone, line.text@))
}

/// Add a line.
pub(crate) fn say(lines: &mut Vec<Line>, tone: Tone, text: String)
    ensures
        shown(final(lines)@) == shown(old(lines)@).push((tone, text@)),
{
    let ghost before = lines@;
    lines.push(Line { tone, text });
    assert(shown(lines@) =~= shown(before).push((tone, text@)));
}

/// A list with nothing in it says nothing.
proof fn lemma_nothing_shown(lines: Seq<Line>)
    requires
        lines.len() == 0,
    ensures
        shown(lines) == Seq::<(Tone, Seq<char>)>::empty(),
{
    assert(shown(lines) =~= Seq::<(Tone, Seq<char>)>::empty());
}

/// One line per entry of a list, each drawn alike.
pub open spec fn each(tone: Tone, head: Seq<char>, entries: Seq<String>) -> Seq<(Tone, Seq<char>)> {
    entries.map_values(|entry: String| (tone, head + entry@))
}

/// Add one line per entry of a list, each drawn alike.
fn say_each(lines: &mut Vec<Line>, tone: Tone, head: &str, entries: &Vec<String>)
    ensures
        shown(final(lines)@) == shown(old(lines)@) + each(tone, head@, entries@),
{
    let ghost before = shown(lines@);
    let mut k: usize = 0;
    assert(before + each(tone, head@, entries@.take(0)) =~= before);
    while k < entries.len()
        invariant
            k <= entries.len(),
            shown(lines@) == before + each(tone, head@, entries@.take(k as int)),
        decreases entries.len() - k,
    {
        say(lines, tone, joined(head, entries[k].as_str()));
        k = k + 1;
        assert(shown(lines@) =~= before + each(tone, head@, entries@.take(k as int)));
    }
    assert(entries@.take(k as int) =~= entries@);
}

/// Which controls of the toolbar can be used.
#[derive(Clone, Copy, Debug, PartialEq, Eq, Structural)]
pub struct Toolbar {
    /// There is something to write.
    pub save: bool,
    /// There is a step to take back.
    pub undo: bool,
    /// There is a step to take again.
    pub redo: bool,
    /// The configuration builds and nothing is writing.
    pub run_full: bool,
    /// Something is running.
    pub stop: bool,
    /// There is a design on screen and nothing is writing.
    pub generate: bool,
}

/// The controls that can be used.
pub open spec fn toolbar_of<P, Q>(
    state: StateView,
    valid: bool,
    worker: WorkerView<P, Q>,
) -> Toolbar {
    Toolbar {
        save: !same_config(state.config, state.saved),
        undo: state.undo.len() > 0,
        redo: state.redo.len() > 0,
        run_full: valid && !writing(worker),
        stop: running(worker),
        generate: generable(worker),
    }
}

/// The file, undo, redo and run controls: which of them can be used.
///
/// A full run needs a configuration that builds; a generation does not, because
/// the design it would export carries its own problem, so a configuration edited
/// - or broken - since the run does not take the design away. Whatever is
/// running, one button ends it.
pub fn toolbar<P, Q, S, R, M>(
    state: &EditorState,
    valid: bool,
    worker: &Worker<P, Q, S, R, M>,
) -> (toolbar: Toolbar)
    ensures
        toolbar == toolbar_of(state@, valid, worker@),
{
    Toolbar {
        save: state.is_dirty(),
        undo: state.undo_depth() > 0,
        redo: state.redo_depth() > 0,
        run_full: valid && !worker.is_writing(),
        stop: worker.is_running(),
        generate: worker.can_generate(),
    }
}

/// The panel never offers two writers at once: while a run writes, neither a full
/// run nor a generation can be asked for, and the stop button can.
pub proof fn law_the_toolbar_never_offers_a_second_writer<P, Q>(
    state: StateView,
    valid: bool,
    worker: WorkerView<P, Q>,
)
    ensures
        writing(worker) ==> {
            let toolbar = toolbar_of(state, valid, worker);
            !toolbar.run_full && !toolbar.generate && toolbar.stop
        },
        !writing(worker) ==> toolbar_of(state, true, worker).run_full,
        toolbar_of(state, false, worker).generate == toolbar_of(state, true, worker).generate,
{
}

/// What the density surface on screen is called when there is none.
pub const NO_SURFACE: &'static str = "no surface  yet";

/// What the validation block says.
pub open spec fn validation_of(
    error: Option<Seq<char>>,
    warnings: Seq<String>,
    run: Option<Seq<char>>,
    frame: Option<Seq<char>>,
    note: Option<Seq<char>>,
) -> Seq<(Tone, Seq<char>)> {
    (match error {
        Some(error) => seq![
            (Tone::StrongError, "configuration is not runnable"@),
            (Tone::Small, error),
        ],
        None => seq![(Tone::Strong, "configuration is valid"@)] + each(
            Tone::Warning,
            "warning: "@,
            warnings,
        ),
    }) + (match run {
        Some(run) => seq![(Tone::Mono, run)],
        None => seq![],
    }) + seq![
        (
            Tone::Mono,
            match frame {
                Some(frame) => frame,
                None => NO_SURFACE@,
            },
        ),
    ] + (match note {
        Some(note) => seq![(Tone::Small, note)],
        None => seq![],
    })
}

/// The validation block: what is wrong with the configuration, or what it warns
/// about, what the run is doing, and what the surface on screen is.
pub fn validation(
    error: Option<String>,
    warnings: &Vec<String>,
    run: Option<String>,
    frame: Option<String>,
    note: Option<String>,
) -> (lines: Vec<Line>)
    ensures
        shown(lines@) == validation_of(
            text_of(error),
            warnings@,
            text_of(run),
            text_of(frame),
            text_of(note),
        ),
{
    let mut lines: Vec<Line> = Vec::new();
    proof {
        lemma_nothing_shown(lines@);
    }
    match error {
        Some(error) => {
            say(&mut lines, Tone::StrongError, "configuration is not runnable".to_owned());
            say(&mut lines, Tone::Small, error);
        },
        None => {
            say(&mut lines, Tone::Strong, "configuration is valid".to_owned());
            say_each(&mut lines, Tone::Warning, "warning: ", warnings);
        },
    }
    match run {
        Some(run) => {
            say(&mut lines, Tone::Mono, run);
        },
        None => {},
    }
    match frame {
        Some(frame) => {
            say(&mut lines, Tone::Mono, frame);
        },
        None => {
            say(&mut lines, Tone::Mono, NO_SURFACE.to_owned());
        },
    }
    match note {
        Some(note) => {
            say(&mut lines, Tone::Small, note);
        },
        None => {},
    }
    assert(shown(lines@) =~= validation_of(
        text_of(error),
        warnings@,
        text_of(run),
        text_of(frame),
        text_of(note),
    ));
    lines
}

/// What a note that has to be noticed begins with.
pub const WARNING_WORD: &'static str = "warning";

/// Whether a text begins with another.
pub open spec fn begins_with(text: Seq<char>, head: Seq<char>) -> bool {
    head.len() <= text.len() && text.take(head.len() as int) == head
}

/// Whether `text` begins with `head`.
pub fn starts_with(text: &str, head: &str) -> (answer: bool)
    ensures
        answer == begins_with(text@, head@),
{
    let long: usize = text.unicode_len();
    let short: usize = head.unicode_len();
    if short > long {
        return false;
    }
    let mut k: usize = 0;
    while k < short
        invariant
            k <= short <= long,
            short == head@.len(),
            long == text@.len(),
            forall|j: int| 0 <= j < k ==> text@[j] == head@[j],
        decreases short - k,
    {
        if text.get_char(k) != head.get_char(k) {
            assert(text@.take(head@.len() as int)[k as int] != head@[k as int]);
            return false;
        }
        k = k + 1;
    }
    assert(text@.take(head@.len() as int) =~= head@);
    true
}

/// What is said of one pass: its notes, each under the name of the pass, and the
/// warnings among them in the colour of one.
pub open spec fn notes_shown(pass: Seq<char>, notes: Seq<String>) -> Seq<(Tone, Seq<char>)> {
    notes.map_values(
        |note: String|
            (
                if begins_with(note@, WARNING_WORD@) {
                    Tone::Warning
                } else {
                    Tone::Small
                },
                pass + note@,
            ),
    )
}

/// Add what is said of one pass.
fn say_notes(lines: &mut Vec<Line>, pass: &str, notes: &Vec<String>)
    ensures
        shown(final(lines)@) == shown(old(lines)@) + notes_shown(pass@, notes@),
{
    let ghost before = shown(lines@);
    let mut k: usize = 0;
    assert(before + notes_shown(pass@, notes@.take(0)) =~= before);
    while k < notes.len()
        invariant
            k <= notes.len(),
            shown(lines@) == before + notes_shown(pass@, notes@.take(k as int)),
        decreases notes.len() - k,
    {
        let tone = if starts_with(notes[k].as_str(), WARNING_WORD) {
            Tone::Warning
        } else {
            Tone::Small
        };
        say(lines, tone, joined(pass, notes[k].as_str()));
        k = k + 1;
        assert(shown(lines@) =~= before + notes_shown(pass@, notes@.take(k as int)));
    }
    assert(notes@.take(k as int) =~= notes@);
}

/// What the passes after a run did to the part, every pass of them. What the trim
/// freed and what the reinforcement spent are two halves of one exchange, and
/// stand side by side.
pub fn pass_notes<S, R, Q>(progress: &Progress<S, R, Q>) -> (lines: Vec<Line>)
    ensures
        shown(lines@) == notes_shown("flush "@, progress.flush@) + notes_shown(
            "trim "@,
            progress.trim@,
        ) + notes_shown("reinforce "@, progress.reinforce@) + notes_shown(
            "boundaries "@,
            progress.clamp@,
        ),
{
    let mut lines: Vec<Line> = Vec::new();
    proof {
        lemma_nothing_shown(lines@);
    }
    say_notes(&mut lines, "flush ", &progress.flush);
    say_notes(&mut lines, "trim ", &progress.trim);
    say_notes(&mut lines, "reinforce ", &progress.reinforce);
    say_notes(&mut lines, "boundaries ", &progress.clamp);
    assert(shown(lines@) =~= notes_shown("flush "@, progress.flush@) + notes_shown(
        "trim "@,
        progress.trim@,
    ) + notes_shown("reinforce "@, progress.reinforce@) + notes_shown(
        "boundaries "@,
        progress.clamp@,
    ));
    lines
}

/// What a part came out at.
#[derive(Debug)]
pub struct StressSummary {
    /// What the number is worth, where that has to be said.
    pub warning: Option<String>,
    /// The safety factor.
    pub headline: String,
    /// The peak of every load case.
    pub cases: Vec<String>,
}

/// What the stress block says.
pub open spec fn stress_shown(summary: StressSummary) -> Seq<(Tone, Seq<char>)> {
    (match summary.warning {
        Some(warning) => seq![(Tone::StrongWarning, warning@)],
        None => seq![],
    }) + seq![(Tone::Strong, summary.headline@)] + each(Tone::Mono, seq![], summary.cases@)
}

/// The stress block. What a safety factor is worth has to be read before the
/// factor, not after it; the peaks it was taken from sit under it.
pub fn stress_block(summary: &StressSummary) -> (lines: Vec<Line>)
    ensures
        shown(lines@) == stress_shown(*summary),
{
    let mut lines: Vec<Line> = Vec::new();
    proof {
        lemma_nothing_shown(lines@);
        reveal_strlit("");
        assert(""@ =~= seq![]);
    }
    match &summary.warning {
        Some(warning) => {
            say(&mut lines, Tone::StrongWarning, warning.as_str().to_owned());
        },
        None => {},
    }
    say(&mut lines, Tone::Strong, summary.headline.as_str().to_owned());
    say_each(&mut lines, Tone::Mono, "", &summary.cases);
    assert(shown(lines@) =~= stress_shown(*summary));
    lines
}

/// What the problem summary says.
pub open spec fn summary_shown(stale: bool, summary: Seq<String>) -> Seq<(Tone, Seq<char>)> {
    (if stale {
        seq![(Tone::Weak, "refreshing..."@)]
    } else {
        seq![]
    }) + each(Tone::Mono, seq![], summary)
}

/// The live problem summary, and whether it is behind the configuration.
pub fn problem_summary(stale: bool, summary: &Vec<String>) -> (lines: Vec<Line>)
    ensures
        shown(lines@) == summary_shown(stale, summary@),
{
    let mut lines: Vec<Line> = Vec::new();
    proof {
        lemma_nothing_shown(lines@);
        reveal_strlit("");
        assert(""@ =~= seq![]);
    }
    if stale {
        say(&mut lines, Tone::Weak, "refreshing...".to_owned());
    }
    say_each(&mut lines, Tone::Mono, "", summary);
    assert(shown(lines@) =~= summary_shown(stale, summary@));
    lines
}

/// The control legend of the editor, as its panel lists it.
pub open spec fn legend() -> Seq<(Tone, Seq<char>)> {
    seq![
        (Tone::Mono, "left click    select"@),
        (Tone::Mono, "left drag     orbit"@),
        (Tone::Mono, "drag handle   move or resize (snapped)"@),
        (Tone::Mono, "drag arc      rotate about that axis"@),
        (Tone::Mono, "Alt + drag    free drag, no snapping"@),
        (Tone::Mono, "click number  type an exact value"@),
        (Tone::Mono, "Esc           cancel the number being typed"@),
        (Tone::Mono, "right drag    pan"@),
        (Tone::Mono, "scroll        zoom"@),
        (Tone::Mono, "F             fit view"@),
        (Tone::Mono, "Delete        delete selection"@),
        (Tone::Mono, "Ctrl+Z / +Y   undo / redo"@),
        (Tone::Mono, "Ctrl+S        save"@),
        (Tone::Mono, "Ctrl+O        open another configuration"@),
        (Tone::Mono, "Ctrl+N        new configuration"@),
    ]
}

/// The control legend of the editor.
///
/// Hand written and hand maintained: nothing derives it from the code that
/// implements the bindings, so a binding is listed here only because somebody
/// listed it.
pub fn controls() -> (lines: Vec<Line>)
    ensures
        shown(lines@) == legend(),
{
    let mut lines: Vec<Line> = Vec::new();
    proof {
        lemma_nothing_shown(lines@);
    }
    say(&mut lines, Tone::Mono, "left click    select".to_owned());
    say(&mut lines, Tone::Mono, "left drag     orbit".to_owned());
    say(&mut lines, Tone::Mono, "drag handle   move or resize (snapped)".to_owned());
    say(&mut lines, Tone::Mono, "drag arc      rotate about that axis".to_owned());
    say(&mut lines, Tone::Mono, "Alt + drag    free drag, no snapping".to_owned());
    say(&mut lines, Tone::Mono, "click number  type an exact value".to_owned());
    say(&mut lines, Tone::Mono, "Esc           cancel the number being typed".to_owned());
    say(&mut lines, Tone::Mono, "right drag    pan".to_owned());
    say(&mut lines, Tone::Mono, "scroll        zoom".to_owned());
    say(&mut lines, Tone::Mono, "F             fit view".to_owned());
    say(&mut lines, Tone::Mono, "Delete        delete selection".to_owned());
    say(&mut lines, Tone::Mono, "Ctrl+Z / +Y   undo / redo".to_owned());
    say(&mut lines, Tone::Mono, "Ctrl+S        save".to_owned());
    say(&mut lines, Tone::Mono, "Ctrl+O        open another configuration".to_owned());
    say(&mut lines, Tone::Mono, "Ctrl+N        new configuration".to_owned());
    assert(shown(lines@) =~= legend());
    lines
}

/// The control legend of a run or setup window.
pub open spec fn view_legend() -> Seq<(Tone, Seq<char>)> {
    seq![
        (Tone::Strong, "controls"@),
        (Tone::Mono, "left drag    orbit"@),
        (Tone::Mono, "right drag   pan"@),
        (Tone::Mono, "scroll       zoom"@),
        (Tone::Mono, "F            fit view"@),
        (Tone::Mono, "close window detaches"@),
    ]
}

/// The control legend of a run or setup window, heading included.
pub fn view_controls() -> (lines: Vec<Line>)
    ensures
        shown(lines@) == view_legend(),
{
    let mut lines: Vec<Line> = Vec::new();
    proof {
        lemma_nothing_shown(lines@);
    }
    say(&mut lines, Tone::Strong, "controls".to_owned());
    say(&mut lines, Tone::Mono, "left drag    orbit".to_owned());
    say(&mut lines, Tone::Mono, "right drag   pan".to_owned());
    say(&mut lines, Tone::Mono, "scroll       zoom".to_owned());
    say(&mut lines, Tone::Mono, "F            fit view".to_owned());
    say(&mut lines, Tone::Mono, "close window detaches".to_owned());
    assert(shown(lines@) =~= view_legend());
    lines
}

/// A block of the editor's panel that can be folded away.
#[derive(Clone, Copy, Debug, PartialEq, Eq, Structural)]
pub enum Block {
    /// The object tree.
    Objects,
    /// The fields of what is selected.
    Properties,
    /// The layer switches.
    Show,
    /// What the part came out at.
    Stress,
    /// The problem summary.
    Problem,
    /// The control legend.
    Controls,
    /// The list of domain entries.
    Domain,
    /// The list of keepout regions.
    Keepout,
    /// The list of keepin regions.
    Keepin,
    /// The list of supports.
    Supports,
    /// The list of load cases.
    LoadCases,
    /// The engine and its solver.
    Engine,
    /// The resolution.
    Resolution,
    /// The material.
    Material,
    /// The optimization controls.
    Optimization,
    /// The growth controls.
    Growth,
    /// The output controls.
    Output,
}

/// What a block is known by, which never changes with what it holds.
pub open spec fn block_name(block: Block) -> Seq<char> {
    match block {
        Block::Objects => VIEW_EDIT_BLOCK_OBJECTS@,
        Block::Properties => VIEW_EDIT_BLOCK_PROPERTIES@,
        Block::Show => VIEW_LAYER_SWITCHES_LABEL@,
        Block::Stress => VIEW_EDIT_BLOCK_STRESS@,
        Block::Problem => VIEW_EDIT_BLOCK_PROBLEM@,
        Block::Controls => VIEW_EDIT_BLOCK_CONTROLS@,
        Block::Domain => "domain"@,
        Block::Keepout => "keepout"@,
        Block::Keepin => "keepin"@,
        Block::Supports => "supports"@,
        Block::LoadCases => VIEW_EDIT_LOAD_CASE_LIST@,
        Block::Engine => "engine"@,
        Block::Resolution => "resolution"@,
        Block::Material => "material"@,
        Block::Optimization => "optimization"@,
        Block::Growth => "growth"@,
        Block::Output => "output"@,
    }
}

/// Whether the panel opens with a block unfolded: the ones a session works in
/// are, and the long lists and the references are not.
pub open spec fn starts_open(block: Block) -> bool {
    match block {
        Block::Objects
        | Block::Properties
        | Block::Show
        | Block::Stress
        | Block::Engine
        | Block::Resolution
        | Block::Optimization
        | Block::Growth => true,
        _ => false,
    }
}

impl Block {
    /// What the block is known by. The headings of the lists carry a live count
    /// and cannot be what a list is known by: it would fold itself away whenever
    /// an object is added to it.
    pub fn name(self) -> (name: &'static str)
        ensures
            name@ == block_name(self),
    {
        match self {
            Block::Objects => VIEW_EDIT_BLOCK_OBJECTS,
            Block::Properties => VIEW_EDIT_BLOCK_PROPERTIES,
            Block::Show => VIEW_LAYER_SWITCHES_LABEL,
            Block::Stress => VIEW_EDIT_BLOCK_STRESS,
            Block::Problem => VIEW_EDIT_BLOCK_PROBLEM,
            Block::Controls => VIEW_EDIT_BLOCK_CONTROLS,
            Block::Domain => "domain",
            Block::Keepout => "keepout",
            Block::Keepin => "keepin",
            Block::Supports => "supports",
            Block::LoadCases => VIEW_EDIT_LOAD_CASE_LIST,
            Block::Engine => "engine",
            Block::Resolution => "resolution",
            Block::Material => "material",
            Block::Optimization => "optimization",
            Block::Growth => "growth",
            Block::Output => "output",
        }
    }

    /// Whether the panel opens with the block unfolded.
    pub fn is_open_at_first(self) -> (answer: bool)
        ensures
            answer == starts_open(self),
    {
        match self {
            Block::Objects => true,
            Block::Properties => true,
            Block::Show => true,
            Block::Stress => true,
            Block::Problem => false,
            Block::Controls => false,
            Block::Domain => false,
            Block::Keepout => false,
            Block::Keepin => false,
            Block::Supports => false,
            Block::LoadCases => false,
            Block::Engine => true,
            Block::Resolution => true,
            Block::Material => false,
            Block::Optimization => true,
            Block::Growth => true,
            Block::Output => false,
        }
    }
}

/// What the block of the selection draws, row by row.
#[derive(Clone, Copy, Debug, PartialEq, Eq, Structural)]
pub enum PropertyRow {
    /// That nothing is selected.
    NothingSelected,
    /// The delete button.
    Delete,
    /// What the object is called.
    Name,
    /// How a domain entry joins the design space.
    Operation,
    /// The directions a support holds.
    Directions,
    /// The name of a load case.
    LoadCase,
    /// The fields of a load.
    Load,
    /// The fields of the object's shape.
    Shape,
}

/// The rows of the block, `shaped` being whether the selection has a shape and
/// `deleting` whether the button was pressed this frame.
pub open spec fn property_rows_of(
    selection: Option<Selection>,
    shaped: bool,
    deleting: bool,
) -> Seq<PropertyRow> {
    match selection {
        None => seq![PropertyRow::NothingSelected],
        Some(selection) => if deleting {
            seq![PropertyRow::Delete]
        } else {
            seq![PropertyRow::Delete, PropertyRow::Name] + (match selection {
                Selection::Domain(_) => seq![PropertyRow::Operation],
                Selection::Support(_) => seq![PropertyRow::Directions],
                Selection::LoadCase(_) => seq![PropertyRow::LoadCase],
                Selection::Load { .. } => seq![PropertyRow::Load],
                _ => seq![],
            }) + (if shaped {
                seq![PropertyRow::Shape]
            } else {
                seq![]
            })
        },
    }
}

/// The rows of the block of the selection.
///
/// The fields of an object that is going are not drawn: the delete is applied by
/// the session once the panel is done with the document.
pub fn property_rows(selection: Option<Selection>, shaped: bool, deleting: bool) -> (rows: Vec<
    PropertyRow,
>)
    ensures
        rows@ == property_rows_of(selection, shaped, deleting),
{
    let mut rows: Vec<PropertyRow> = Vec::new();
    match selection {
        None => {
            rows.push(PropertyRow::NothingSelected);
        },
        Some(selection) => {
            rows.push(PropertyRow::Delete);
            if !deleting {
                rows.push(PropertyRow::Name);
                match selection {
                    Selection::Domain(_) => {
                        rows.push(PropertyRow::Operation);
                    },
                    Selection::Support(_) => {
                        rows.push(PropertyRow::Directions);
                    },
                    Selection::LoadCase(_) => {
                        rows.push(PropertyRow::LoadCase);
                    },
                    Selection::Load { .. } => {
                        rows.push(PropertyRow::Load);
                    },
                    _ => {},
                }
                if shaped {
                    rows.push(PropertyRow::Shape);
                }
            }
        },
    }
    assert(rows@ =~= property_rows_of(selection, shaped, deleting));
    rows
}

/// What the session is asked to do once a frame of the panel is over.
#[derive(Clone, Copy, Debug, PartialEq, Eq, Structural)]
pub enum PanelAction {
    /// Say that something was kept inside the domain.
    NoteClamped,
    /// Take the edit in.
    Edited,
    /// Delete what is selected.
    DeleteSelection,
    /// Start or end the placement of an object.
    TogglePlacing(NewObject),
}

/// What the session is asked to do, in that order.
pub open spec fn panel_actions_of(
    clamped: bool,
    touched: bool,
    deleting: bool,
    placing: Option<NewObject>,
) -> Seq<PanelAction> {
    (if clamped {
        seq![PanelAction::NoteClamped]
    } else {
        seq![]
    }) + (if touched {
        seq![PanelAction::Edited]
    } else {
        seq![]
    }) + (if deleting {
        seq![PanelAction::DeleteSelection]
    } else {
        seq![]
    }) + (match placing {
        Some(what) => seq![PanelAction::TogglePlacing(what)],
        None => seq![],
    })
}

/// What the session is asked to do once a frame of the panel is over.
///
/// The last two are handed back rather than applied where they were clicked:
/// both reach past the document into the session.
pub fn panel_actions(
    clamped: bool,
    touched: bool,
    deleting: bool,
    placing: Option<NewObject>,
) -> (actions: Vec<PanelAction>)
    ensures
        actions@ == panel_actions_of(clamped, touched, deleting, placing),
{
    let mut actions: Vec<PanelAction> = Vec::new();
    if clamped {
        actions.push(PanelAction::NoteClamped);
    }
    if touched {
        actions.push(PanelAction::Edited);
    }
    if deleting {
        actions.push(PanelAction::DeleteSelection);
    }
    match placing {
        Some(what) => {
            actions.push(PanelAction::TogglePlacing(what));
        },
        None => {},
    }
    assert(actions@ =~= panel_actions_of(clamped, touched, deleting, placing));
    actions
}

/// The name chosen from a dropdown of names, if it is not the one that was shown.
pub fn chosen_name(current: &String, clicked: Option<String>) -> (chosen: Option<String>)
    ensures
        match clicked {
            Some(name) => text_of(chosen) == (if name@ == current@ {
                None
            } else {
                Some(name@)
            }),
            None => chosen is None,
        },
        chosen is Some <==> clicked is Some && clicked->0@ != current@,
        chosen is Some ==> chosen->0@ == clicked->0@,
{
    match clicked {
        Some(name) => {
            if name == *current {
                None
            } else {
                Some(name)
            }
        },
        None => None,
    }
}

/// What a frame did to a callout.
#[derive(Clone, Copy, Debug, PartialEq, Eq, Structural)]
pub struct CalloutFrame {
    /// Whether the number is being typed.
    pub typing: bool,
    /// Whether its button was clicked.
    pub clicked: bool,
    /// Whether its field lost the focus.
    pub lost_focus: bool,
    /// Whether Enter was pressed.
    pub enter: bool,
}

/// What becomes of a callout.
#[derive(Clone, Copy, Debug, PartialEq, Eq, Structural)]
pub enum CalloutStep {
    /// The number becomes a field, which takes the focus.
    BeginTyping,
    /// What was typed is applied, and the field put away.
    Commit,
    /// The field is put away, and the value left as it is.
    Cancel,
    /// What is typed so far is kept.
    Keep,
}

/// What becomes of a callout that a frame did that to.
pub open spec fn callout_step_of(frame: CalloutFrame) -> CalloutStep {
    if !frame.typing {
        if frame.clicked {
            CalloutStep::BeginTyping
        } else {
            CalloutStep::Keep
        }
    } else if !frame.lost_focus {
        CalloutStep::Keep
    } else if frame.enter {
        CalloutStep::Commit
    } else {
        CalloutStep::Cancel
    }
}

/// What becomes of a callout.
///
/// Clicking the measurement turns it into a text field. Enter commits what was
/// typed there; anything else that takes the focus away - Escape, a click
/// elsewhere - leaves the drag's own value alone. A frame in which nobody does
/// anything decides nothing.
pub fn callout_step(frame: CalloutFrame) -> (step: CalloutStep)
    ensures
        step == callout_step_of(frame),
{
    if !frame.typing {
        if frame.clicked {
            CalloutStep::BeginTyping
        } else {
            CalloutStep::Keep
        }
    } else if !frame.lost_focus {
        CalloutStep::Keep
    } else if frame.enter {
        CalloutStep::Commit
    } else {
        CalloutStep::Cancel
    }
}

/// What is said of how far an object is off the floor, in its own callout.
pub fn floor_label(height: &str) -> (label: String)
    ensures
        label@ == "floor "@ + height@,
{
    joined("floor ", height)
}

/// What somebody who was asked about unsaved changes answered.
#[derive(Clone, Copy, Debug, PartialEq, Eq, Structural)]
pub enum CloseDecision {
    /// Write the file, then go on.
    Save,
    /// Drop the edits, and go on.
    Discard,
    /// Stay.
    Cancel,
}

/// What the modal about unsaved changes says.
pub open spec fn guard_shown(
    path: Seq<char>,
    destination: Option<Seq<char>>,
    is_running: bool,
) -> Seq<(Tone, Seq<char>)> {
    seq![
        (Tone::Heading, "unsaved changes"@),
        (Tone::Plain, path + " has edits that have not been written."@),
    ] + (match destination {
        Some(next) => seq![(Tone::Small, next + " would be edited instead"@)],
        None => seq![],
    }) + (if is_running {
        seq![
            (Tone::Small, "the run in progress will be stopped, and will not write a file"@),
        ]
    } else {
        seq![]
    })
}

/// The modal about unsaved changes: what it says, heading first.
///
/// One modal over every way of leaving a document behind, because the question
/// is the same one every time. Which file is about to take its place is named
/// when one is: to discard means a different thing to someone who cannot see
/// where they are going.
pub fn guard_modal(path: &str, destination: Option<String>, is_running: bool) -> (lines: Vec<Line>)
    ensures
        shown(lines@) == guard_shown(path@, text_of(destination), is_running),
{
    let mut lines: Vec<Line> = Vec::new();
    proof {
        lemma_nothing_shown(lines@);
    }
    say(&mut lines, Tone::Heading, "unsaved changes".to_owned());
    say(&mut lines, Tone::Plain, joined(path, " has edits that have not been written."));
    match destination {
        Some(next) => {
            say(&mut lines, Tone::Small, joined(next.as_str(), " would be edited instead"));
        },
        None => {},
    }
    if is_running {
        say(
            &mut lines,
            Tone::Small,
            "the run in progress will be stopped, and will not write a file".to_owned(),
        );
    }
    assert(shown(lines@) =~= guard_shown(path@, text_of(destination), is_running));
    lines
}

/// The label of the button that writes the file and goes on.
pub fn guard_save_label(verb: &str) -> (label: String)
    ensures
        label@ == "save and "@ + verb@,
{
    joined("save and ", verb)
}

/// What was decided in a frame of the modal: nothing unless a button was
/// clicked.
pub fn guard_decision(save: bool, discard: bool, cancel: bool) -> (decision: Option<CloseDecision>)
    ensures
        decision == (if cancel {
            Some(CloseDecision::Cancel)
        } else if discard {
            Some(CloseDecision::Discard)
        } else if save {
            Some(CloseDecision::Save)
        } else {
            None
        }),
        decision is None <==> !save && !discard && !cancel,
        decision == Some(CloseDecision::Cancel) <==> cancel,
        decision == Some(CloseDecision::Save) <==> save && !discard && !cancel,
{
    if cancel {
        Some(CloseDecision::Cancel)
    } else if discard {
        Some(CloseDecision::Discard)
    } else if save {
        Some(CloseDecision::Save)
    } else {
        None
    }
}

} // verus!
