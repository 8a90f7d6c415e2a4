//! The drawable scene: one triangle soup per overlay class, and the switches
//! that decide which of them is on screen.

use vstd::prelude::*;

use crate::constants::{VIEW_DEFAULT_FLAT_SHADING, VIEW_EDIT_ISOLATE_PART_DEFAULT};
use crate::scalar::{Scalar, INFINITY_BITS, SIGN_BIT};
use crate::shapes::Vec3;

verus! {

/// The overlay classes the viewer can show, each independently toggleable.
#[derive(Clone, Copy, Debug, PartialEq, Eq, Structural)]
pub enum Layer {
    /// Voxelized design domain, exactly as the optimizer sees it.
    Domain,
    /// Regions that must stay empty.
    Keepout,
    /// Regions forced solid.
    Keepin,
    /// Markers on the constrained nodes.
    Supports,
    /// Force arrows and torque arcs.
    Loads,
    /// The evolving, then final, density isosurface.
    Density,
    /// Highlight shell around the object the editor has selected.
    Selection,
    /// Thinner shell around the object under the pointer: what a click would
    /// select, previewed before it is clicked.
    Hover,
    /// The editor's drag handles: translation arrows, rotation arcs and resize
    /// cubes.
    Gizmo,
    /// The editor's dimension lines: what a drag in progress is measuring, and
    /// how far the object is off the floor of the domain.
    Measure,
    /// Ruled plane on the floor of the domain, at the increment drags snap to.
    Grid,
    /// The editor's placement preview: the points a two-click placement has
    /// taken so far, and the shape the next click would create.
    Placement,
}

/// Where a layer's geometry comes from, which is also what decides who lists it.
#[derive(Clone, Copy, Debug, PartialEq, Eq, Structural)]
pub enum LayerRole {
    /// Derived from the configuration. An edit rebuilds all of them together.
    Setup,
    /// Produced by a run: the evolving preview and then the exported surface.
    Density,
    /// Produced by the editor alone. The setup view and the run panel never
    /// list these.
    Editor,
}

/// Which block of a panel draws a layer's visibility switch.
#[derive(Clone, Copy, Debug, PartialEq, Eq, Structural)]
pub enum SwitchHome {
    /// The `show` block, with the rest of them.
    Show,
    /// A block that owns the switch and draws it itself: the floor grid's
    /// belongs beside the snap increment it is ruled at. The `show` block leaves
    /// these out, so only a layer the editor produces may say it - anywhere else
    /// there is no such block, and the switch would exist nowhere at all.
    Elsewhere,
}

/// Static description of one layer.
#[derive(Clone, Copy, Debug)]
pub struct LayerInfo {
    /// The layer this describes.
    pub layer: Layer,
    /// Label used by the visibility checkboxes.
    pub label: &'static str,
    /// What the layer shows, as the visibility checkbox says it on hover.
    pub help: &'static str,
    /// Translucent layers are drawn after the opaque ones with depth writes
    /// switched off.
    pub translucent: bool,
    /// What produces this layer's geometry.
    pub role: LayerRole,
    /// Where the visibility switch for this layer is drawn.
    pub switch: SwitchHome,
}

/// What the density layer shows.
pub const HELP_DENSITY: &'static str = "the isosurface of the design, re-extracted as a run iterates, and the exported mesh once one has finished";

/// What the supports layer shows.
pub const HELP_SUPPORTS: &'static str = "a marker on every node a supports region really constrains, read back out of the assembled model";

/// What the loads layer shows.
pub const HELP_LOADS: &'static str = "an arrow per force and a circular arc per torque. A gravity load gets none: it acts on the whole structure";

/// What the gizmo layer shows.
pub const HELP_GIZMO: &'static str = "the handles of the selected object: three translation arrows, three rotation arcs and the resize handles its own shape has";

/// What the dimensions layer shows.
pub const HELP_MEASURE: &'static str = "the dimension lines of a drag: what the handle is measuring, and how far the object is off the floor of the domain";

/// What the floor grid layer shows.
pub const HELP_GRID: &'static str = "the plane ruled at the snap increment, on the floor of the domain. It is what makes the increment visible";

/// What the domain layer shows.
pub const HELP_DOMAIN: &'static str = "the design space as it was voxelized, chamfers and all, so what you check is what the solver actually got";

/// What the keepout layer shows.
pub const HELP_KEEPOUT: &'static str = "the regions that must stay empty";

/// What the keepin layer shows.
pub const HELP_KEEPIN: &'static str = "the regions forced solid, such as load pads and anchor bosses";

/// What the selection layer shows.
pub const HELP_SELECTION: &'static str = "the shell around the object that is selected";

/// What the hover layer shows.
pub const HELP_HOVER: &'static str = "the outline around whatever a click would select, drawn with the ray and the ranking that click would use";

/// What the placement layer shows.
pub const HELP_PLACEMENT: &'static str = "while a tube is being placed: the point already clicked, a marker where the next click would land, and the tube they would make";

/// Number of layers.
pub const LAYER_COUNT: usize = 12;

/// Every layer, in panel and draw order. Opaque layers come first.
pub open spec fn layer_order() -> Seq<Layer> {
    seq![
        Layer::Density,
        Layer::Supports,
        Layer::Loads,
        Layer::Gizmo,
        Layer::Measure,
        Layer::Grid,
        Layer::Domain,
        Layer::Keepout,
        Layer::Keepin,
        Layer::Selection,
        Layer::Hover,
        Layer::Placement,
    ]
}

/// The text on a layer's visibility checkbox.
pub open spec fn label_of(layer: Layer) -> Seq<char> {
    match layer {
        Layer::Density => "density surface"@,
        Layer::Supports => "supports"@,
        Layer::Loads => "loads"@,
        Layer::Gizmo => "gizmo"@,
        Layer::Measure => "dimensions"@,
        Layer::Grid => "floor grid"@,
        Layer::Domain => "domain (voxelized)"@,
        Layer::Keepout => "keepout"@,
        Layer::Keepin => "keepin"@,
        Layer::Selection => "selection"@,
        Layer::Hover => "hover highlight"@,
        Layer::Placement => "placement preview"@,
    }
}

/// The text a layer's visibility checkbox says on hover.
pub open spec fn help_of(layer: Layer) -> Seq<char> {
    match layer {
        Layer::Density => HELP_DENSITY@,
        Layer::Supports => HELP_SUPPORTS@,
        Layer::Loads => HELP_LOADS@,
        Layer::Gizmo => HELP_GIZMO@,
        Layer::Measure => HELP_MEASURE@,
        Layer::Grid => HELP_GRID@,
        Layer::Domain => HELP_DOMAIN@,
        Layer::Keepout => HELP_KEEPOUT@,
        Layer::Keepin => HELP_KEEPIN@,
        Layer::Selection => HELP_SELECTION@,
        Layer::Hover => HELP_HOVER@,
        Layer::Placement => HELP_PLACEMENT@,
    }
}

/// What produces a layer.
pub open spec fn role_of(layer: Layer) -> LayerRole {
    match layer {
        Layer::Density => LayerRole::Density,
        Layer::Supports | Layer::Loads | Layer::Domain | Layer::Keepout | Layer::Keepin => {
            LayerRole::Setup
        },
        _ => LayerRole::Editor,
    }
}

/// True for a layer drawn over a finished depth buffer.
pub open spec fn is_translucent(layer: Layer) -> bool {
    match layer {
        Layer::Density | Layer::Supports | Layer::Loads | Layer::Gizmo | Layer::Measure
        | Layer::Grid => false,
        _ => true,
    }
}

/// Where a layer's switch is drawn.
pub open spec fn switch_of(layer: Layer) -> SwitchHome {
    if layer == Layer::Grid {
        SwitchHome::Elsewhere
    } else {
        SwitchHome::Show
    }
}

/// Where a layer stands in the order.
pub open spec fn slot_of(layer: Layer) -> int {
    match layer {
        Layer::Density => 0,
        Layer::Supports => 1,
        Layer::Loads => 2,
        Layer::Gizmo => 3,
        Layer::Measure => 4,
        Layer::Grid => 5,
        Layer::Domain => 6,
        Layer::Keepout => 7,
        Layer::Keepin => 8,
        Layer::Selection => 9,
        Layer::Hover => 10,
        Layer::Placement => 11,
    }
}

/// Every layer, in panel and draw order.
pub fn layers() -> (order: Vec<Layer>)
    ensures
        order@ == layer_order(),
{
    let mut order: Vec<Layer> = Vec::new();
    order.push(Layer::Density);
    order.push(Layer::Supports);
    order.push(Layer::Loads);
    order.push(Layer::Gizmo);
    order.push(Layer::Measure);
    order.push(Layer::Grid);
    order.push(Layer::Domain);
    order.push(Layer::Keepout);
    order.push(Layer::Keepin);
    order.push(Layer::Selection);
    order.push(Layer::Hover);
    order.push(Layer::Placement);
    assert(order@ =~= layer_order());
    order
}

impl Layer {
    /// Slot of this layer in the per-layer arrays.
    pub fn slot(self) -> (slot: usize)
        ensures
            slot == slot_of(self),
            slot < LAYER_COUNT,
            layer_order()[slot as int] == self,
    {
        match self {
            Layer::Density => 0,
            Layer::Supports => 1,
            Layer::Loads => 2,
            Layer::Gizmo => 3,
            Layer::Measure => 4,
            Layer::Grid => 5,
            Layer::Domain => 6,
            Layer::Keepout => 7,
            Layer::Keepin => 8,
            Layer::Selection => 9,
            Layer::Hover => 10,
            Layer::Placement => 11,
        }
    }

    /// Static description of this layer.
    pub fn info(self) -> (info: LayerInfo)
        ensures
            info.layer == self,
            info.label@ == label_of(self),
            info.help@ == help_of(self),
            info.translucent == is_translucent(self),
            info.role == role_of(self),
            info.switch == switch_of(self),
    {
        let (label, help): (&'static str, &'static str) = match self {
            Layer::Density => ("density surface", HELP_DENSITY),
            Layer::Supports => ("supports", HELP_SUPPORTS),
            Layer::Loads => ("loads", HELP_LOADS),
            Layer::Gizmo => ("gizmo", HELP_GIZMO),
            Layer::Measure => ("dimensions", HELP_MEASURE),
            Layer::Grid => ("floor grid", HELP_GRID),
            Layer::Domain => ("domain (voxelized)", HELP_DOMAIN),
            Layer::Keepout => ("keepout", HELP_KEEPOUT),
            Layer::Keepin => ("keepin", HELP_KEEPIN),
            Layer::Selection => ("selection", HELP_SELECTION),
            Layer::Hover => ("hover highlight", HELP_HOVER),
            Layer::Placement => ("placement preview", HELP_PLACEMENT),
        };
        let (translucent, role): (bool, LayerRole) = match self {
            Layer::Density => (false, LayerRole::Density),
            Layer::Supports => (false, LayerRole::Setup),
            Layer::Loads => (false, LayerRole::Setup),
            Layer::Gizmo => (false, LayerRole::Editor),
            Layer::Measure => (false, LayerRole::Editor),
            Layer::Grid => (false, LayerRole::Editor),
            Layer::Domain => (true, LayerRole::Setup),
            Layer::Keepout => (true, LayerRole::Setup),
            Layer::Keepin => (true, LayerRole::Setup),
            Layer::Selection => (true, LayerRole::Editor),
            Layer::Hover => (true, LayerRole::Editor),
            Layer::Placement => (true, LayerRole::Editor),
        };
        // Beside the increment it is ruled at: the grid is what makes that
        // increment visible, and the switch reads as an editing control.
        let switch: SwitchHome = match self {
            Layer::Grid => SwitchHome::Elsewhere,
            _ => SwitchHome::Show,
        };
        LayerInfo { layer: self, label, help, translucent, role, switch }
    }
}

/// Every layer is in the order once, where its slot says, and the opaque ones
/// are before the translucent ones.
pub proof fn law_every_layer_has_one_slot(layer: Layer)
    ensures
        layer_order().len() == LAYER_COUNT,
        layer_order().no_duplicates(),
        0 <= slot_of(layer) < LAYER_COUNT,
        layer_order()[slot_of(layer)] == layer,
        forall|a: int, b: int|
            #![trigger layer_order()[a], layer_order()[b]]
            0 <= a < b < LAYER_COUNT && is_translucent(layer_order()[a]) ==> is_translucent(
                layer_order()[b],
            ),
{
}

/// A switch that is drawn outside the `show` block belongs to an editor layer.
pub proof fn law_a_switch_elsewhere_belongs_to_the_editor(layer: Layer)
    requires
        switch_of(layer) == SwitchHome::Elsewhere,
    ensures
        role_of(layer) == LayerRole::Editor,
{
}

/// An axis aligned block of space, empty while its low side is above its high.
#[derive(Clone, Copy, Debug)]
pub struct Aabb {
    /// Lowest coordinate along each axis.
    pub min: Vec3,
    /// Highest coordinate along each axis.
    pub max: Vec3,
}

/// The lower of two numbers.
pub open spec fn lower_of(a: Scalar, b: Scalar) -> Scalar {
    if b.below(a) {
        b
    } else {
        a
    }
}

/// The higher of two numbers.
pub open spec fn higher_of(a: Scalar, b: Scalar) -> Scalar {
    if a.below(b) {
        b
    } else {
        a
    }
}

/// The block that has nothing in it.
pub open spec fn empty_block() -> Aabb {
    let high = Scalar { bits: INFINITY_BITS };
    let low = Scalar { bits: (SIGN_BIT + INFINITY_BITS) as u64 };
    Aabb { min: [high, high, high], max: [low, low, low] }
}

/// The block that has both of two blocks in it.
pub open spec fn union_of(a: Aabb, b: Aabb) -> Aabb {
    Aabb {
        min: [
            lower_of(a.min[0], b.min[0]),
            lower_of(a.min[1], b.min[1]),
            lower_of(a.min[2], b.min[2]),
        ],
        max: [
            higher_of(a.max[0], b.max[0]),
            higher_of(a.max[1], b.max[1]),
            higher_of(a.max[2], b.max[2]),
        ],
    }
}

fn lower(a: Scalar, b: Scalar) -> (least: Scalar)
    ensures
        least == lower_of(a, b),
{
    if b.lt(a) {
        b
    } else {
        a
    }
}

fn higher(a: Scalar, b: Scalar) -> (most: Scalar)
    ensures
        most == higher_of(a, b),
{
    if a.lt(b) {
        b
    } else {
        a
    }
}

impl Aabb {
    /// The block that has nothing in it.
    pub fn empty() -> (block: Aabb)
        ensures
            block == empty_block(),
    {
        let high = Scalar { bits: INFINITY_BITS };
        let low = Scalar { bits: SIGN_BIT + INFINITY_BITS };
        Aabb { min: [high, high, high], max: [low, low, low] }
    }

    /// The block that has this one and `other` in it.
    pub fn union(&self, other: &Aabb) -> (both: Aabb)
        ensures
            both == union_of(*self, *other),
    {
        let min: Vec3 = [
            lower(self.min[0], other.min[0]),
            lower(self.min[1], other.min[1]),
            lower(self.min[2], other.min[2]),
        ];
        let max: Vec3 = [
            higher(self.max[0], other.max[0]),
            higher(self.max[1], other.max[1]),
            higher(self.max[2], other.max[2]),
        ];
        proof {
            let both = union_of(*self, *other);
            assert(min =~= both.min);
            assert(max =~= both.max);
        }
        Aabb { min, max }
    }
}

/// A layer's geometry, expanded to shaded triangles.
#[derive(Debug)]
pub struct LayerMesh<V> {
    /// Three vertices per triangle, in draw order.
    pub vertices: Vec<V>,
    /// Bounds of the layer in millimetres.
    pub bounds: Aabb,
}

impl<V> LayerMesh<V> {
    /// True when the layer has nothing to draw.
    pub fn is_empty(&self) -> (answer: bool)
        ensures
            answer == (self.vertices@.len() == 0),
    {
        self.vertices.len() == 0
    }

    /// Number of triangles.
    pub fn triangles(&self) -> (count: usize)
        ensures
            count == self.vertices@.len() / 3,
    {
        self.vertices.len() / 3
    }
}

/// Everything the renderer draws, one entry per layer.
#[derive(Debug)]
pub struct Scene<V> {
    meshes: Vec<Option<LayerMesh<V>>>,
    visible: Vec<bool>,
    stress: Option<LayerMesh<V>>,
    stress_shading: bool,
    flat_shading: bool,
    isolate_part: bool,
}

/// What a scene is at one moment.
pub struct SceneView<V> {
    /// Geometry of every layer, in the order of their slots.
    pub meshes: Seq<Option<LayerMesh<V>>>,
    /// The layers' own switches, in the order of their slots.
    pub visible: Seq<bool>,
    /// Stress coloured copy of the density layer, when a run produced one.
    pub stress: Option<LayerMesh<V>>,
    /// The switch that draws the density layer with the stress colours.
    pub stress_shading: bool,
    /// The switch that draws the density layer with per-triangle normals.
    pub flat_shading: bool,
    /// The switch that shows the part on its own.
    pub isolate_part: bool,
}

impl<V> SceneView<V> {
    /// Geometry of a layer, if it has any.
    pub open spec fn mesh(self, layer: Layer) -> Option<LayerMesh<V>> {
        self.meshes[slot_of(layer)]
    }

    /// A layer's own switch.
    pub open spec fn switched_on(self, layer: Layer) -> bool {
        self.visible[slot_of(layer)]
    }

    /// True while nothing but the part is on screen.
    pub open spec fn isolated(self) -> bool {
        self.isolate_part && self.mesh(Layer::Density) is Some
    }

    /// True when a layer is drawn.
    pub open spec fn drawn(self, layer: Layer) -> bool {
        if self.isolated() {
            layer == Layer::Density
        } else {
            self.switched_on(layer)
        }
    }

    /// True while the density layer is drawn with the stress colours.
    pub open spec fn stressed(self) -> bool {
        self.stress_shading && self.stress is Some
    }

    /// The scene with one layer's geometry replaced. Emptying the density layer
    /// clears the switch that shows the part on its own.
    pub open spec fn with_mesh(self, layer: Layer, mesh: Option<LayerMesh<V>>) -> SceneView<V> {
        SceneView {
            meshes: self.meshes.update(slot_of(layer), mesh),
            isolate_part: self.isolate_part && !(layer == Layer::Density && mesh is None),
            ..self
        }
    }

    /// The scene with the stress coloured copy replaced. Removing it falls back
    /// to plain shading.
    pub open spec fn with_stress(self, mesh: Option<LayerMesh<V>>) -> SceneView<V> {
        SceneView { stress: mesh, stress_shading: self.stress_shading && mesh is Some, ..self }
    }

    /// The scene with the setup geometry of another, and all else its own.
    pub open spec fn with_setup(self, other: SceneView<V>) -> SceneView<V> {
        SceneView {
            meshes: Seq::new(
                LAYER_COUNT as nat,
                |s: int|
                    if role_of(layer_order()[s]) == LayerRole::Setup {
                        other.meshes[s]
                    } else {
                        self.meshes[s]
                    },
            ),
            ..self
        }
    }

    /// Bounds of the first layers that carry geometry and are no overlay of the
    /// editor's.
    pub open spec fn bounds_upto(self, slots: int) -> Aabb
        decreases slots,
    {
        if slots <= 0 {
            empty_block()
        } else {
            let before = self.bounds_upto(slots - 1);
            let layer = layer_order()[slots - 1];
            match self.mesh(layer) {
                Some(mesh) => if role_of(layer) != LayerRole::Editor && mesh.vertices@.len() > 0 {
                    union_of(before, mesh.bounds)
                } else {
                    before
                },
                None => before,
            }
        }
    }
}

impl<V> View for Scene<V> {
    type V = SceneView<V>;

    closed spec fn view(&self) -> SceneView<V> {
        SceneView {
            meshes: self.meshes@,
            visible: self.visible@,
            stress: self.stress,
            stress_shading: self.stress_shading,
            flat_shading: self.flat_shading,
            isolate_part: self.isolate_part,
        }
    }
}

impl<V> Default for Scene<V> {
    fn default() -> (scene: Scene<V>)
        ensures
            scene.wf(),
            forall|s: int| 0 <= s < LAYER_COUNT ==> #[trigger] scene@.meshes[s] is None,
            forall|s: int| 0 <= s < LAYER_COUNT ==> #[trigger] scene@.visible[s],
            scene@.stress is None,
            !scene@.stress_shading,
            scene@.flat_shading == VIEW_DEFAULT_FLAT_SHADING,
            scene@.isolate_part == VIEW_EDIT_ISOLATE_PART_DEFAULT,
    {
        Scene::new()
    }
}

impl<V> Scene<V> {
    /// One entry per layer.
    pub open spec fn wf(&self) -> bool {
        self@.meshes.len() == LAYER_COUNT && self@.visible.len() == LAYER_COUNT
    }

    /// A scene with nothing in it, every layer switched on.
    pub fn new() -> (scene: Scene<V>)
        ensures
            scene.wf(),
            forall|s: int| 0 <= s < LAYER_COUNT ==> #[trigger] scene@.meshes[s] is None,
            forall|s: int| 0 <= s < LAYER_COUNT ==> #[trigger] scene@.visible[s],
            scene@.stress is None,
            !scene@.stress_shading,
            scene@.flat_shading == VIEW_DEFAULT_FLAT_SHADING,
            scene@.isolate_part == VIEW_EDIT_ISOLATE_PART_DEFAULT,
    {
        let mut meshes: Vec<Option<LayerMesh<V>>> = Vec::new();
        let mut visible: Vec<bool> = Vec::new();
        let mut s: usize = 0;
        while s < LAYER_COUNT
            invariant
                s <= LAYER_COUNT,
                meshes@.len() == s,
                visible@.len() == s,
                forall|t: int| 0 <= t < s ==> #[trigger] meshes@[t] is None,
                forall|t: int| 0 <= t < s ==> #[trigger] visible@[t],
            decreases LAYER_COUNT - s,
        {
            meshes.push(None);
            visible.push(true);
            s += 1;
        }
        Scene {
            meshes,
            visible,
            stress: None,
            stress_shading: false,
            flat_shading: VIEW_DEFAULT_FLAT_SHADING,
            isolate_part: VIEW_EDIT_ISOLATE_PART_DEFAULT,
        }
    }

    /// Replace a layer's geometry; `None` removes it.
    ///
    /// Emptying the density layer clears the switch that shows the part on its
    /// own, whoever empties it: the mode describes a surface that is no longer
    /// there, and the viewport takes no editing while it is set, so a flag left
    /// standing would isolate - and lock - the window again the moment the next
    /// preview put a surface back, with nobody having asked for it.
    pub fn set(&mut self, layer: Layer, mesh: Option<LayerMesh<V>>)
        requires
            old(self).wf(),
        ensures
            final(self).wf(),
            final(self)@ == old(self)@.with_mesh(layer, mesh),
    {
        if layer == Layer::Density && mesh.is_none() {
            self.isolate_part = false;
        }
        self.meshes.set(layer.slot(), mesh);
        assert(self@.meshes =~= old(self)@.with_mesh(layer, mesh).meshes);
    }

    /// Geometry of a layer, if it has any.
    pub fn get(&self, layer: Layer) -> (mesh: Option<&LayerMesh<V>>)
        requires
            self.wf(),
        ensures
            match (mesh, self@.mesh(layer)) {
                (Some(got), Some(there)) => *got == there,
                (None, None) => true,
                _ => false,
            },
    {
        self.meshes[layer.slot()].as_ref()
    }

    /// Attach the stress coloured copy of the density layer. `None` removes it
    /// and falls back to plain shading.
    pub fn set_stress(&mut self, mesh: Option<LayerMesh<V>>)
        requires
            old(self).wf(),
        ensures
            final(self).wf(),
            final(self)@ == old(self)@.with_stress(mesh),
    {
        self.stress = mesh;
        if self.stress.is_none() {
            self.stress_shading = false;
        }
    }

    /// True once a stress coloured surface is available to switch to.
    pub fn has_stress(&self) -> (answer: bool)
        ensures
            answer == (self@.stress is Some),
    {
        self.stress.is_some()
    }

    /// Mutable toggle for the side panel checkbox.
    pub fn stress_shading_mut(&mut self) -> (toggle: &mut bool)
        ensures
            *toggle == old(self)@.stress_shading,
            final(self)@ == (SceneView { stress_shading: *final(toggle), ..old(self)@ }),
    {
        &mut self.stress_shading
    }

    /// True while the density layer is drawn with the stress colours.
    pub fn stress_shading(&self) -> (answer: bool)
        ensures
            answer == self@.stressed(),
    {
        self.stress_shading && self.stress.is_some()
    }

    /// Mutable toggle for the side panel checkbox.
    pub fn flat_shading_mut(&mut self) -> (toggle: &mut bool)
        ensures
            *toggle == old(self)@.flat_shading,
            final(self)@ == (SceneView { flat_shading: *final(toggle), ..old(self)@ }),
    {
        &mut self.flat_shading
    }

    /// True while the density layer is drawn with per-triangle normals.
    pub fn flat_shading(&self) -> (answer: bool)
        ensures
            answer == self@.flat_shading,
    {
        self.flat_shading
    }

    /// Mutable toggle for the side panel checkbox.
    pub fn isolate_part_mut(&mut self) -> (toggle: &mut bool)
        ensures
            *toggle == old(self)@.isolate_part,
            final(self)@ == (SceneView { isolate_part: *final(toggle), ..old(self)@ }),
    {
        &mut self.isolate_part
    }

    /// True while nothing but the part is on screen.
    ///
    /// Guarded by there being a part, exactly as the stress toggle is guarded by
    /// there being a stress copy.
    pub fn isolate_part(&self) -> (answer: bool)
        requires
            self.wf(),
        ensures
            answer == self@.isolated(),
    {
        self.isolate_part && self.get(Layer::Density).is_some()
    }

    /// The geometry the density layer should currently be drawn with.
    pub fn density_geometry(&self) -> (mesh: Option<&LayerMesh<V>>)
        requires
            self.wf(),
        ensures
            match (mesh, if self@.stressed() {
                self@.stress
            } else {
                self@.mesh(Layer::Density)
            }) {
                (Some(got), Some(there)) => *got == there,
                (None, None) => true,
                _ => false,
            },
    {
        if self.stress_shading() {
            self.stress.as_ref()
        } else {
            self.get(Layer::Density)
        }
    }

    /// Take the setup overlays of `other`, leaving the density surface, the
    /// stress copy and every panel toggle of this scene alone.
    ///
    /// This is the editor's refresh path: a committed edit rebuilds the whole
    /// setup, and only the layers that configuration produces may be replaced by
    /// it.
    pub fn adopt_setup(&mut self, other: Scene<V>)
        requires
            old(self).wf(),
            other.wf(),
        ensures
            final(self).wf(),
            final(self)@ == old(self)@.with_setup(other@),
    {
        let ghost before = self@;
        let ghost source = other@;
        let order = layers();
        let mut rest: Vec<Option<LayerMesh<V>>> = other.meshes;
        let mut slot: usize = LAYER_COUNT;
        while slot > 0
            invariant
                slot <= LAYER_COUNT,
                order@ == layer_order(),
                self.wf(),
                source.meshes.len() == LAYER_COUNT,
                before.meshes.len() == LAYER_COUNT,
                rest@ == source.meshes.take(slot as int),
                self@ == (SceneView { meshes: self@.meshes, ..before }),
                forall|s: int|
                    0 <= s < LAYER_COUNT ==> #[trigger] self@.meshes[s] == (if s < slot {
                        before.meshes[s]
                    } else {
                        before.with_setup(source).meshes[s]
                    }),
            decreases slot,
        {
            slot -= 1;
            let mesh = rest.pop().unwrap();
            assert(rest@ =~= source.meshes.take(slot as int));
            let layer = order[slot];
            proof {
                law_every_layer_has_one_slot(layer);
                assert(slot_of(layer) == slot) by {
                    assert(layer_order()[slot_of(layer)] == layer_order()[slot as int]);
                }
            }
            if layer.info().role == LayerRole::Setup {
                self.set(layer, mesh);
            }
        }
        assert(self@.meshes =~= before.with_setup(source).meshes);
    }

    /// Drop the density surface and its stress coloured copy.
    ///
    /// Called when an edit has made the design on screen describe a
    /// configuration that no longer exists.
    pub fn clear_density(&mut self)
        requires
            old(self).wf(),
        ensures
            final(self).wf(),
            final(self)@ == old(self)@.with_mesh(Layer::Density, None).with_stress(None),
    {
        self.set(Layer::Density, None);
        self.set_stress(None);
    }

    /// True when the layer is drawn: switched on in the side panel, and not left
    /// out by the switch that shows the part on its own.
    ///
    /// That switch overrides the individual ones rather than writing them, so
    /// unticking it puts every layer back exactly as it was found.
    pub fn is_visible(&self, layer: Layer) -> (answer: bool)
        requires
            self.wf(),
        ensures
            answer == self@.drawn(layer),
    {
        if self.isolate_part() {
            return layer == Layer::Density;
        }
        self.visible[layer.slot()]
    }

    /// Mutable visibility flag, for the side panel checkboxes.
    pub fn visibility_mut(&mut self, layer: Layer) -> (toggle: &mut bool)
        requires
            old(self).wf(),
        ensures
            *toggle == old(self)@.switched_on(layer),
            final(self)@ == (SceneView {
                visible: old(self)@.visible.update(slot_of(layer), *final(toggle)),
                ..old(self)@
            }),
    {
        &mut self.visible[layer.slot()]
    }

    /// Bounds of every layer that carries geometry, visible or not, so the fit
    /// does not jump when a layer is toggled.
    ///
    /// The editor's own overlays are left out: they are drawn around whatever
    /// is selected and would make the fit follow the selection rather than the
    /// model.
    pub fn bounds(&self) -> (bounds: Aabb)
        requires
            self.wf(),
        ensures
            bounds == self@.bounds_upto(LAYER_COUNT as int),
    {
        let order = layers();
        let mut bounds = Aabb::empty();
        let mut slot: usize = 0;
        while slot < LAYER_COUNT
            invariant
                slot <= LAYER_COUNT,
                order@ == layer_order(),
                self.wf(),
                bounds == self@.bounds_upto(slot as int),
            decreases LAYER_COUNT - slot,
        {
            let layer = order[slot];
            if layer.info().role != LayerRole::Editor {
                match self.get(layer) {
                    Some(mesh) => {
                        if !mesh.is_empty() {
                            bounds = bounds.union(&mesh.bounds);
                        }
                    },
                    None => {},
                }
            }
            slot += 1;
        }
        bounds
    }
}

/// Showing the part alone overrides the switches of the layers without writing
/// them: with the part alone nothing else is drawn, and taking the override away
/// draws every layer exactly as its own switch says.
pub proof fn law_isolating_the_part_overrides_and_does_not_write<V>(
    scene: SceneView<V>,
    layer: Layer,
)
    ensures
        scene.isolated() ==> (scene.drawn(layer) <==> layer == Layer::Density),
        (SceneView { isolate_part: false, ..scene }).drawn(layer) == scene.switched_on(layer),
        (SceneView { isolate_part: true, ..scene }).visible == scene.visible,
{
}

/// Once the part is gone the switch that showed it alone is gone with it: a new
/// surface comes back among the other layers.
pub proof fn law_a_new_part_does_not_come_back_alone<V>(
    scene: SceneView<V>,
    mesh: Option<LayerMesh<V>>,
)
    requires
        scene.meshes.len() == LAYER_COUNT,
    ensures
        !scene.with_mesh(Layer::Density, None).isolated(),
        !scene.with_mesh(Layer::Density, None).with_mesh(Layer::Density, mesh).isolated(),
        !scene.with_stress(None).stressed(),
        !scene.with_stress(None).with_stress(mesh).stressed(),
{
}

/// What the view is fitted to does not depend on any switch.
pub proof fn law_switches_do_not_move_the_fit<V>(
    scene: SceneView<V>,
    visible: Seq<bool>,
    stress_shading: bool,
    flat_shading: bool,
    isolate_part: bool,
    slots: int,
)
    ensures
        (SceneView { visible, stress_shading, flat_shading, isolate_part, ..scene }).bounds_upto(
            slots,
        ) == scene.bounds_upto(slots),
    decreases slots,
{
    if slots > 0 {
        law_switches_do_not_move_the_fit(
            scene,
            visible,
            stress_shading,
            flat_shading,
            isolate_part,
            slots - 1,
        );
    }
}

/// Taking another scene's setup leaves the part, what the editor draws and every
/// switch alone.
pub proof fn law_adopting_a_setup_leaves_the_rest_alone<V>(
    scene: SceneView<V>,
    other: SceneView<V>,
    layer: Layer,
)
    requires
        scene.meshes.len() == LAYER_COUNT,
        other.meshes.len() == LAYER_COUNT,
    ensures
        ({
            let after = scene.with_setup(other);
            &&& after.mesh(layer) == (if role_of(layer) == LayerRole::Setup {
                other.mesh(layer)
            } else {
                scene.mesh(layer)
            })
            &&& after.visible == scene.visible
            &&& after.stress == scene.stress
            &&& after.isolated() == scene.isolated()
            &&& after.stressed() == scene.stressed()
            &&& after.flat_shading == scene.flat_shading
        }),
{
    law_every_layer_has_one_slot(layer);
    law_every_layer_has_one_slot(Layer::Density);
}

} // verus!
