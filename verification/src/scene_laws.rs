//! What a scene shows and how it is set up, stated of its layers, its switches and the
//! entries it is built from.

use vstd::prelude::*;

use crate::config::{LoadCaseView, LoadSpec};
use crate::gpu::{drawn_layers, BuffersView};
use crate::mesh::{appended, Mesh};
use crate::scalar::Scalar;
use crate::scene::{
    empty_block, higher_of, is_translucent, label_of, law_every_layer_has_one_slot, layer_order,
    lower_of, role_of, slot_of, switch_of, union_of, Aabb, Layer, LayerMesh, LayerRole, Scene,
    SceneView, SwitchHome, LAYER_COUNT,
};
use crate::setup::{
    case_indicators, entry_of, every, first_refused, holds, indicators_upto, layer_from, load_of,
    pinned, pinned_upto, stride_for, united_triangles, united_vertices, IndicatorKind, ShadedOverlay,
};
use crate::text::decimal_of;

verus! {

/// What each layer is for: the part, the setup the configuration describes, and what the
/// editor draws over both. The overlays that would hide something are seen through, and
/// every layer but the floor grid has its switch with the others.
pub proof fn law_every_layer_has_its_role(layer: Layer)
    ensures
        role_of(layer) == LayerRole::Density <==> layer == Layer::Density,
        role_of(layer) == LayerRole::Setup <==> layer == Layer::Domain || layer == Layer::Keepout
            || layer == Layer::Keepin || layer == Layer::Supports || layer == Layer::Loads,
        role_of(layer) == LayerRole::Editor <==> layer == Layer::Selection || layer == Layer::Hover
            || layer == Layer::Gizmo || layer == Layer::Measure || layer == Layer::Grid || layer
            == Layer::Placement,
        is_translucent(layer) <==> layer == Layer::Domain || layer == Layer::Keepout || layer
            == Layer::Keepin || layer == Layer::Selection || layer == Layer::Hover || layer
            == Layer::Placement,
        switch_of(layer) == SwitchHome::Elsewhere <==> layer == Layer::Grid,
{
}

/// The labels tell the layers apart.
pub proof fn law_labels_tell_the_layers_apart(a: Layer, b: Layer)
    ensures
        label_of(a) == label_of(b) <==> a == b,
{
    reveal_strlit("density surface");
    reveal_strlit("supports");
    reveal_strlit("loads");
    reveal_strlit("gizmo");
    reveal_strlit("dimensions");
    reveal_strlit("floor grid");
    reveal_strlit("domain (voxelized)");
    reveal_strlit("keepout");
    reveal_strlit("keepin");
    reveal_strlit("selection");
    reveal_strlit("hover highlight");
    reveal_strlit("placement preview");
    assert("density surface"@.len() == 15 && "supports"@.len() == 8 && "loads"@.len() == 5);
    assert("gizmo"@.len() == 5 && "dimensions"@.len() == 10 && "floor grid"@.len() == 10);
    assert("domain (voxelized)"@.len() == 18 && "keepout"@.len() == 7 && "keepin"@.len() == 6);
    assert("selection"@.len() == 9 && "hover highlight"@.len() == 15 && "placement preview"@.len()
        == 17);
    assert("density surface"@[0] == 'd' && "hover highlight"@[0] == 'h');
    assert("loads"@[0] == 'l' && "gizmo"@[0] == 'g');
    assert("dimensions"@[0] == 'd' && "floor grid"@[0] == 'f');
}

/// The layers go in one order: the part, what holds and loads it, the editor's handles and
/// lines, and over them all that is seen through, the setup's before the editor's.
pub proof fn law_the_layers_go_in_one_order(a: int, b: int)
    ensures
        slot_of(Layer::Density) < slot_of(Layer::Supports) < slot_of(Layer::Loads),
        slot_of(Layer::Loads) < slot_of(Layer::Gizmo) < slot_of(Layer::Measure),
        slot_of(Layer::Measure) < slot_of(Layer::Grid) < slot_of(Layer::Domain),
        slot_of(Layer::Domain) < slot_of(Layer::Keepout) < slot_of(Layer::Keepin),
        slot_of(Layer::Keepin) < slot_of(Layer::Selection) < slot_of(Layer::Hover),
        slot_of(Layer::Hover) < slot_of(Layer::Placement),
        0 <= a < b < 12 ==> slot_of(layer_order()[a]) < slot_of(layer_order()[b]),
{
}

/// The marked nodes go in the order of the nodes.
pub proof fn law_the_marked_nodes_go_in_order(active: Seq<bool>, fixed: Seq<bool>, nodes: int)
    requires
        0 <= nodes <= usize::MAX,
    ensures
        ({
            let marked = pinned_upto(active, fixed, nodes);
            &&& forall|i: int, j: int|
                #![trigger marked[i], marked[j]]
                0 <= i < j < marked.len() ==> marked[i] < marked[j]
            &&& forall|i: int| 0 <= i < marked.len() ==> #[trigger] marked[i] < nodes
        }),
    decreases nodes,
{
    if nodes > 0 {
        law_the_marked_nodes_go_in_order(active, fixed, nodes - 1);
        let before = pinned_upto(active, fixed, nodes - 1);
        let marked = pinned_upto(active, fixed, nodes);
        assert forall|i: int| 0 <= i < before.len() implies #[trigger] marked[i] == before[i]
            && before[i] < nodes - 1 by {}
        assert(before.len() < marked.len() ==> marked[before.len() as int] == nodes - 1);
    }
}

/// Of two numbers the lower is one of them and above neither, and the higher is one of
/// them and below neither; what is no number does not take the place of one.
pub proof fn law_the_lower_and_the_higher_of_two(a: Scalar, b: Scalar)
    ensures
        lower_of(a, b) == a || lower_of(a, b) == b,
        higher_of(a, b) == a || higher_of(a, b) == b,
        !a.nan() && !b.nan() ==> lower_of(a, b).at_most(a) && lower_of(a, b).at_most(b),
        !a.nan() && !b.nan() ==> a.at_most(higher_of(a, b)) && b.at_most(higher_of(a, b)),
        b.nan() ==> lower_of(a, b) == a && higher_of(a, b) == a,
        a.equals(b) ==> lower_of(a, b) == a && higher_of(a, b) == a,
{
}

/// The block of nothing takes up no room: united with a block of numbers it is that block.
pub proof fn law_nothing_adds_no_room(block: Aabb, d: int)
    requires
        0 <= d < 3,
        block.min[d].finite(),
        block.max[d].finite(),
    ensures
        union_of(empty_block(), block).min[d] == block.min[d],
        union_of(empty_block(), block).max[d] == block.max[d],
        union_of(block, empty_block()).min[d] == block.min[d],
        union_of(block, empty_block()).max[d] == block.max[d],
        empty_block().max[d].below(empty_block().min[d]),
        empty_block().min[d].bits == 0x7ff0_0000_0000_0000,
        empty_block().max[d].bits == 0xfff0_0000_0000_0000,
{
    assert(d == 0 || d == 1 || d == 2);
}

/// A union has both blocks in it and reaches no further than they do, along every axis.
pub proof fn law_a_union_has_both_blocks(a: Aabb, b: Aabb, d: int)
    requires
        0 <= d < 3,
        !a.min[d].nan() && !b.min[d].nan() && !a.max[d].nan() && !b.max[d].nan(),
    ensures
        ({
            let both = union_of(a, b);
            &&& both.min[d].at_most(a.min[d]) && both.min[d].at_most(b.min[d])
            &&& a.max[d].at_most(both.max[d]) && b.max[d].at_most(both.max[d])
            &&& both.min[d] == a.min[d] || both.min[d] == b.min[d]
            &&& both.max[d] == a.max[d] || both.max[d] == b.max[d]
        }),
{
    assert(d == 0 || d == 1 || d == 2);
}

/// A mesh that is set is read back from its own layer and from no other; taking the part
/// away ends showing it alone, and nothing else of the scene moves.
pub proof fn law_a_mesh_is_read_back_from_its_layer<V>(
    scene: SceneView<V>,
    layer: Layer,
    other: Layer,
    mesh: Option<LayerMesh<V>>,
)
    requires
        scene.meshes.len() == LAYER_COUNT,
    ensures
        ({
            let after = scene.with_mesh(layer, mesh);
            &&& after.mesh(layer) == mesh
            &&& other != layer ==> after.mesh(other) == scene.mesh(other)
            &&& layer == Layer::Density && mesh is None ==> !after.isolate_part
            &&& layer != Layer::Density || mesh is Some ==> after.isolate_part == scene.isolate_part
            &&& after.visible == scene.visible
            &&& after.stress == scene.stress
            &&& after.stress_shading == scene.stress_shading
            &&& after.flat_shading == scene.flat_shading
        }),
{
    law_every_layer_has_one_slot(layer);
    law_every_layer_has_one_slot(other);
}

/// A switch turns its own layer on or off and no other.
pub proof fn law_a_switch_turns_its_own_layer<V>(
    scene: SceneView<V>,
    layer: Layer,
    other: Layer,
    on: bool,
)
    requires
        scene.visible.len() == LAYER_COUNT,
    ensures
        ({
            let after = SceneView { visible: scene.visible.update(slot_of(layer), on), ..scene };
            &&& after.switched_on(layer) == on
            &&& other != layer ==> after.switched_on(other) == scene.switched_on(other)
        }),
{
    law_every_layer_has_one_slot(layer);
    law_every_layer_has_one_slot(other);
}

/// The stress colouring that is set is the one that is kept; it is shown while it is asked
/// for and there is one, and taking it away takes the asking with it.
pub proof fn law_stress_is_shown_while_there_is_some<V>(
    scene: SceneView<V>,
    mesh: Option<LayerMesh<V>>,
)
    ensures
        scene.with_stress(mesh).stress == mesh,
        mesh is Some ==> scene.with_stress(mesh).stress_shading == scene.stress_shading,
        mesh is None ==> !scene.with_stress(mesh).stress_shading,
        scene.with_stress(mesh).meshes == scene.meshes,
        scene.with_stress(mesh).visible == scene.visible,
        scene.with_stress(mesh).flat_shading == scene.flat_shading,
        scene.with_stress(mesh).isolate_part == scene.isolate_part,
        scene.stressed() <==> scene.stress_shading && scene.stress is Some,
{
}

/// A layer is drawn while it is switched on, except where the part is there and asked for
/// alone: then the part is drawn, whatever its switch, and nothing else.
pub proof fn law_a_layer_is_drawn_while_it_is_switched_on<V>(scene: SceneView<V>, layer: Layer)
    ensures
        scene.isolate_part && scene.mesh(Layer::Density) is Some ==> (scene.drawn(layer) <==> layer
            == Layer::Density),
        !scene.isolate_part || scene.mesh(Layer::Density) is None ==> (scene.drawn(layer)
            <==> scene.switched_on(layer)),
{
}

/// Adopting a setup takes the meshes of the setup's five layers and leaves the part and
/// the editor's own.
pub proof fn law_adopting_takes_the_layers_of_the_setup<V>(
    scene: SceneView<V>,
    other: SceneView<V>,
    layer: Layer,
)
    requires
        scene.meshes.len() == LAYER_COUNT,
        other.meshes.len() == LAYER_COUNT,
    ensures
        ({
            let after = scene.with_setup(other);
            let taken = layer == Layer::Domain || layer == Layer::Keepout || layer == Layer::Keepin
                || layer == Layer::Supports || layer == Layer::Loads;
            &&& after.meshes.len() == LAYER_COUNT
            &&& taken ==> after.mesh(layer) == other.mesh(layer)
            &&& !taken ==> after.mesh(layer) == scene.mesh(layer)
            &&& after.visible == scene.visible
            &&& after.isolate_part == scene.isolate_part
            &&& after.stress_shading == scene.stress_shading
        }),
{
    law_every_layer_has_one_slot(layer);
}

/// The bounds have in them every mesh of the setup and the part that has any vertex.
pub proof fn law_the_bounds_have_everything_in_them<V>(
    scene: SceneView<V>,
    slots: int,
    layer: Layer,
    d: int,
)
    requires
        0 <= d < 3,
        slot_of(layer) < slots <= LAYER_COUNT,
        role_of(layer) != LayerRole::Editor,
        scene.mesh(layer) is Some,
        scene.mesh(layer)->0.vertices@.len() > 0,
        forall|l: Layer| #[trigger]
            scene.mesh(l) is Some ==> !scene.mesh(l)->0.bounds.min[d].nan()
                && !scene.mesh(l)->0.bounds.max[d].nan(),
    ensures
        scene.bounds_upto(slots).min[d].at_most(scene.mesh(layer)->0.bounds.min[d]),
        scene.mesh(layer)->0.bounds.max[d].at_most(scene.bounds_upto(slots).max[d]),
    decreases slots,
{
    assert(d == 0 || d == 1 || d == 2);
    law_every_layer_has_one_slot(layer);
    lemma_bounds_are_numbers(scene, slots - 1, d);
    let last = layer_order()[slots - 1];
    assert(scene.mesh(last) is Some ==> !scene.mesh(last)->0.bounds.min[d].nan()
        && !scene.mesh(last)->0.bounds.max[d].nan());
    if slot_of(layer) < slots - 1 {
        law_the_bounds_have_everything_in_them(scene, slots - 1, layer, d);
    } else {
        assert(last == layer);
    }
}

/// The bounds reach no further than what is in them: each of their sides is that of a mesh
/// of the setup or of the part, and that of nothing where there is none.
pub proof fn law_the_bounds_reach_no_further<V>(scene: SceneView<V>, slots: int, d: int)
    requires
        0 <= d < 3,
        0 <= slots <= LAYER_COUNT,
    ensures
        scene.bounds_upto(slots).min[d].bits == 0x7ff0_0000_0000_0000 || exists|l: Layer|
            role_of(l) != LayerRole::Editor && (#[trigger] scene.mesh(l)) is Some
                && scene.mesh(l)->0.vertices@.len() > 0 && scene.bounds_upto(slots).min[d]
                == scene.mesh(l)->0.bounds.min[d],
        scene.bounds_upto(slots).max[d].bits == 0xfff0_0000_0000_0000 || exists|l: Layer|
            role_of(l) != LayerRole::Editor && (#[trigger] scene.mesh(l)) is Some
                && scene.mesh(l)->0.vertices@.len() > 0 && scene.bounds_upto(slots).max[d]
                == scene.mesh(l)->0.bounds.max[d],
    decreases slots,
{
    assert(d == 0 || d == 1 || d == 2);
    if slots > 0 {
        law_the_bounds_reach_no_further(scene, slots - 1, d);
        let last = layer_order()[slots - 1];
        let there = scene.mesh(last);
    }
}

/// Bounds of numbers are numbers.
proof fn lemma_bounds_are_numbers<V>(scene: SceneView<V>, slots: int, d: int)
    requires
        0 <= d < 3,
        slots <= LAYER_COUNT,
        forall|l: Layer| #[trigger]
            scene.mesh(l) is Some ==> !scene.mesh(l)->0.bounds.min[d].nan()
                && !scene.mesh(l)->0.bounds.max[d].nan(),
    ensures
        !scene.bounds_upto(slots).min[d].nan(),
        !scene.bounds_upto(slots).max[d].nan(),
    decreases slots,
{
    assert(d == 0 || d == 1 || d == 2);
    if slots > 0 {
        lemma_bounds_are_numbers(scene, slots - 1, d);
        let last = layer_order()[slots - 1];
        assert(scene.mesh(last) is Some ==> !scene.mesh(last)->0.bounds.min[d].nan()
            && !scene.mesh(last)->0.bounds.max[d].nan());
    }
}

/// A pass over the layers draws those of its own kind that are drawn and on the device,
/// each once and in the order of the layers.
pub proof fn law_a_pass_draws_what_is_shown_and_uploaded<V, B>(
    scene: SceneView<V>,
    buffers: BuffersView<B>,
    translucent: bool,
    slots: int,
    layer: Layer,
)
    requires
        0 <= slots <= LAYER_COUNT,
    ensures
        ({
            let drawn = drawn_layers(scene, buffers, translucent, slots);
            &&& drawn.contains(layer) <==> slot_of(layer) < slots && is_translucent(layer)
                == translucent && scene.drawn(layer) && buffers.buffers[slot_of(layer)] is Some
            &&& forall|i: int, j: int|
                #![trigger drawn[i], drawn[j]]
                0 <= i < j < drawn.len() ==> slot_of(drawn[i]) < slot_of(drawn[j])
            &&& forall|i: int| 0 <= i < drawn.len() ==> slot_of(#[trigger] drawn[i]) < slots
        }),
    decreases slots,
{
    law_every_layer_has_one_slot(layer);
    if slots > 0 {
        law_a_pass_draws_what_is_shown_and_uploaded(scene, buffers, translucent, slots - 1, layer);
        let before = drawn_layers(scene, buffers, translucent, slots - 1);
        let drawn = drawn_layers(scene, buffers, translucent, slots);
        let last = layer_order()[slots - 1];
        law_every_layer_has_one_slot(last);
        assert(slot_of(last) == slots - 1);
        if before.contains(layer) {
            let i = choose|i: int| 0 <= i < before.len() && before[i] == layer;
            assert(drawn[i] == layer);
        }
        if drawn.contains(layer) {
            let i = choose|i: int| 0 <= i < drawn.len() && drawn[i] == layer;
            if i < before.len() {
                assert(before[i] == layer);
            }
        }
        if drawn.len() > before.len() {
            assert(drawn[before.len() as int] == last);
        }
    }
}

/// A node is marked where it is part of the model and held along any one of its three
/// directions.
pub proof fn law_a_node_held_any_way_is_marked(
    active: Seq<bool>,
    fixed: Seq<bool>,
    node: int,
    direction: int,
)
    requires
        0 <= direction < 3,
    ensures
        active[node] && fixed[3 * node + direction] ==> pinned(active, fixed, node),
        !active[node] ==> !pinned(active, fixed, node),
        !fixed[3 * node] && !fixed[3 * node + 1] && !fixed[3 * node + 2] ==> !pinned(
            active,
            fixed,
            node,
        ),
{
    assert(direction == 0 || direction == 1 || direction == 2);
}

/// The stride is the least that leaves no more than is wanted.
pub proof fn law_the_stride_is_the_least_that_will_do(count: int, most: int)
    requires
        count >= 0,
        most >= 1,
    ensures
        ({
            let stride = stride_for(count, most);
            &&& stride >= 1
            &&& stride * most >= count
            &&& stride > 1 ==> (stride - 1) * most < count
        }),
        stride_for(count, 0) == stride_for(count, 1),
{
    let whole = (count + most - 1) / most;
    vstd::arithmetic::div_mod::lemma_fundamental_div_mod(count + most - 1, most);
    vstd::arithmetic::div_mod::lemma_mod_bound(count + most - 1, most);
    assert(whole * most == most * whole) by (nonlinear_arith);
    assert((whole - 1) * most == whole * most - most) by (nonlinear_arith);
    assert(whole >= 0) by (nonlinear_arith)
        requires
            whole == (count + most - 1) / most,
            count + most - 1 >= 0,
            most >= 1,
    ;
    if whole < 1 {
        assert(whole * most == 0) by (nonlinear_arith)
            requires
                whole == 0,
        ;
    }
}

/// Every so many of a list are the first of it and then one at each stride, to the end.
pub proof fn law_every_so_many_are_taken_at_the_stride<T>(list: Seq<T>, stride: int, k: int)
    requires
        stride >= 1,
    ensures
        0 <= k && k * stride < list.len() ==> k < every(list, stride).len() && every(list, stride)[k]
            == list[k * stride],
        0 <= k < every(list, stride).len() ==> k * stride < list.len(),
{
    let n = list.len() as int;
    let most = (n + stride - 1) / stride;
    vstd::arithmetic::div_mod::lemma_fundamental_div_mod(n + stride - 1, stride);
    vstd::arithmetic::div_mod::lemma_mod_bound(n + stride - 1, stride);
    let rest = (n + stride - 1) % stride;
    assert(stride * most + rest == n + stride - 1);
    assert(stride * most >= n);
    assert(most >= 0) by (nonlinear_arith)
        requires
            most == (n + stride - 1) / stride,
            n >= 0,
            stride >= 1,
    ;
    if 0 <= k && k * stride < n {
        assert(k < most) by (nonlinear_arith)
            requires
                k * stride < n,
                stride * most >= n,
                stride >= 1,
        ;
    }
    if 0 <= k < most {
        assert(k * stride <= stride * most - stride) by (nonlinear_arith)
            requires
                k + 1 <= most,
                stride >= 1,
        ;
    }
}

/// A union has the vertices of its parts one part behind the other, and the triangles of
/// each part moved on to where its vertices are.
pub proof fn law_a_union_has_its_parts_one_behind_the_other<P>(
    parts: Seq<Mesh<P>>,
    count: int,
    part: int,
    v: int,
    t: int,
    corner: int,
)
    requires
        0 <= part < count <= parts.len(),
        0 <= corner < 3,
        forall|p: int, u: int, c: int|
            0 <= p < count && 0 <= u < parts[p].triangles@.len() && 0 <= c < 3
                ==> (#[trigger] parts[p].triangles@[u][c]) + united_vertices(parts, p).len()
                <= u32::MAX,
    ensures
        united_vertices(parts, 0).len() == 0,
        united_triangles(parts, 0).len() == 0,
        united_vertices(parts, part + 1).len() == united_vertices(parts, part).len()
            + parts[part].vertices@.len(),
        united_triangles(parts, part + 1).len() == united_triangles(parts, part).len()
            + parts[part].triangles@.len(),
        united_vertices(parts, part + 1).len() <= united_vertices(parts, count).len(),
        united_triangles(parts, part + 1).len() <= united_triangles(parts, count).len(),
        0 <= v < parts[part].vertices@.len() ==> united_vertices(parts, count)[united_vertices(
            parts,
            part,
        ).len() + v] == parts[part].vertices@[v],
        0 <= t < parts[part].triangles@.len() ==> united_triangles(parts, count)[united_triangles(
            parts,
            part,
        ).len() + t][corner] == parts[part].triangles@[t][corner] + united_vertices(
            parts,
            part,
        ).len(),
    decreases count,
{
    assert(corner == 0 || corner == 1 || corner == 2);
    if part < count - 1 {
        law_a_union_has_its_parts_one_behind_the_other(parts, count - 1, part, v, t, corner);
    } else {
        let before = united_triangles(parts, part);
        let offset = united_vertices(parts, part).len() as int;
        let own = parts[part].triangles@;
        assert(united_triangles(parts, count) == appended(before, own, offset));
        if 0 <= t < own.len() {
            assert(own[t][corner] + offset <= u32::MAX);
        }
    }
}

/// An entry is named by its list and counted from one.
pub proof fn law_an_entry_is_counted_from_one(list: Seq<char>, index: int)
    ensures
        entry_of(list, index).take(list.len() as int) == list,
        entry_of(list, index).skip(list.len() as int + 7) == decimal_of(index + 1),
{
    reveal_strlit(" entry ");
    assert(entry_of(list, index).take(list.len() as int) =~= list);
    assert(entry_of(list, index).skip(list.len() as int + 7) =~= decimal_of(index + 1));
}

/// A load is named by its case, the case's number and its own, both counted from one.
pub proof fn law_a_load_is_named_by_its_case(name: Seq<char>, case: int, load: int)
    ensures
        ({
            let text = load_of(name, case, load);
            let n = name.len() as int;
            let c = decimal_of(case + 1).len() as int;
            &&& text.skip(15).take(n) == name
            &&& text.skip(15 + n + 9).take(c) == decimal_of(case + 1)
            &&& text.skip(15 + n + 9 + c + 8) == decimal_of(load + 1)
        }),
{
    reveal_strlit("[[loadcases]] \"");
    reveal_strlit("\" (entry ");
    reveal_strlit("), load ");
    let text = load_of(name, case, load);
    let n = name.len() as int;
    let c = decimal_of(case + 1).len() as int;
    assert(text.skip(15).take(n) =~= name);
    assert(text.skip(15 + n + 9).take(c) =~= decimal_of(case + 1));
    assert(text.skip(15 + n + 9 + c + 8) =~= decimal_of(load + 1));
}

/// There is a first refusal exactly where there is one at all, and there is one first.
pub proof fn law_the_first_refusal_is_one<P>(
    parts: Seq<Result<Mesh<P>, String>>,
    j: int,
    k: int,
)
    ensures
        first_refused(parts, j) && first_refused(parts, k) ==> j == k,
        first_refused(parts, k) ==> parts[k] is Err,
        0 <= j < parts.len() && parts[j] is Err ==> exists|f: int| first_refused(parts, f) && f <= j,
    decreases j,
{
    if first_refused(parts, j) && first_refused(parts, k) {
        assert(j < k ==> parts[j] is Ok);
        assert(k < j ==> parts[k] is Ok);
    }
    if 0 <= j < parts.len() && parts[j] is Err {
        if forall|i: int| 0 <= i < j ==> (#[trigger] parts[i]) is Ok {
            assert(first_refused(parts, j));
        } else {
            let i = choose|i: int| 0 <= i < j && !((#[trigger] parts[i]) is Ok);
            law_the_first_refusal_is_one(parts, i, k);
        }
    }
}

/// Every force has an arrow and every torque an arc, under the name of that load, in the
/// order of the loads.
pub proof fn law_a_force_has_an_arrow_and_a_torque_an_arc(
    name: Seq<char>,
    loads: Seq<LoadSpec>,
    case: int,
    count: int,
)
    requires
        0 <= count <= loads.len(),
    ensures
        ({
            let shown = case_indicators(name, loads, case, count);
            &&& forall|k: int|
                0 <= k < shown.len() ==> {
                    let one = #[trigger] shown[k];
                    &&& 0 <= one.load < count
                    &&& one.kind == IndicatorKind::Arrow <==> loads[one.load] is Force
                    &&& one.kind == IndicatorKind::Arc <==> loads[one.load] is Torque
                    &&& one.what == load_of(name, case, one.load)
                    &&& one.case == case
                }
            &&& forall|j: int, k: int|
                #![trigger shown[j], shown[k]]
                0 <= j < k < shown.len() ==> shown[j].load < shown[k].load
        }),
    decreases count,
{
    if count > 0 {
        law_a_force_has_an_arrow_and_a_torque_an_arc(name, loads, case, count - 1);
    }
}

/// The indicators of a configuration are those of its cases, one case behind the other,
/// each case's under its own name and number.
pub proof fn law_indicators_go_case_by_case(
    cases: Seq<LoadCaseView>,
    count: int,
    case: int,
    k: int,
)
    requires
        0 <= case < count <= cases.len(),
    ensures
        ({
            let own = case_indicators(
                cases[case].name,
                cases[case].loads,
                case,
                cases[case].loads.len() as int,
            );
            let from = indicators_upto(cases, case).len();
            &&& indicators_upto(cases, case + 1).len() == from + own.len()
            &&& indicators_upto(cases, case + 1).len() <= indicators_upto(cases, count).len()
            &&& 0 <= k < own.len() ==> indicators_upto(cases, count)[from + k] == own[k]
            &&& indicators_upto(cases, 0).len() == 0
        }),
    decreases count,
{
    if case < count - 1 {
        law_indicators_go_case_by_case(cases, count - 1, case, k);
    }
}

/// An overlay without triangles makes no layer, and any other makes the one it is.
pub proof fn law_an_empty_overlay_makes_no_layer<V>(overlay: ShadedOverlay<V>)
    ensures
        overlay.is_empty ==> layer_from(overlay) is None,
        !overlay.is_empty ==> layer_from(overlay) == Some(overlay.mesh),
{
}

/// A scene that is set up has every overlay in its own layer and no other layer filled,
/// every layer switched on, and nothing of a part.
pub proof fn law_a_setup_fills_its_own_layers<V>(
    scene: Scene<V>,
    domain: LayerMesh<V>,
    keepout: ShadedOverlay<V>,
    keepin: ShadedOverlay<V>,
    markers: ShadedOverlay<V>,
    loads: Option<LayerMesh<V>>,
    layer: Layer,
)
    requires
        holds(scene, domain, keepout, keepin, markers, loads),
    ensures
        scene@.mesh(Layer::Domain) == Some(domain),
        scene@.mesh(Layer::Keepout) is Some <==> !keepout.is_empty,
        !keepout.is_empty ==> scene@.mesh(Layer::Keepout) == Some(keepout.mesh),
        scene@.mesh(Layer::Keepin) is Some <==> !keepin.is_empty,
        !keepin.is_empty ==> scene@.mesh(Layer::Keepin) == Some(keepin.mesh),
        scene@.mesh(Layer::Supports) is Some <==> !markers.is_empty,
        !markers.is_empty ==> scene@.mesh(Layer::Supports) == Some(markers.mesh),
        scene@.mesh(Layer::Loads) == loads,
        role_of(layer) != LayerRole::Setup ==> scene@.mesh(layer) is None,
        scene@.switched_on(layer),
        scene@.drawn(layer),
        scene@.stress is None,
        !scene@.stress_shading,
        !scene@.stressed(),
        !scene@.flat_shading,
        !scene@.isolate_part,
        scene@.meshes.len() == 12,
        scene@.visible.len() == 12,
{
    law_every_layer_has_one_slot(layer);
    assert(scene@.visible[slot_of(layer)]);
    assert(scene@.mesh(layer) is None || role_of(layer) == LayerRole::Setup);
}

} // verus!
