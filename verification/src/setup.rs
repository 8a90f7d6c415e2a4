//! The overlays of a problem setup: what is marked, what gets an indicator, and
//! how the scene is put together.

use vstd::prelude::*;
use vstd::string::*;

use crate::config::{Config, ConfigView, LoadCaseView, LoadSpec};
use crate::constants::{
    DOF_PER_NODE, VIEW_DEFAULT_FLAT_SHADING, VIEW_EDIT_ISOLATE_PART_DEFAULT,
    VIEW_MAX_SUPPORT_MARKERS,
};
use crate::mesh::{appended, closed, in_range, law_appending_keeps_meshes_closed, raised, Mesh};
use crate::scene::{
    law_every_layer_has_one_slot, layer_order, slot_of, Layer, LayerMesh, Scene, LAYER_COUNT,
};
use crate::shading::Shading;
use crate::tessellate::append;
use crate::text::{decimal, decimal_of, joined};

verus! {

/// Whether the solver pins a node: it touches material, and some direction of it
/// is held.
pub open spec fn pinned(active: Seq<bool>, fixed: Seq<bool>, node: int) -> bool {
    &&& active[node]
    &&& fixed[3 * node] || fixed[3 * node + 1] || fixed[3 * node + 2]
}

/// The pinned ones of the first nodes, in order.
pub open spec fn pinned_upto(active: Seq<bool>, fixed: Seq<bool>, nodes: int) -> Seq<usize>
    decreases nodes,
{
    if nodes <= 0 {
        seq![]
    } else {
        let before = pinned_upto(active, fixed, nodes - 1);
        if pinned(active, fixed, nodes - 1) {
            before.push((nodes - 1) as usize)
        } else {
            before
        }
    }
}

/// The nodes that a support constrains.
///
/// Read back out of the assembled constraint mask rather than from the
/// configuration, so they are the nodes the solver really pins. Nodes touching no
/// material are pinned by the model builder for conditioning and are deliberately
/// left out.
pub fn constrained_nodes(active: &Vec<bool>, fixed: &Vec<bool>) -> (nodes: Vec<usize>)
    requires
        fixed@.len() == 3 * active@.len(),
    ensures
        nodes@ == pinned_upto(active@, fixed@, active@.len() as int),
{
    let mut nodes: Vec<usize> = Vec::new();
    let mut n: usize = 0;
    while n < active.len()
        invariant
            n <= active@.len(),
            fixed@.len() == 3 * active@.len(),
            nodes@ == pinned_upto(active@, fixed@, n as int),
        decreases active@.len() - n,
    {
        assert(fixed.len() == fixed@.len());
        if active[n] {
            let first: usize = DOF_PER_NODE * n;
            if fixed[first] || fixed[first + 1] || fixed[first + 2] {
                nodes.push(n);
            }
        }
        n += 1;
    }
    nodes
}

/// The list of pinned nodes holds each of them once and no other.
pub proof fn law_the_marked_nodes_are_the_pinned_ones(
    active: Seq<bool>,
    fixed: Seq<bool>,
    nodes: int,
    node: usize,
)
    requires
        0 <= nodes <= active.len() <= usize::MAX,
    ensures
        pinned_upto(active, fixed, nodes).contains(node) == (node < nodes && pinned(
            active,
            fixed,
            node as int,
        )),
        pinned_upto(active, fixed, nodes).no_duplicates(),
        pinned_upto(active, fixed, nodes).len() <= nodes,
        forall|k: int|
            0 <= k < pinned_upto(active, fixed, nodes).len() ==> (#[trigger] pinned_upto(
                active,
                fixed,
                nodes,
            )[k]) < nodes,
    decreases nodes,
{
    if nodes > 0 {
        law_the_marked_nodes_are_the_pinned_ones(active, fixed, nodes - 1, node);
        let before = pinned_upto(active, fixed, nodes - 1);
        let after = pinned_upto(active, fixed, nodes);
        if pinned(active, fixed, nodes - 1) {
            assert(after[before.len() as int] == (nodes - 1) as usize);
            if before.contains(node) {
                let k = choose|k: int| 0 <= k < before.len() && before[k] == node;
                assert(after[k] == node);
            }
        }
    }
}

/// Every how many of `count` nodes one is marked, so that no more than `most` are.
pub open spec fn stride_for(count: int, most: int) -> int {
    let room = if most < 1 {
        1
    } else {
        most
    };
    let stride = (count + room - 1) / room;
    if stride < 1 {
        1
    } else {
        stride
    }
}

/// Every how many nodes one is marked.
pub fn marker_stride(count: usize, most: usize) -> (stride: usize)
    ensures
        stride == stride_for(count as int, most as int),
        stride >= 1,
{
    let room: usize = if most < 1 {
        1
    } else {
        most
    };
    let whole: usize = count / room;
    let left: usize = count % room;
    proof {
        let c = count as int;
        let r = room as int;
        assert(c % r > 0 ==> c / r < c) by (nonlinear_arith)
            requires
                c >= 0,
                r >= 1,
        ;
    }
    let stride: usize = if left > 0 {
        whole + 1
    } else {
        whole
    };
    proof {
        let c = count as int;
        let r = room as int;
        assert((c + r - 1) / r == c / r + (if c % r > 0 {
            1int
        } else {
            0int
        })) by (nonlinear_arith)
            requires
                c >= 0,
                r >= 1,
        ;
    }
    if stride < 1 {
        1
    } else {
        stride
    }
}

/// Every so many of a list, from the first.
pub open spec fn every<T>(list: Seq<T>, stride: int) -> Seq<T> {
    Seq::new(((list.len() + stride - 1) / stride) as nat, |k: int| list[k * stride])
}

/// Every so many of a list of nodes, from the first.
pub fn step_by(nodes: &Vec<usize>, stride: usize) -> (picked: Vec<usize>)
    requires
        stride >= 1,
    ensures
        picked@ == every(nodes@, stride as int),
{
    let mut picked: Vec<usize> = Vec::new();
    let mut at: usize = 0;
    let length: usize = nodes.len();
    proof {
        assert(picked@.len() * stride == 0) by (nonlinear_arith)
            requires
                picked@.len() == 0,
        ;
    }
    loop
        invariant_except_break
            at == picked@.len() * stride,
            picked@.len() > 0 ==> (picked@.len() - 1) * stride < length,
        invariant
            stride >= 1,
            length == nodes@.len(),
            forall|k: int| 0 <= k < picked@.len() ==> #[trigger] picked@[k] == nodes@[k * stride],
        ensures
            picked@.len() == (length + stride - 1) / (stride as int),
            forall|k: int| 0 <= k < picked@.len() ==> #[trigger] picked@[k] == nodes@[k * stride],
        decreases length + stride - at,
    {
        let ghost m = picked@.len() as int;
        let ghost s = stride as int;
        let ghost l = length as int;
        if at >= length {
            proof {
                assert(m == (l + s - 1) / s) by (nonlinear_arith)
                    requires
                        s >= 1,
                        m >= 0,
                        l >= 0,
                        m * s >= l,
                        m > 0 ==> (m - 1) * s < l,
                ;
            }
            break;
        }
        picked.push(nodes[at]);
        proof {
            assert((m + 1 - 1) * s < l) by (nonlinear_arith)
                requires
                    m * s < l,
            ;
            assert((m + 1) * s == m * s + s) by (nonlinear_arith);
        }
        if length - at <= stride {
            proof {
                assert(m + 1 == (l + s - 1) / s) by (nonlinear_arith)
                    requires
                        s >= 1,
                        m >= 0,
                        m * s < l,
                        l <= m * s + s,
                ;
            }
            break;
        }
        at = at + stride;
    }
    assert(picked@ =~= every(nodes@, stride as int));
    picked
}

/// However many nodes a support constrains, no more of them are marked than a
/// scene draws, and where there is room every one of them is.
pub proof fn law_there_are_never_too_many_markers(nodes: Seq<usize>, most: int)
    requires
        most >= 1,
    ensures
        every(nodes, stride_for(nodes.len() as int, most)).len() <= most,
        nodes.len() <= most ==> every(nodes, stride_for(nodes.len() as int, most)) == nodes,
{
    let n = nodes.len() as int;
    let stride = stride_for(n, most);
    assert((n + stride - 1) / stride <= most) by {
        let q = (n + most - 1) / most;
        assert(q * most >= n) by (nonlinear_arith)
            requires
                most >= 1,
                n >= 0,
                q == (n + most - 1) / most,
        ;
        assert(stride * most >= n) by (nonlinear_arith)
            requires
                most >= 1,
                q * most >= n,
                stride >= q,
                n >= 0,
        ;
        assert((n + stride - 1) / stride <= most) by (nonlinear_arith)
            requires
                stride >= 1,
                most >= 1,
                n >= 0,
                stride * most >= n,
        ;
    }
    if n <= most {
        assert((n + most - 1) / most <= 1) by (nonlinear_arith)
            requires
                0 <= n <= most,
                most >= 1,
        ;
        assert(stride == 1);
        assert((n + stride - 1) / stride == n) by (nonlinear_arith)
            requires
                stride == 1,
        ;
        assert forall|k: int| 0 <= k < n implies every(nodes, 1)[k] == #[trigger] nodes[k] by {
            assert(k * 1 == k) by (nonlinear_arith);
        }
        assert(every(nodes, 1) =~= nodes);
    }
}

/// The nodes a scene marks.
pub fn support_markers(active: &Vec<bool>, fixed: &Vec<bool>) -> (nodes: Vec<usize>)
    requires
        fixed@.len() == 3 * active@.len(),
    ensures
        ({
            let pinned = pinned_upto(active@, fixed@, active@.len() as int);
            nodes@ == every(
                pinned,
                stride_for(pinned.len() as int, VIEW_MAX_SUPPORT_MARKERS as int),
            )
        }),
{
    let constrained = constrained_nodes(active, fixed);
    let stride = marker_stride(constrained.len(), VIEW_MAX_SUPPORT_MARKERS);
    step_by(&constrained, stride)
}

/// The vertices of the first meshes of a list, one behind the other.
pub open spec fn united_vertices<P>(parts: Seq<Mesh<P>>, count: int) -> Seq<P>
    decreases count,
{
    if count <= 0 {
        seq![]
    } else {
        united_vertices(parts, count - 1) + parts[count - 1].vertices@
    }
}

/// The triangles of the first meshes of a list, each over its own vertices.
pub open spec fn united_triangles<P>(parts: Seq<Mesh<P>>, count: int) -> Seq<[u32; 3]>
    decreases count,
{
    if count <= 0 {
        seq![]
    } else {
        appended(
            united_triangles(parts, count - 1),
            parts[count - 1].triangles@,
            united_vertices(parts, count - 1).len() as int,
        )
    }
}

/// Every mesh of a list names its own vertices, and all of them together can be
/// numbered.
pub open spec fn can_be_united<P>(parts: Seq<Mesh<P>>) -> bool {
    &&& united_vertices(parts, parts.len() as int).len() <= u32::MAX
    &&& forall|k: int|
        0 <= k < parts.len() ==> in_range(
            (#[trigger] parts[k]).triangles@,
            parts[k].vertices@.len() as int,
        )
}

proof fn lemma_fewer_vertices<P>(parts: Seq<Mesh<P>>, some: int, all: int)
    requires
        0 <= some <= all,
    ensures
        united_vertices(parts, some).len() <= united_vertices(parts, all).len(),
    decreases all - some,
{
    if some < all {
        lemma_fewer_vertices(parts, some, all - 1);
    }
}

/// One mesh of all the meshes of a list.
pub fn unite<P: Copy>(parts: &Vec<Mesh<P>>) -> (mesh: Mesh<P>)
    requires
        can_be_united(parts@),
    ensures
        mesh.vertices@ == united_vertices(parts@, parts@.len() as int),
        mesh.triangles@ == united_triangles(parts@, parts@.len() as int),
{
    let mut mesh: Mesh<P> = Mesh::empty();
    let mut k: usize = 0;
    assert(mesh.vertices@ =~= united_vertices(parts@, 0));
    assert(mesh.triangles@ =~= united_triangles(parts@, 0));
    while k < parts.len()
        invariant
            k <= parts@.len(),
            can_be_united(parts@),
            mesh.vertices@ == united_vertices(parts@, k as int),
            mesh.triangles@ == united_triangles(parts@, k as int),
        decreases parts@.len() - k,
    {
        proof {
            lemma_fewer_vertices(parts@, k + 1, parts@.len() as int);
            assert(in_range(
                parts@[k as int].triangles@,
                u32::MAX - united_vertices(parts@, k as int).len() + 1,
            ));
        }
        append(&mut mesh, &parts[k]);
        k += 1;
    }
    mesh
}

/// A union of closed meshes is closed, and names its own vertices.
pub proof fn law_a_union_of_closed_meshes_is_closed<P>(parts: Seq<Mesh<P>>, count: int)
    requires
        0 <= count <= parts.len(),
        can_be_united(parts),
        forall|k: int| 0 <= k < parts.len() ==> closed((#[trigger] parts[k]).triangles@),
    ensures
        closed(united_triangles(parts, count)),
        in_range(united_triangles(parts, count), united_vertices(parts, count).len() as int),
    decreases count,
{
    if count > 0 {
        law_a_union_of_closed_meshes_is_closed(parts, count - 1);
        lemma_fewer_vertices(parts, count, parts.len() as int);
        let before = united_triangles(parts, count - 1);
        let vertices = united_vertices(parts, count - 1).len() as int;
        let part = parts[count - 1];
        assert(in_range(part.triangles@, part.vertices@.len() as int));
        assert(in_range(part.triangles@, u32::MAX - vertices + 1));
        law_appending_keeps_meshes_closed(before, vertices, part.triangles@);
        let after = united_triangles(parts, count);
        assert forall|t: int|
            #![trigger after[t]]
            0 <= t < after.len() implies after[t][0] < vertices + part.vertices@.len()
            && after[t][1] < vertices + part.vertices@.len() && after[t][2] < vertices
            + part.vertices@.len() by {
            if t < before.len() {
                assert(after[t] == before[t]);
            } else {
                assert(after[t] == raised(part.triangles@[t - before.len()], vertices));
            }
        }
    }
}

/// What the messages call an entry of a list.
pub open spec fn entry_of(list: Seq<char>, index: int) -> Seq<char> {
    list + " entry "@ + decimal_of(index + 1)
}

/// What the messages call an entry of a list, counting from one.
pub fn entry_name(list: &str, index: usize) -> (name: String)
    requires
        index < usize::MAX,
    ensures
        name@ == entry_of(list@, index as int),
{
    let mut name = joined(list, " entry ");
    name.append(decimal((index + 1) as u64).as_str());
    name
}

/// The meshes of a list of shapes that were all made.
pub open spec fn all_made<P>(parts: Seq<Result<Mesh<P>, String>>) -> Seq<Mesh<P>> {
    parts.map_values(|part: Result<Mesh<P>, String>| part->Ok_0)
}

/// Whether the shape at `k` is the first that could not be made.
pub open spec fn first_refused<P>(parts: Seq<Result<Mesh<P>, String>>, k: int) -> bool {
    &&& 0 <= k < parts.len()
    &&& parts[k] is Err
    &&& forall|j: int| 0 <= j < k ==> (#[trigger] parts[j]) is Ok
}

/// Union of the tessellated shapes of a list, or what the first of them that
/// could not be made said.
pub fn shape_union<P: Copy>(parts: Vec<Result<Mesh<P>, String>>) -> (union: Result<Mesh<P>, String>)
    requires
        (forall|k: int| 0 <= k < parts@.len() ==> (#[trigger] parts@[k]) is Ok) ==> can_be_united(
            all_made(parts@),
        ),
    ensures
        match union {
            Ok(mesh) => {
                let made = all_made(parts@);
                &&& forall|k: int| 0 <= k < parts@.len() ==> (#[trigger] parts@[k]) is Ok
                &&& mesh.vertices@ == united_vertices(made, made.len() as int)
                &&& mesh.triangles@ == united_triangles(made, made.len() as int)
            },
            Err(why) => exists|k: int| #[trigger]
                first_refused(parts@, k) && parts@[k]->Err_0@ == why@,
        },
{
    let mut k: usize = 0;
    while k < parts.len()
        invariant
            k <= parts@.len(),
            forall|j: int| 0 <= j < k ==> (#[trigger] parts@[j]) is Ok,
        decreases parts@.len() - k,
    {
        match &parts[k] {
            Ok(_) => {},
            Err(why) => {
                assert(first_refused(parts@, k as int));
                return Err(why.as_str().to_owned());
            },
        }
        k += 1;
    }
    let mut mesh: Mesh<P> = Mesh::empty();
    let ghost made = all_made(parts@);
    let mut n: usize = 0;
    assert(mesh.vertices@ =~= united_vertices(made, 0));
    assert(mesh.triangles@ =~= united_triangles(made, 0));
    while n < parts.len()
        invariant
            n <= parts@.len(),
            forall|j: int| 0 <= j < parts@.len() ==> (#[trigger] parts@[j]) is Ok,
            made == all_made(parts@),
            can_be_united(made),
            mesh.vertices@ == united_vertices(made, n as int),
            mesh.triangles@ == united_triangles(made, n as int),
        decreases parts@.len() - n,
    {
        match &parts[n] {
            Ok(part) => {
                proof {
                    lemma_fewer_vertices(made, n + 1, made.len() as int);
                    assert(made[n as int] == *part);
                    assert(in_range(
                        part.triangles@,
                        u32::MAX - united_vertices(made, n as int).len() + 1,
                    ));
                }
                append(&mut mesh, part);
            },
            Err(_) => {},
        }
        n += 1;
    }
    Ok(mesh)
}

/// How a load is drawn.
#[derive(Clone, Copy, Debug, PartialEq, Eq, Structural)]
pub enum IndicatorKind {
    /// An arrow at the middle of its region.
    Arrow,
    /// An arc about its axis.
    Arc,
}

/// One load that gets an indicator.
#[derive(Debug)]
pub struct LoadIndicator {
    /// Number of the load case.
    pub case: usize,
    /// Number of the load in it.
    pub load: usize,
    /// How it is drawn.
    pub kind: IndicatorKind,
    /// What the messages call it.
    pub what: String,
}

/// A [`LoadIndicator`] as what it says.
pub struct IndicatorView {
    /// See [`LoadIndicator::case`].
    pub case: int,
    /// See [`LoadIndicator::load`].
    pub load: int,
    /// See [`LoadIndicator::kind`].
    pub kind: IndicatorKind,
    /// See [`LoadIndicator::what`].
    pub what: Seq<char>,
}

/// The indicators of a list, as what they say.
pub open spec fn indicated(indicators: Seq<LoadIndicator>) -> Seq<IndicatorView> {
    indicators.map_values(
        |indicator: LoadIndicator|
            IndicatorView {
                case: indicator.case as int,
                load: indicator.load as int,
                kind: indicator.kind,
                what: indicator.what@,
            },
    )
}

/// What the messages call a load.
pub open spec fn load_of(name: Seq<char>, case: int, load: int) -> Seq<char> {
    "[[loadcases]] \""@ + name + "\" (entry "@ + decimal_of(case + 1) + "), load "@ + decimal_of(
        load + 1,
    )
}

/// What the messages call a load, counting from one.
pub fn load_name(name: &str, case: usize, load: usize) -> (what: String)
    requires
        case < usize::MAX,
        load < usize::MAX,
    ensures
        what@ == load_of(name@, case as int, load as int),
{
    let mut what = joined("[[loadcases]] \"", name);
    what.append("\" (entry ");
    what.append(decimal((case + 1) as u64).as_str());
    what.append("), load ");
    what.append(decimal((load + 1) as u64).as_str());
    what
}

/// The indicators of the first loads of a load case.
pub open spec fn case_indicators(
    name: Seq<char>,
    loads: Seq<LoadSpec>,
    case: int,
    count: int,
) -> Seq<IndicatorView>
    decreases count,
{
    if count <= 0 {
        seq![]
    } else {
        let before = case_indicators(name, loads, case, count - 1);
        let load = count - 1;
        let what = load_of(name, case, load);
        match loads[load] {
            LoadSpec::Gravity { .. } => before,
            LoadSpec::Force { .. } => before.push(
                IndicatorView { case, load, kind: IndicatorKind::Arrow, what },
            ),
            LoadSpec::Torque { .. } => before.push(
                IndicatorView { case, load, kind: IndicatorKind::Arc, what },
            ),
        }
    }
}

/// The indicators of the first load cases.
pub open spec fn indicators_upto(cases: Seq<LoadCaseView>, count: int) -> Seq<IndicatorView>
    decreases count,
{
    if count <= 0 {
        seq![]
    } else {
        let case = cases[count - 1];
        indicators_upto(cases, count - 1) + case_indicators(
            case.name,
            case.loads,
            count - 1,
            case.loads.len() as int,
        )
    }
}

/// Arrows for every force and arcs for every torque, in every load case.
///
/// Self weight acts on the whole structure, so there is nothing to anchor an
/// arrow to; the density surface itself is the picture of where it acts.
pub fn load_indicators(config: &Config) -> (indicators: Vec<LoadIndicator>)
    ensures
        indicated(indicators@) == indicators_upto(
            config@.loadcases,
            config@.loadcases.len() as int,
        ),
{
    let mut indicators: Vec<LoadIndicator> = Vec::new();
    let mut case: usize = 0;
    assert(indicated(indicators@) =~= indicators_upto(config@.loadcases, 0));
    while case < config.loadcases.len()
        invariant
            case <= config.loadcases@.len(),
            indicated(indicators@) == indicators_upto(config@.loadcases, case as int),
        decreases config.loadcases@.len() - case,
    {
        assert(config.loadcases.len() == config.loadcases@.len());
        let ghost before = indicated(indicators@);
        let ghost view = config@.loadcases[case as int];
        assert(view.loads == config.loadcases@[case as int].loads@);
        assert(view.name == config.loadcases@[case as int].name@);
        let mut load: usize = 0;
        assert(indicated(indicators@) =~= before + case_indicators(
            view.name,
            view.loads,
            case as int,
            0,
        ));
        while load < config.loadcases[case as usize].loads.len()
            invariant
                case < config.loadcases@.len(),
                case < usize::MAX,
                view.loads == config.loadcases@[case as int].loads@,
                view.name == config.loadcases@[case as int].name@,
                load <= view.loads.len(),
                indicated(indicators@) == before + case_indicators(
                    view.name,
                    view.loads,
                    case as int,
                    load as int,
                ),
            decreases view.loads.len() - load,
        {
            let ghost so_far = indicators@;
            let entry = &config.loadcases[case];
            let kind = match &entry.loads[load] {
                LoadSpec::Gravity { .. } => None,
                LoadSpec::Force { .. } => Some(IndicatorKind::Arrow),
                LoadSpec::Torque { .. } => Some(IndicatorKind::Arc),
            };
            match kind {
                Some(kind) => {
                    let what = load_name(entry.name.as_str(), case, load);
                    indicators.push(LoadIndicator { case, load, kind, what });
                    assert(indicated(indicators@) =~= indicated(so_far).push(
                        IndicatorView {
                            case: case as int,
                            load: load as int,
                            kind,
                            what: what@,
                        },
                    ));
                },
                None => {},
            }
            load += 1;
            assert(indicated(indicators@) =~= before + case_indicators(
                view.name,
                view.loads,
                case as int,
                load as int,
            ));
        }
        case += 1;
    }
    indicators
}

/// Self weight adds no indicator, wherever among the loads of a case it stands.
pub proof fn law_self_weight_gets_no_indicator(
    name: Seq<char>,
    loads: Seq<LoadSpec>,
    case: int,
    count: int,
)
    requires
        0 <= count <= loads.len(),
    ensures
        forall|k: int|
            0 <= k < case_indicators(name, loads, case, count).len() ==> {
                let indicator = #[trigger] case_indicators(name, loads, case, count)[k];
                &&& 0 <= indicator.load < count
                &&& !(loads[indicator.load] is Gravity)
                &&& indicator.case == case
            },
        forall|load: int|
            0 <= load < count && !((#[trigger] loads[load]) is Gravity) ==> exists|k: int|
                0 <= k < case_indicators(name, loads, case, count).len()
                    && (#[trigger] case_indicators(name, loads, case, count)[k]).load == load,
    decreases count,
{
    if count > 0 {
        law_self_weight_gets_no_indicator(name, loads, case, count - 1);
        let before = case_indicators(name, loads, case, count - 1);
        let after = case_indicators(name, loads, case, count);
        assert forall|load: int|
            0 <= load < count && !((#[trigger] loads[load]) is Gravity) implies exists|k: int|
            0 <= k < after.len() && (#[trigger] after[k]).load == load by {
            if load < count - 1 {
                let k = choose|k: int|
                    0 <= k < before.len() && (#[trigger] before[k]).load == load;
                assert(after[k] == before[k]);
            } else {
                assert(after[before.len() as int].load == load);
            }
        }
        assert forall|k: int| 0 <= k < after.len() implies {
            let indicator = #[trigger] after[k];
            &&& 0 <= indicator.load < count
            &&& !(loads[indicator.load] is Gravity)
            &&& indicator.case == case
        } by {
            if k < before.len() {
                assert(after[k] == before[k]);
            }
        }
    }
}

/// An overlay that was tessellated and shaded.
#[derive(Debug)]
pub struct ShadedOverlay<V> {
    /// Whether there was nothing to shade.
    pub is_empty: bool,
    /// What came of it.
    pub mesh: LayerMesh<V>,
}

/// What a scene gets of an overlay: nothing where there was nothing to shade.
pub open spec fn layer_from<V>(overlay: ShadedOverlay<V>) -> Option<LayerMesh<V>> {
    if overlay.is_empty {
        None
    } else {
        Some(overlay.mesh)
    }
}

/// How a layer of the scene is shaded.
///
/// The voxelized domain is the one overlay whose facets *are* the answer: it is
/// what the optimizer sees, chamfers and all, and rounding it would draw a domain
/// the solver does not have. The density surface is smooth. Everything else is an
/// analytic shape, and is shaded so that its curved parts read as curved and its
/// edges stay edges.
pub fn shading_of(layer: Layer) -> (shading: Shading)
    ensures
        shading == (match layer {
            Layer::Domain => Shading::Flat,
            Layer::Density => Shading::Smooth,
            _ => Shading::Rounded,
        }),
        shading == Shading::Flat <==> layer == Layer::Domain,
        shading == Shading::Smooth <==> layer == Layer::Density,
{
    match layer {
        Layer::Domain => Shading::Flat,
        Layer::Density => Shading::Smooth,
        _ => Shading::Rounded,
    }
}

/// Whether a scene holds these overlays and nothing else, every switch where a new
/// scene has it.
pub open spec fn holds<V>(
    scene: Scene<V>,
    domain: LayerMesh<V>,
    keepout: ShadedOverlay<V>,
    keepin: ShadedOverlay<V>,
    markers: ShadedOverlay<V>,
    loads: Option<LayerMesh<V>>,
) -> bool {
    &&& scene.wf()
    &&& forall|layer: Layer| #[trigger]
        scene@.mesh(layer) == (match layer {
            Layer::Domain => Some(domain),
            Layer::Keepout => layer_from(keepout),
            Layer::Keepin => layer_from(keepin),
            Layer::Supports => layer_from(markers),
            Layer::Loads => loads,
            _ => None,
        })
    &&& forall|s: int| 0 <= s < LAYER_COUNT ==> #[trigger] scene@.visible[s]
    &&& scene@.stress is None
    &&& !scene@.stress_shading
    &&& scene@.flat_shading == VIEW_DEFAULT_FLAT_SHADING
    &&& scene@.isolate_part == VIEW_EDIT_ISOLATE_PART_DEFAULT
}

/// Put an overlay into a scene, where there is something to put.
fn set_overlay<V>(scene: &mut Scene<V>, layer: Layer, overlay: ShadedOverlay<V>)
    requires
        old(scene).wf(),
        layer != Layer::Density,
    ensures
        final(scene).wf(),
        final(scene)@ == (if overlay.is_empty {
            old(scene)@
        } else {
            old(scene)@.with_mesh(layer, Some(overlay.mesh))
        }),
{
    if !overlay.is_empty {
        scene.set(layer, Some(overlay.mesh));
    }
}

/// Build the setup overlays: domain, keepout, keepin, supports and loads.
///
/// The first of them that could not be made is the whole of the answer. The load
/// indicators are made last, by `loads`, which is shown the scene so far: they
/// are sized against the geometry that already exists, so that they scale with
/// the part. The density layer is left empty; a run fills it.
pub fn build<V, F: FnOnce(&Scene<V>) -> Result<ShadedOverlay<V>, String>>(
    domain: Result<LayerMesh<V>, String>,
    keepout: Result<ShadedOverlay<V>, String>,
    keepin: Result<ShadedOverlay<V>, String>,
    markers: ShadedOverlay<V>,
    loads: F,
) -> (built: Result<Scene<V>, String>)
    requires
        forall|scene: &Scene<V>| #[trigger] loads.requires((scene,)),
    ensures
        match (domain, keepout, keepin) {
            (Err(why), _, _) => built == Err::<Scene<V>, String>(why),
            (Ok(_), Err(why), _) => built == Err::<Scene<V>, String>(why),
            (Ok(_), Ok(_), Err(why)) => built == Err::<Scene<V>, String>(why),
            (Ok(domain), Ok(keepout), Ok(keepin)) => exists|
                shown: Scene<V>,
                made: Result<ShadedOverlay<V>, String>,
            |
                {
                    &&& holds(shown, domain, keepout, keepin, markers, None)
                    &&& #[trigger] loads.ensures((&shown,), made)
                    &&& match (made, built) {
                        (Err(why), Err(said)) => said == why,
                        (Ok(made), Ok(scene)) => holds(
                            scene,
                            domain,
                            keepout,
                            keepin,
                            markers,
                            layer_from(made),
                        ),
                        _ => false,
                    }
                },
        },
{
    let domain = match domain {
        Ok(domain) => domain,
        Err(why) => {
            return Err(why);
        },
    };
    let keepout = match keepout {
        Ok(keepout) => keepout,
        Err(why) => {
            return Err(why);
        },
    };
    let keepin = match keepin {
        Ok(keepin) => keepin,
        Err(why) => {
            return Err(why);
        },
    };
    let mut scene: Scene<V> = Scene::new();
    proof {
        assert forall|layer: Layer| #[trigger] scene@.mesh(layer) is None by {
            law_every_layer_has_one_slot(layer);
        }
    }
    scene.set(Layer::Domain, Some(domain));
    set_overlay(&mut scene, Layer::Keepout, keepout);
    set_overlay(&mut scene, Layer::Keepin, keepin);
    set_overlay(&mut scene, Layer::Supports, markers);
    assert(holds(scene, domain, keepout, keepin, markers, None));
    let ghost so_far = scene;
    let made = loads(&scene);
    assert(loads.ensures((&so_far,), made));
    match made {
        Err(why) => Err(why),
        Ok(made) => {
            set_overlay(&mut scene, Layer::Loads, made);
            assert(holds(scene, domain, keepout, keepin, markers, layer_from(made)));
            Ok(scene)
        },
    }
}

} // verus!
