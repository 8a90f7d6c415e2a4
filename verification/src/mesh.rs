//! Triangle meshes, and what makes one closed.

use vstd::prelude::*;

verus! {

/// A triangle mesh over vertices of any kind.
#[derive(Debug, PartialEq, Eq)]
pub struct Mesh<P> {
    /// The vertices.
    pub vertices: Vec<P>,
    /// Three vertex numbers per triangle, counter-clockwise seen from outside.
    pub triangles: Vec<[u32; 3]>,
}

/// The directed edge that leaves one corner of a triangle.
pub open spec fn edge(triangles: Seq<[u32; 3]>, t: int, corner: int) -> (u32, u32) {
    if corner == 0 {
        (triangles[t][0], triangles[t][1])
    } else if corner == 1 {
        (triangles[t][1], triangles[t][2])
    } else {
        (triangles[t][2], triangles[t][0])
    }
}

/// True when a triangle list has this corner of this triangle.
pub open spec fn has_corner(triangles: Seq<[u32; 3]>, t: int, corner: int) -> bool {
    0 <= t < triangles.len() && 0 <= corner < 3
}

/// An edge taken the other way.
pub open spec fn reversed(edge: (u32, u32)) -> (u32, u32) {
    (edge.1, edge.0)
}

/// A closed, consistently wound surface: no directed edge is on two triangles,
/// and every one of them is met by its own reverse on another triangle.
pub open spec fn closed(triangles: Seq<[u32; 3]>) -> bool {
    &&& forall|t: int, i: int, u: int, j: int|
        #![trigger edge(triangles, t, i), edge(triangles, u, j)]
        has_corner(triangles, t, i) && has_corner(triangles, u, j) && edge(triangles, t, i) == edge(
            triangles,
            u,
            j,
        ) ==> t == u && i == j
    &&& forall|t: int, i: int|
        #![trigger edge(triangles, t, i)]
        has_corner(triangles, t, i) ==> edge(triangles, t, i).0 != edge(triangles, t, i).1
            && met(triangles, t, i)
}

/// Some triangle takes this edge the other way.
pub open spec fn met(triangles: Seq<[u32; 3]>, t: int, i: int) -> bool {
    exists|u: int, j: int|
        has_corner(triangles, u, j) && #[trigger] edge(triangles, u, j) == reversed(
            edge(triangles, t, i),
        )
}

/// A table that says of every edge which corner of which triangle it leaves,
/// the edge's reverse included, shows a surface closed.
pub proof fn lemma_closed_by_owner(
    triangles: Seq<[u32; 3]>,
    owner: spec_fn(u32, u32) -> (int, int),
)
    requires
        forall|t: int, i: int|
            #![trigger edge(triangles, t, i)]
            has_corner(triangles, t, i) ==> {
                let (from, to) = edge(triangles, t, i);
                let (u, j) = owner(to, from);
                &&& from != to
                &&& owner(from, to) == (t, i)
                &&& has_corner(triangles, u, j)
                &&& edge(triangles, u, j) == (to, from)
            },
    ensures
        closed(triangles),
{
    assert forall|t: int, i: int|
        #![trigger edge(triangles, t, i)]
        has_corner(triangles, t, i) implies met(triangles, t, i) by {
        let (from, to) = edge(triangles, t, i);
        let (u, j) = owner(to, from);
        assert(edge(triangles, u, j) == reversed(edge(triangles, t, i)));
    }
}

/// Every triangle names vertices that are there.
pub open spec fn in_range(triangles: Seq<[u32; 3]>, vertices: int) -> bool {
    forall|t: int|
        #![trigger triangles[t]]
        0 <= t < triangles.len() ==> triangles[t][0] < vertices && triangles[t][1] < vertices
            && triangles[t][2] < vertices
}

/// A triangle with every vertex number raised.
pub open spec fn raised(triangle: [u32; 3], offset: int) -> [u32; 3] {
    [
        (triangle[0] + offset) as u32,
        (triangle[1] + offset) as u32,
        (triangle[2] + offset) as u32,
    ]
}

/// The triangles of one mesh behind those of another.
pub open spec fn appended(
    target: Seq<[u32; 3]>,
    source: Seq<[u32; 3]>,
    offset: int,
) -> Seq<[u32; 3]> {
    target + source.map_values(|t: [u32; 3]| raised(t, offset))
}

impl<P> Mesh<P> {
    /// A mesh of nothing.
    pub fn empty() -> (mesh: Mesh<P>)
        ensures
            mesh.vertices@.len() == 0,
            mesh.triangles@.len() == 0,
    {
        Mesh { vertices: Vec::new(), triangles: Vec::new() }
    }

    /// True when there is nothing to draw.
    pub fn is_empty(&self) -> (answer: bool)
        ensures
            answer == (self.triangles@.len() == 0),
    {
        self.triangles.len() == 0
    }
}

/// Two closed meshes put together are a closed mesh: shifting the indices keeps
/// the second one whole and clear of the first.
pub proof fn law_appending_keeps_meshes_closed(
    target: Seq<[u32; 3]>,
    vertices: int,
    source: Seq<[u32; 3]>,
)
    requires
        0 <= vertices <= u32::MAX,
        closed(target),
        in_range(target, vertices),
        closed(source),
        in_range(source, u32::MAX - vertices + 1),
    ensures
        closed(appended(target, source, vertices)),
{
    let both = appended(target, source, vertices);
    let n = target.len() as int;
    assert forall|t: int, i: int| has_corner(both, t, i) implies ({
        let e = #[trigger] edge(both, t, i);
        if t < n {
            e == edge(target, t, i) && e.0 < vertices && e.1 < vertices
        } else {
            e.0 == edge(source, t - n, i).0 + vertices && e.1 == edge(source, t - n, i).1 + vertices
        }
    }) by {
        if t < n {
            assert(both[t] == target[t]);
        } else {
            assert(both[t] == raised(source[t - n], vertices));
        }
    }
    assert forall|t: int, i: int, u: int, j: int|
        #![trigger edge(both, t, i), edge(both, u, j)]
        has_corner(both, t, i) && has_corner(both, u, j) && edge(both, t, i) == edge(
            both,
            u,
            j,
        ) implies t == u && i == j by {
        if t < n && u < n {
            assert(edge(target, t, i) == edge(target, u, j));
        } else if t >= n && u >= n {
            assert(edge(source, t - n, i) == edge(source, u - n, j));
        }
    }
    assert forall|t: int, i: int|
        #![trigger edge(both, t, i)]
        has_corner(both, t, i) implies edge(both, t, i).0 != edge(both, t, i).1 && met(
        both,
        t,
        i,
    ) by {
        if t < n {
            assert(edge(target, t, i).0 != edge(target, t, i).1 && met(target, t, i));
            let (u, j) = choose|u: int, j: int|
                has_corner(target, u, j) && #[trigger] edge(target, u, j) == reversed(
                    edge(target, t, i),
                );
            assert(edge(both, u, j) == reversed(edge(both, t, i)));
        } else {
            assert(edge(source, t - n, i).0 != edge(source, t - n, i).1 && met(source, t - n, i));
            let (u, j) = choose|u: int, j: int|
                has_corner(source, u, j) && #[trigger] edge(source, u, j) == reversed(
                    edge(source, t - n, i),
                );
            assert(edge(both, u + n, j) == reversed(edge(both, t, i)));
        }
    }
}

} // verus!
