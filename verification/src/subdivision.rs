//! One refinement pass: every triangle is split into four.
//!
//! The three edge midpoints of a triangle get three fresh slots at the end of
//! the vertex table. Midpoints are not shared between neighbouring triangles:
//! an edge that two triangles have in common gets one slot from each.

use crate::mesh::{reversed, Mesh, MeshView, Midpoint, Triangle};
use vstd::prelude::*;

verus! {

/// The midpoint of edge `k` of `t`.
pub open spec fn edge_midpoint(t: Triangle, k: int) -> Midpoint {
    Midpoint { p: t.edge(k).0, q: t.edge(k).1 }
}

/// Child `k` of `t`, whose edge midpoints sit in the slots `m`, `m + 1` and
/// `m + 2`: the three corner triangles in corner order, then the central one.
/// Each child is wound like `t`.
pub open spec fn child(t: Triangle, m: int, k: int) -> Triangle {
    let ab = m as usize;
    let bc = (m + 1) as usize;
    let ca = (m + 2) as usize;
    if k == 0 {
        Triangle { a: t.a, b: ab, c: ca }
    } else if k == 1 {
        Triangle { a: ab, b: t.b, c: bc }
    } else if k == 2 {
        Triangle { a: bc, b: t.c, c: ca }
    } else {
        Triangle { a: ab, b: bc, c: ca }
    }
}

impl MeshView {
    /// The midpoints that one pass adds: three for each triangle, in triangle
    /// order.
    pub open spec fn fresh_midpoints(self) -> Seq<Midpoint> {
        Seq::new(3 * self.triangles.len(), |j: int| edge_midpoint(self.triangles[j / 3], j % 3))
    }

    /// The mesh after one pass: triangle `i` is replaced, in place, by its four
    /// children over the fresh slots `vertex_count() + 3 * i ..`.
    pub open spec fn subdivided(self) -> MeshView {
        MeshView {
            corners: self.corners,
            midpoints: self.midpoints + self.fresh_midpoints(),
            triangles: Seq::new(
                4 * self.triangles.len(),
                |j: int| child(self.triangles[j / 4], self.vertex_count() + 3 * (j / 4), j % 4),
            ),
        }
    }
}

/// Splits every triangle of `mesh` into four.
pub fn tri_segment_mesh(mesh: Mesh) -> (finer: Mesh)
    requires
        mesh@.vertex_count() + 3 * mesh@.triangles.len() <= usize::MAX,
        4 * mesh@.triangles.len() <= usize::MAX,
    ensures
        finer@ == mesh@.subdivided(),
        finer@.triangles.len() == 4 * mesh@.triangles.len(),
        finer@.vertex_count() == mesh@.vertex_count() + 3 * mesh@.triangles.len(),
        mesh@.wf() ==> finer@.wf(),
{
    let ghost before = mesh@;
    let corners = mesh.corners;
    let old_triangles = mesh.triangles;
    let mut midpoints = mesh.midpoints;
    let mut triangles: Vec<Triangle> = Vec::new();
    let n = old_triangles.len();
    let base: usize = corners + midpoints.len();
    let mut i: usize = 0;
    while i < n
        invariant
            i <= n,
            n == before.triangles.len(),
            old_triangles@ == before.triangles,
            corners == before.corners,
            base == before.vertex_count(),
            base + 3 * n <= usize::MAX,
            4 * n <= usize::MAX,
            midpoints@ == before.midpoints + Seq::new(
                3 * i as nat,
                |j: int| edge_midpoint(before.triangles[j / 3], j % 3),
            ),
            triangles@ == Seq::new(
                4 * i as nat,
                |j: int| child(before.triangles[j / 4], base + 3 * (j / 4), j % 4),
            ),
        decreases n - i,
    {
        let t = old_triangles[i];
        let ab: usize = base + 3 * i;
        let bc: usize = ab + 1;
        let ca: usize = ab + 2;
        midpoints.push(Midpoint { p: t.a, q: t.b });
        midpoints.push(Midpoint { p: t.b, q: t.c });
        midpoints.push(Midpoint { p: t.c, q: t.a });
        triangles.push(Triangle::new(t.a, ab, ca));
        triangles.push(Triangle::new(ab, t.b, bc));
        triangles.push(Triangle::new(bc, t.c, ca));
        triangles.push(Triangle::new(ab, bc, ca));
        proof {
            assert(midpoints@ =~= before.midpoints + Seq::new(
                3 * (i + 1) as nat,
                |j: int| edge_midpoint(before.triangles[j / 3], j % 3),
            ));
            assert(triangles@ =~= Seq::new(
                4 * (i + 1) as nat,
                |j: int| child(before.triangles[j / 4], base + 3 * (j / 4), j % 4),
            ));
        }
        i += 1;
    }
    let finer = Mesh { corners, midpoints, triangles };
    proof {
        assert(finer@.midpoints =~= before.subdivided().midpoints);
        assert(finer@.triangles =~= before.subdivided().triangles);
        if before.wf() {
            subdivided_is_well_formed(before);
        }
    }
    finer
}

/// A pass keeps a well-formed mesh well formed: the fresh midpoints are built
/// from slots that were there before, and the children name old corners and
/// fresh midpoints only.
pub proof fn subdivided_is_well_formed(mesh: MeshView)
    requires
        mesh.wf(),
        mesh.vertex_count() + 3 * mesh.triangles.len() <= usize::MAX,
    ensures
        mesh.subdivided().wf(),
{
    let finer = mesh.subdivided();
    assert forall|k: int| 0 <= k < finer.midpoints.len() implies {
        &&& (#[trigger] finer.midpoints[k]).p < finer.corners + k
        &&& finer.midpoints[k].q < finer.corners + k
    } by {
        if k >= mesh.midpoints.len() {
            let j = k - mesh.midpoints.len();
            assert(mesh.triangles[j / 3].within(mesh.vertex_count()));
        }
    }
    assert forall|i: int| 0 <= i < finer.triangles.len() implies (#[trigger] finer.triangles[i]).within(
        finer.vertex_count(),
    ) by {
        assert(mesh.triangles[i / 4].within(mesh.vertex_count()));
    }
}

/// The four children tile their parent and keep its winding: along each edge
/// of the parent run, in the parent's direction, one edge of each of the two
/// corner children at its ends, through the edge's midpoint; and each edge of
/// the central child is walked the other way by one corner child.
pub proof fn children_tile_parent(t: Triangle, m: int)
    requires
        0 <= m,
        m + 2 <= usize::MAX,
    ensures
        child(t, m, 0).edge(0) == (t.a, m as usize),
        child(t, m, 1).edge(0) == (m as usize, t.b),
        child(t, m, 1).edge(1) == (t.b, (m + 1) as usize),
        child(t, m, 2).edge(0) == ((m + 1) as usize, t.c),
        child(t, m, 2).edge(1) == (t.c, (m + 2) as usize),
        child(t, m, 0).edge(2) == ((m + 2) as usize, t.a),
        child(t, m, 1).edge(2) == reversed(child(t, m, 3).edge(0)),
        child(t, m, 2).edge(2) == reversed(child(t, m, 3).edge(1)),
        child(t, m, 0).edge(1) == reversed(child(t, m, 3).edge(2)),
{
}

} // verus!
