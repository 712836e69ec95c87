//! Mesh connectivity: which slots of a vertex table form which triangle.
//!
//! A mesh here holds no coordinates. Its vertices are slots of a table that
//! the caller fills: the first `corners` slots hold positions given from
//! outside, and every later slot is the midpoint of two earlier slots, pushed
//! out to the unit sphere. Filling the table in slot order is therefore always
//! possible, and the arithmetic it takes stays with the caller.

use vstd::prelude::*;

verus! {

/// A triangle, named by the slots of its three corners in winding order.
#[derive(Clone, Copy, Debug, PartialEq, Eq, Structural)]
pub struct Triangle {
    pub a: usize,
    pub b: usize,
    pub c: usize,
}

/// A derived vertex: the midpoint of the slots `p` and `q`.
#[derive(Clone, Copy, Debug, PartialEq, Eq, Structural)]
pub struct Midpoint {
    pub p: usize,
    pub q: usize,
}

/// An ordered collection of triangles over one vertex table.
#[derive(Debug)]
pub struct Mesh {
    /// Number of leading slots whose positions are given from outside.
    pub corners: usize,
    /// Slot `corners + k` is the midpoint `midpoints[k]`.
    pub midpoints: Vec<Midpoint>,
    /// The triangles, in the order in which they were added.
    pub triangles: Vec<Triangle>,
}

/// The mathematical content of a [`Mesh`].
pub struct MeshView {
    pub corners: nat,
    pub midpoints: Seq<Midpoint>,
    pub triangles: Seq<Triangle>,
}

impl MeshView {
    /// Number of slots in the vertex table.
    pub open spec fn vertex_count(self) -> nat {
        self.corners + self.midpoints.len()
    }

    /// Every midpoint is built from earlier slots, and every triangle names
    /// slots of the table.
    pub open spec fn wf(self) -> bool {
        &&& forall|k: int|
            0 <= k < self.midpoints.len() ==> {
                &&& (#[trigger] self.midpoints[k]).p < self.corners + k
                &&& self.midpoints[k].q < self.corners + k
            }
        &&& forall|i: int|
            0 <= i < self.triangles.len() ==> (#[trigger] self.triangles[i]).within(
                self.vertex_count(),
            )
    }
}

/// The directed edge `e`, walked the other way.
pub open spec fn reversed(e: (usize, usize)) -> (usize, usize) {
    (e.1, e.0)
}

/// Some face of `faces` walks the directed edge `e`.
pub open spec fn walks(faces: Seq<Triangle>, e: (usize, usize)) -> bool {
    exists|j: int, m: int|
        #![trigger faces[j].edge(m)]
        0 <= j < faces.len() && 0 <= m < 3 && faces[j].edge(m) == e
}

/// Some face of `faces` has a corner in slot `v`.
pub open spec fn touched(faces: Seq<Triangle>, v: usize) -> bool {
    exists|i: int| 0 <= i < faces.len() && #[trigger] faces[i].touches(v)
}

/// `faces` bound a closed surface and are wound consistently: no directed
/// edge is walked twice, and each is walked the other way by some face.
pub open spec fn closed_surface(faces: Seq<Triangle>) -> bool {
    &&& forall|i: int, k: int, j: int, m: int|
        #![trigger faces[i].edge(k), faces[j].edge(m)]
        0 <= i < faces.len() && 0 <= k < 3 && 0 <= j < faces.len() && 0 <= m < 3 && faces[i].edge(k)
            == faces[j].edge(m) ==> i == j && k == m
    &&& forall|i: int, k: int|
        #![trigger faces[i].edge(k)]
        0 <= i < faces.len() && 0 <= k < 3 ==> walks(faces, reversed(faces[i].edge(k)))
}

impl View for Mesh {
    type V = MeshView;

    open spec fn view(&self) -> MeshView {
        MeshView {
            corners: self.corners as nat,
            midpoints: self.midpoints@,
            triangles: self.triangles@,
        }
    }
}

impl Triangle {
    /// All three corners are slots below `limit`.
    pub open spec fn within(self, limit: nat) -> bool {
        self.a < limit && self.b < limit && self.c < limit
    }

    /// The three corners sit in three different slots.
    pub open spec fn proper(self) -> bool {
        self.a != self.b && self.b != self.c && self.c != self.a
    }

    /// `v` is one of the corners.
    pub open spec fn touches(self, v: usize) -> bool {
        self.a == v || self.b == v || self.c == v
    }

    /// The directed edge that leaves corner number `k` (0, 1 or 2): from that
    /// corner to the next one in winding order.
    pub open spec fn edge(self, k: int) -> (usize, usize) {
        if k == 0 {
            (self.a, self.b)
        } else if k == 1 {
            (self.b, self.c)
        } else {
            (self.c, self.a)
        }
    }

    /// The triangle with corners `a`, `b`, `c`, wound in that order.
    pub fn new(a: usize, b: usize, c: usize) -> (t: Triangle)
        ensures
            t == (Triangle { a, b, c }),
    {
        Triangle { a, b, c }
    }

    /// The degenerate triangle whose corners all sit in slot 0.
    pub fn default() -> (t: Triangle)
        ensures
            t == (Triangle { a: 0, b: 0, c: 0 }),
    {
        Triangle { a: 0, b: 0, c: 0 }
    }
}

impl Mesh {
    /// An empty mesh over an empty vertex table.
    pub fn new() -> (mesh: Mesh)
        ensures
            mesh@.corners == 0,
            mesh@.midpoints.len() == 0,
            mesh@.triangles.len() == 0,
            mesh@.wf(),
    {
        Mesh { corners: 0, midpoints: Vec::new(), triangles: Vec::new() }
    }

    /// Appends `triangle` behind the triangles already held.
    pub fn add_triangle(&mut self, triangle: Triangle)
        ensures
            final(self)@.corners == old(self)@.corners,
            final(self)@.midpoints == old(self)@.midpoints,
            final(self)@.triangles == old(self)@.triangles.push(triangle),
            old(self)@.wf() && triangle.within(old(self)@.vertex_count()) ==> final(self)@.wf(),
    {
        self.triangles.push(triangle);
    }
}

} // verus!
