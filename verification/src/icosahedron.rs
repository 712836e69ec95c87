//! The regular icosahedron: twelve corners, twenty faces, one fixed table.

use crate::mesh::{closed_surface, reversed, touched, walks, Mesh, MeshView, Triangle};
use vstd::prelude::*;

verus! {

/// Slots in an icosahedron's vertex table: slot 0 is the centre of the solid,
/// slots 1 to 12 are its corners.
pub const ICOSAHEDRON_SLOTS: usize = 13;

/// Number of faces of an icosahedron.
pub const ICOSAHEDRON_FACES: usize = 20;

/// The twenty faces, by the slots of their corners. All of them are wound
/// alike: see [`icosahedron_is_closed`].
pub open spec fn icosahedron_faces() -> Seq<Triangle> {
    seq![
        Triangle { a: 3, b: 2, c: 1 },
        Triangle { a: 2, b: 3, c: 4 },
        Triangle { a: 6, b: 5, c: 4 },
        Triangle { a: 5, b: 9, c: 4 },
        Triangle { a: 8, b: 7, c: 1 },
        Triangle { a: 7, b: 10, c: 1 },
        Triangle { a: 12, b: 11, c: 5 },
        Triangle { a: 11, b: 12, c: 7 },
        Triangle { a: 10, b: 6, c: 3 },
        Triangle { a: 6, b: 10, c: 12 },
        Triangle { a: 9, b: 8, c: 2 },
        Triangle { a: 8, b: 9, c: 11 },
        Triangle { a: 3, b: 6, c: 4 },
        Triangle { a: 9, b: 2, c: 4 },
        Triangle { a: 10, b: 3, c: 1 },
        Triangle { a: 2, b: 8, c: 1 },
        Triangle { a: 12, b: 10, c: 7 },
        Triangle { a: 8, b: 11, c: 7 },
        Triangle { a: 6, b: 12, c: 5 },
        Triangle { a: 11, b: 9, c: 5 },
    ]
}

/// The connectivity of an icosahedron.
pub open spec fn icosahedron_mesh() -> MeshView {
    MeshView { corners: 13, midpoints: Seq::empty(), triangles: icosahedron_faces() }
}

/// For each face, the faces across its three edges: entry `k` of row `i`
/// names the face, and the corner of that face, whose edge runs opposite to
/// edge `k` of face `i`.
spec fn neighbours() -> Seq<Seq<(int, int)>> {
    seq![
        seq![(1, 0), (15, 2), (14, 1)],
        seq![(0, 0), (12, 2), (13, 1)],
        seq![(18, 2), (3, 2), (12, 1)],
        seq![(19, 1), (13, 2), (2, 1)],
        seq![(17, 2), (5, 2), (15, 1)],
        seq![(16, 1), (14, 2), (4, 1)],
        seq![(7, 0), (19, 2), (18, 1)],
        seq![(6, 0), (16, 2), (17, 1)],
        seq![(9, 0), (12, 0), (14, 0)],
        seq![(8, 0), (16, 0), (18, 0)],
        seq![(11, 0), (15, 0), (13, 0)],
        seq![(10, 0), (19, 0), (17, 0)],
        seq![(8, 1), (2, 2), (1, 1)],
        seq![(10, 2), (1, 2), (3, 1)],
        seq![(8, 2), (0, 2), (5, 1)],
        seq![(10, 1), (4, 2), (0, 1)],
        seq![(9, 1), (5, 0), (7, 1)],
        seq![(11, 2), (7, 2), (4, 0)],
        seq![(9, 2), (6, 2), (2, 0)],
        seq![(11, 1), (3, 0), (6, 1)],
    ]
}

/// The twenty faces bound a closed surface and are wound consistently.
pub proof fn icosahedron_is_closed()
    ensures
        closed_surface(icosahedron_faces()),
{
    let f = icosahedron_faces();
    assert forall|i: int, k: int, j: int, m: int|
        #![trigger f[i].edge(k), f[j].edge(m)]
        0 <= i < f.len() && 0 <= k < 3 && 0 <= j < f.len() && 0 <= m < 3 && f[i].edge(k)
            == f[j].edge(m) implies i == j && k == m by {}
    assert forall|i: int, k: int|
        #![trigger f[i].edge(k)]
        0 <= i < f.len() && 0 <= k < 3 implies walks(f, reversed(f[i].edge(k))) by {
        let (j, m) = neighbours()[i][k];
        assert(0 <= j < f.len() && 0 <= m < 3 && f[j].edge(m) == reversed(f[i].edge(k)));
    }
}

/// Every face has three different corners among the slots 1 to 12, and every
/// one of those slots is a corner of some face.
pub proof fn icosahedron_spans_hull()
    ensures
        forall|i: int|
            0 <= i < icosahedron_faces().len() ==> {
                let face = #[trigger] icosahedron_faces()[i];
                &&& face.proper()
                &&& 1 <= face.a <= 12
                &&& 1 <= face.b <= 12
                &&& 1 <= face.c <= 12
            },
        forall|v: usize| 1 <= v <= 12 ==> #[trigger] touched(icosahedron_faces(), v),
{
    let f = icosahedron_faces();
    assert(f[0].touches(1) && f[0].touches(2) && f[0].touches(3));
    assert(f[2].touches(4) && f[2].touches(5) && f[2].touches(6));
    assert(f[4].touches(7) && f[4].touches(8));
    assert(f[3].touches(9) && f[5].touches(10));
    assert(f[6].touches(11) && f[6].touches(12));
}

/// An icosahedron, as a mesh over a table of thirteen given positions.
pub struct Icosahedron {
    pub mesh: Mesh,
}

impl Icosahedron {
    /// Builds the twenty faces over slots 1 to 12.
    pub fn new() -> (ico: Icosahedron)
        ensures
            ico.mesh@ == icosahedron_mesh(),
            ico.mesh@.triangles.len() == ICOSAHEDRON_FACES,
            ico.mesh@.wf(),
            closed_surface(ico.mesh@.triangles),
    {
        let mut mesh = Mesh::new();
        mesh.corners = ICOSAHEDRON_SLOTS;
        mesh.add_triangle(Triangle::new(3, 2, 1));
        mesh.add_triangle(Triangle::new(2, 3, 4));
        mesh.add_triangle(Triangle::new(6, 5, 4));
        mesh.add_triangle(Triangle::new(5, 9, 4));
        mesh.add_triangle(Triangle::new(8, 7, 1));
        mesh.add_triangle(Triangle::new(7, 10, 1));
        mesh.add_triangle(Triangle::new(12, 11, 5));
        mesh.add_triangle(Triangle::new(11, 12, 7));
        mesh.add_triangle(Triangle::new(10, 6, 3));
        mesh.add_triangle(Triangle::new(6, 10, 12));
        mesh.add_triangle(Triangle::new(9, 8, 2));
        mesh.add_triangle(Triangle::new(8, 9, 11));
        mesh.add_triangle(Triangle::new(3, 6, 4));
        mesh.add_triangle(Triangle::new(9, 2, 4));
        mesh.add_triangle(Triangle::new(10, 3, 1));
        mesh.add_triangle(Triangle::new(2, 8, 1));
        mesh.add_triangle(Triangle::new(12, 10, 7));
        mesh.add_triangle(Triangle::new(8, 11, 7));
        mesh.add_triangle(Triangle::new(6, 12, 5));
        mesh.add_triangle(Triangle::new(11, 9, 5));
        proof {
            icosahedron_is_closed();
            assert(mesh@.triangles =~= icosahedron_faces());
            assert(mesh@.midpoints =~= Seq::empty());
        }
        Icosahedron { mesh }
    }
}

} // verus!
