//! A sphere approximated by a refined icosahedron.

use crate::icosahedron::{icosahedron_mesh, Icosahedron};
use crate::mesh::{Mesh, MeshView};
use crate::subdivision::{subdivided_is_well_formed, tri_segment_mesh};
use vstd::prelude::*;

verus! {

/// Number of refinement passes that turn the icosahedron into the sphere.
pub const SPHERE_PASSES: usize = 3;

/// Number of triangles of the sphere: twenty, quadrupled by each pass.
pub const SPHERE_FACES: usize = 1280;

/// Number of slots in the sphere's vertex table: the thirteen of the
/// icosahedron and three for every triangle that a pass splits.
pub const SPHERE_SLOTS: usize = 1273;

/// `mesh` after `passes` refinement passes.
pub open spec fn refined(mesh: MeshView, passes: nat) -> MeshView
    decreases passes,
{
    if passes == 0 {
        mesh
    } else {
        refined(mesh, (passes - 1) as nat).subdivided()
    }
}

/// Number of triangles of the icosahedron after `passes` passes.
pub open spec fn faces_after(passes: nat) -> nat
    decreases passes,
{
    if passes == 0 {
        20
    } else {
        4 * faces_after((passes - 1) as nat)
    }
}

/// Number of vertex slots of the icosahedron after `passes` passes.
pub open spec fn slots_after(passes: nat) -> nat
    decreases passes,
{
    if passes == 0 {
        13
    } else {
        slots_after((passes - 1) as nat) + 3 * faces_after((passes - 1) as nat)
    }
}

/// However often the icosahedron is refined, it has the triangles and slots
/// that the two counts say, over its thirteen given slots; and it is well
/// formed as long as the machine can count its slots.
pub proof fn refinement_counts(passes: nat)
    ensures
        refined(icosahedron_mesh(), passes).triangles.len() == faces_after(passes),
        refined(icosahedron_mesh(), passes).vertex_count() == slots_after(passes),
        refined(icosahedron_mesh(), passes).corners == 13,
        slots_after(passes) <= usize::MAX ==> refined(icosahedron_mesh(), passes).wf(),
    decreases passes,
{
    if passes > 0 {
        let before = (passes - 1) as nat;
        refinement_counts(before);
        if slots_after(passes) <= usize::MAX {
            subdivided_is_well_formed(refined(icosahedron_mesh(), before));
        }
    }
}

/// The connectivity of a sphere: an icosahedron, refined three times. Its
/// vertex table starts with the icosahedron's thirteen slots.
pub struct Sphere {
    pub mesh: Mesh,
}

impl Sphere {
    /// Builds the icosahedron and refines it [`SPHERE_PASSES`] times.
    pub fn new() -> (sphere: Sphere)
        ensures
            sphere.mesh@ == refined(icosahedron_mesh(), SPHERE_PASSES as nat),
            sphere.mesh@.triangles.len() == SPHERE_FACES,
            sphere.mesh@.vertex_count() == SPHERE_SLOTS,
            sphere.mesh@.corners == 13,
            sphere.mesh@.wf(),
    {
        let ico = Icosahedron::new();
        let mut mesh = ico.mesh;
        let mut pass: usize = 0;
        while pass < SPHERE_PASSES
            invariant
                pass <= SPHERE_PASSES,
                mesh@ == refined(icosahedron_mesh(), pass as nat),
                mesh@.triangles.len() == faces_after(pass as nat),
                mesh@.vertex_count() == slots_after(pass as nat),
                mesh@.corners == 13,
                mesh@.wf(),
            decreases SPHERE_PASSES - pass,
        {
            proof {
                reveal_with_fuel(faces_after, 4);
                reveal_with_fuel(slots_after, 4);
            }
            mesh = tri_segment_mesh(mesh);
            pass += 1;
        }
        proof {
            reveal_with_fuel(faces_after, 4);
            reveal_with_fuel(slots_after, 4);
        }
        Sphere { mesh }
    }
}

} // verus!
