//! The boundary to the externally supplied numerical kernels.
//!
//! The finite-volume mathematics (flux update, boundary, point-mass and
//! buffer-zone source terms) is out of this crate's scope: a backend solver
//! consumes it as a pair of opaque kernels with a fixed call signature,
//! implemented by the embedding application. The kernels are pure
//! functions of their inputs: each implementation names the value it
//! computes through the two spec functions of this trait, and a verified
//! implementation must prove that its exec methods return exactly those
//! values. The solver core relies on nothing else about them.

use vstd::prelude::*;

use crate::mesh::Mesh;
use crate::patch::Patch;

verus! {

/// Holds when `p` is a primitive buffer for `mesh`: a halo of depth 2 on
/// every side, so origin `(-2, -2)` and shape `[ni + 4, nj + 4]`, with 3
/// fields per zone.
pub open spec fn halo_patch_of<T: Copy>(p: Patch<T>, mesh: Mesh<T>) -> bool {
    &&& p.wf()
    &&& p.origin[0] == -2
    &&& p.origin[1] == -2
    &&& p.shape[0] as int == mesh.ni as int + 4
    &&& p.shape[1] as int == mesh.nj as int + 4
    &&& p.num_fields == 3
}

/// Holds when `p` is a conserved scratch buffer for `mesh`: interior zones
/// only, so origin `(0, 0)` and shape `[ni, nj]`, with 3 fields per zone.
pub open spec fn interior_patch_of<T: Copy>(p: Patch<T>, mesh: Mesh<T>) -> bool {
    &&& p.wf()
    &&& p.origin[0] == 0
    &&& p.origin[1] == 0
    &&& p.shape[0] as int == mesh.ni as int
    &&& p.shape[1] as int == mesh.nj as int
    &&& p.num_fields == 3
}

/// One execution strategy's pair of numerical kernels. The two exec
/// methods never read and write the same buffer — the distinct `&mut`
/// output argument rules aliasing out — so an implementation may
/// distribute the per-zone work freely, as long as the call returns only
/// once the whole output buffer is written.
pub trait Kernel<T: Copy> {
    /// The conserved field this kernel computes from a primitive field.
    spec fn conserved_of(&self, mesh: Mesh<T>, primitive: Seq<T>) -> Seq<T>;

    /// The primitive field, halo included, this kernel computes for one
    /// explicit stage of the given time offset and step.
    spec fn updated_of(
        &self,
        mesh: Mesh<T>,
        conserved: Seq<T>,
        primitive: Seq<T>,
        time: T,
        dt: T,
    ) -> Seq<T>;

    /// Recomputes the conserved scratch buffer from the current primitive
    /// buffer, covering the interior zones only.
    fn primitive_to_conserved(
        &self,
        mesh: &Mesh<T>,
        primitive: &Patch<T>,
        conserved: &mut Patch<T>,
    )
        requires
            mesh.wf(),
            halo_patch_of(*primitive, *mesh),
            interior_patch_of(*old(conserved), *mesh),
        ensures
            final(conserved).origin == old(conserved).origin,
            final(conserved).shape == old(conserved).shape,
            final(conserved).num_fields == old(conserved).num_fields,
            final(conserved)@.len() == old(conserved)@.len(),
            final(conserved)@ == self.conserved_of(*mesh, primitive@),
    ;

    /// Writes the primitive field after one explicit stage — interior and
    /// halo — into `output`, reading the conserved and primitive buffers.
    fn advance_rk(
        &self,
        mesh: &Mesh<T>,
        conserved: &Patch<T>,
        primitive: &Patch<T>,
        output: &mut Patch<T>,
        time: T,
        dt: T,
    )
        requires
            mesh.wf(),
            interior_patch_of(*conserved, *mesh),
            halo_patch_of(*primitive, *mesh),
            halo_patch_of(*old(output), *mesh),
        ensures
            final(output).origin == old(output).origin,
            final(output).shape == old(output).shape,
            final(output).num_fields == old(output).num_fields,
            final(output)@.len() == old(output)@.len(),
            final(output)@ == self.updated_of(*mesh, conserved@, primitive@, time, dt),
    ;
}

/// The primitive field after one full order-1 step: the conserved state is
/// recomputed from the current primitive field, then one stage is taken.
pub open spec fn step_primitive<T: Copy, K: Kernel<T>>(
    kernel: K,
    mesh: Mesh<T>,
    primitive: Seq<T>,
    time: T,
    dt: T,
) -> Seq<T> {
    kernel.updated_of(mesh, kernel.conserved_of(mesh, primitive), primitive, time, dt)
}

/// The primitive field after `n` successive order-1 steps of the same step
/// size.
pub open spec fn advanced_primitive<T: Copy, K: Kernel<T>>(
    kernel: K,
    mesh: Mesh<T>,
    primitive: Seq<T>,
    time: T,
    dt: T,
    n: nat,
) -> Seq<T>
    decreases n,
{
    if n == 0 {
        primitive
    } else {
        step_primitive(
            kernel,
            mesh,
            advanced_primitive(kernel, mesh, primitive, time, dt, (n - 1) as nat),
            time,
            dt,
        )
    }
}

} // verus!
