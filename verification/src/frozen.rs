//! A verified reference implementation of the kernel boundary: the
//! degenerate scheme with zero fluxes and zero source terms, for which one
//! stage leaves the primitive field exactly as it was. It exercises the
//! whole update protocol — interior extraction into the conserved scratch
//! buffer, stage write, buffer swap — and shows that the kernel contract
//! is implementable.

use vstd::prelude::*;

use crate::interior::extract_interior;
use crate::interior::interior_extract;
use crate::kernel::Kernel;
use crate::mesh::Mesh;
use crate::patch::Patch;

verus! {

/// The kernel pair of the frozen scheme: no fluxes, no sources. Fit for
/// exercising any backend, since one step computes and rewrites every
/// buffer and yet provably changes nothing observable.
#[derive(Debug, Clone, Copy)]
pub struct FrozenKernel;

impl<T: Copy> Kernel<T> for FrozenKernel {
    /// The conserved field of the frozen scheme: the interior restriction
    /// of the primitive field itself.
    open spec fn conserved_of(&self, mesh: Mesh<T>, primitive: Seq<T>) -> Seq<T> {
        interior_extract(mesh, primitive)
    }

    /// One stage of the frozen scheme returns the primitive field
    /// unchanged.
    open spec fn updated_of(
        &self,
        mesh: Mesh<T>,
        conserved: Seq<T>,
        primitive: Seq<T>,
        time: T,
        dt: T,
    ) -> Seq<T> {
        primitive
    }

    fn primitive_to_conserved(
        &self,
        mesh: &Mesh<T>,
        primitive: &Patch<T>,
        conserved: &mut Patch<T>,
    ) {
        proof {
            assert(3 * mesh.ni * mesh.nj == mesh.ni * mesh.nj * 3) by (nonlinear_arith);
        }
        conserved.data = extract_interior(mesh, primitive);
    }

    fn advance_rk(
        &self,
        mesh: &Mesh<T>,
        conserved: &Patch<T>,
        primitive: &Patch<T>,
        output: &mut Patch<T>,
        time: T,
        dt: T,
    ) {
        output.data = primitive.to_vec();
    }
}

} // verus!
