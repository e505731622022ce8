//! Serial backend: the per-zone work of one integration step runs fully
//! sequentially on the calling thread.

use vstd::prelude::*;

use crate::interior::extract_interior;
use crate::interior::interior_extract;
use crate::kernel::halo_patch_of;
use crate::kernel::interior_patch_of;
use crate::kernel::step_primitive;
use crate::kernel::Kernel;
use crate::mesh::Mesh;
use crate::patch::Patch;
use crate::solve::Solve;
use crate::solve::SolverError;

verus! {

/// A serial solver owns its mesh, the kernel pair of its execution
/// strategy, and three patches: two ping-pong primitive buffers with a
/// halo of depth 2, and one conserved scratch buffer over the interior
/// zones, fully recomputed on every step.
pub struct Solver<T, K> {
    mesh: Mesh<T>,
    kernel: K,
    zero: T,
    primitive1: Patch<T>,
    primitive2: Patch<T>,
    conserved0: Patch<T>,
}

impl<T: Copy, K: Kernel<T>> Solver<T, K> {
    /// The mesh this solver was constructed with.
    pub closed spec fn mesh_spec(self) -> Mesh<T> {
        self.mesh
    }

    /// The kernel pair this solver was constructed with.
    pub closed spec fn kernel_spec(self) -> K {
        self.kernel
    }

    /// The zero element this solver was constructed with; it fills the
    /// fresh buffers and serves as the time offset of the single stage.
    pub closed spec fn zero_spec(self) -> T {
        self.zero
    }

    /// Builds a solver over the given mesh from an initial primitive
    /// field, which must cover the interior and a halo of depth 2 with 3
    /// fields per zone. The caller supplies the zero element of the scalar
    /// type; the second primitive buffer and the conserved scratch buffer
    /// are zero-filled, and no step ever reads either before fully
    /// rewriting it.
    pub fn new(mesh: Mesh<T>, primitive: Vec<T>, kernel: K, zero: T) -> (s: Self)
        requires
            mesh.wf(),
            primitive@.len() == (mesh.ni + 4) * (mesh.nj + 4) * 3,
        ensures
            s.wf(),
            s.state() == primitive@,
            s.mesh_spec() == mesh,
            s.kernel_spec() == kernel,
            s.zero_spec() == zero,
    {
        let ni = mesh.ni();
        let nj = mesh.nj();
        // Brings the buffer length's usize bound into scope for the
        // allocation-size proofs below.
        let _buffer_len: usize = primitive.len();
        proof {
            let a = mesh.ni + 4;
            let b = mesh.nj + 4;
            assert(a * b <= a * b * 3 && 0 <= a * b) by (nonlinear_arith)
                requires 0 < a, 0 < b;
            assert(mesh.ni * mesh.nj <= a * b && 0 <= mesh.ni * mesh.nj) by (nonlinear_arith)
                requires 0 <= mesh.ni < a, 0 <= mesh.nj < b;
            assert(mesh.ni * mesh.nj * 3 <= a * b * 3) by (nonlinear_arith)
                requires mesh.ni * mesh.nj <= a * b;
        }
        let primitive1 = Patch::from_vec([-2, -2], [ni + 4, nj + 4], 3, &primitive);
        let primitive2 = Patch::zeros([-2, -2], [ni + 4, nj + 4], 3, zero);
        let conserved0 = Patch::zeros([0, 0], mesh.shape(), 3, zero);
        Solver { mesh, kernel, zero, primitive1, primitive2, conserved0 }
    }
}

impl<T: Copy, K: Kernel<T>> Solve<T> for Solver<T, K> {
    closed spec fn wf(&self) -> bool {
        &&& self.mesh.wf()
        &&& halo_patch_of(self.primitive1, self.mesh)
        &&& halo_patch_of(self.primitive2, self.mesh)
        &&& interior_patch_of(self.conserved0, self.mesh)
    }

    closed spec fn state(&self) -> Seq<T> {
        self.primitive1@
    }

    open spec fn prim(&self) -> Seq<T> {
        interior_extract(self.mesh_spec(), self.state())
    }

    open spec fn next_state(&self, dt: T) -> Seq<T> {
        step_primitive(self.kernel_spec(), self.mesh_spec(), self.state(), self.zero_spec(), dt)
    }

    open spec fn same_setup(&self, other: &Self) -> bool {
        &&& self.mesh_spec() == other.mesh_spec()
        &&& self.kernel_spec() == other.kernel_spec()
        &&& self.zero_spec() == other.zero_spec()
    }

    proof fn lemma_step_congruence(&self, other: &Self, dt: T) {
    }

    fn primitive(&self) -> (r: Vec<T>) {
        extract_interior(&self.mesh, &self.primitive1)
    }

    fn advance(&mut self, rk_order: usize, dt: T) -> (r: Result<(), SolverError>) {
        if rk_order != 1 {
            return Err(SolverError::UnsupportedOperation);
        }
        self.kernel.primitive_to_conserved(&self.mesh, &self.primitive1, &mut self.conserved0);
        self.kernel.advance_rk(
            &self.mesh,
            &self.conserved0,
            &self.primitive1,
            &mut self.primitive2,
            self.zero,
            dt,
        );
        core::mem::swap(&mut self.primitive1, &mut self.primitive2);
        Ok(())
    }
}

} // verus!
