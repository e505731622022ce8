//! Cross-backend laws of the update protocol.
//!
//! Each backend's `advance` already pins its result: one supported step
//! drives the primitive field from `p` to `step_primitive(kernel, mesh, p,
//! zero, dt)`, a function of the construction parameters and the current
//! field alone. The lemmas here state the consequences the backends are
//! chosen for: different execution strategies agree, and repeated steps
//! are deterministic.

use vstd::prelude::*;

use crate::cpu;
use crate::interior::interior_extract;
use crate::kernel::advanced_primitive;
use crate::kernel::Kernel;
use crate::mesh::Mesh;
use crate::omp;
use crate::solve::Solve;

verus! {

/// Backend equivalence: a serial and a shared-memory-parallel solver
/// built over the same mesh, the same initial primitive field and the
/// same zero element compute equal primitive buffers — and so observe
/// equal primitive fields — from one `advance` call, whenever their
/// kernel pairs compute the same values — which is exactly what two
/// execution strategies of one numerical scheme promise.
pub proof fn lemma_backend_equivalence<T: Copy, K1: Kernel<T>, K2: Kernel<T>>(
    a: cpu::Solver<T, K1>,
    b: omp::Solver<T, K2>,
    dt: T,
)
    requires
        a.mesh_spec() == b.mesh_spec(),
        a.zero_spec() == b.zero_spec(),
        a.state() == b.state(),
        forall|p: Seq<T>|
            #[trigger] a.kernel_spec().conserved_of(a.mesh_spec(), p)
                == b.kernel_spec().conserved_of(b.mesh_spec(), p),
        forall|c: Seq<T>, p: Seq<T>, t: T, d: T|
            #[trigger] a.kernel_spec().updated_of(a.mesh_spec(), c, p, t, d)
                == b.kernel_spec().updated_of(b.mesh_spec(), c, p, t, d),
    ensures
        a.next_state(dt) == b.next_state(dt),
        interior_extract(a.mesh_spec(), a.next_state(dt))
            == interior_extract(b.mesh_spec(), b.next_state(dt)),
{
}

/// Determinism across one step, for any backend: two solvers of one
/// backend type with agreeing construction parameters and equal primitive
/// buffers observe the same primitive field and step to equal buffers.
/// Since `advance` also preserves the construction parameters, the
/// agreement carries through any number of successive steps.
pub proof fn lemma_one_step_determinism<T: Copy, S: Solve<T>>(a: S, b: S, dt: T)
    requires
        a.same_setup(&b),
        a.state() == b.state(),
    ensures
        a.prim() == b.prim(),
        a.next_state(dt) == b.next_state(dt),
{
    a.lemma_step_congruence(&b, dt);
}

/// Determinism: the primitive field after `n` steps is a function of the
/// construction parameters, the initial field and the step size alone, so
/// two independently constructed solvers with identical parameters walk
/// through identical primitive fields. Together with the contract of
/// `advance` — after each supported call the field equals
/// `step_primitive` of its predecessor — `n` successive calls land on
/// `advanced_primitive(kernel, mesh, initial, zero, dt, n)` exactly.
pub proof fn lemma_determinism<T: Copy, K: Kernel<T>>(
    kernel1: K,
    kernel2: K,
    mesh1: Mesh<T>,
    mesh2: Mesh<T>,
    initial1: Seq<T>,
    initial2: Seq<T>,
    zero1: T,
    zero2: T,
    dt: T,
    n: nat,
)
    requires
        kernel1 == kernel2,
        mesh1 == mesh2,
        initial1 == initial2,
        zero1 == zero2,
    ensures
        advanced_primitive(kernel1, mesh1, initial1, zero1, dt, n)
            == advanced_primitive(kernel2, mesh2, initial2, zero2, dt, n),
{
}

} // verus!
