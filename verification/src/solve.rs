//! The caller-visible contract shared by every backend solver.

use vstd::prelude::*;

verus! {

/// The fatal conditions a backend signals instead of continuing with
/// inconsistent state.
#[derive(Debug, Clone, Copy, PartialEq, Eq, Structural)]
pub enum SolverError {
    /// `advance` was called with a Runge-Kutta order other than 1, the only
    /// order the current update protocol supports.
    UnsupportedOperation,
}

/// Abstraction over the interchangeable execution backends. `advance` is
/// synchronous and atomic from the caller's point of view: it either
/// commits one full order-1 step or, for an unsupported order, leaves the
/// solver exactly as it was, and `primitive` never observes a partial
/// step.
pub trait Solve<T: Copy>: Sized {
    /// The backend's buffers are consistent with its mesh.
    spec fn wf(&self) -> bool;

    /// The full current primitive buffer, halo included: the state one
    /// step evolves.
    spec fn state(&self) -> Seq<T>;

    /// The observable primitive field: the interior restriction of the
    /// state, of length `ni * nj * 3`, in the row-major layout that
    /// `Mesh::strides` describes.
    spec fn prim(&self) -> Seq<T>;

    /// The primitive buffer that one order-1 step with step size `dt`
    /// produces from the current state.
    spec fn next_state(&self, dt: T) -> Seq<T>;

    /// The construction parameters (mesh, kernel, zero element) of the two
    /// backends agree; the step a backend takes depends on nothing else.
    spec fn same_setup(&self, other: &Self) -> bool;

    /// Two backends with agreeing construction parameters and equal
    /// current primitive buffers observe the same primitive field and
    /// compute equal next buffers.
    proof fn lemma_step_congruence(&self, other: &Self, dt: T)
        requires
            self.same_setup(other),
            self.state() == other.state(),
        ensures
            self.prim() == other.prim(),
            self.next_state(dt) == other.next_state(dt),
    ;

    /// Returns the current primitive field of the interior zones as a
    /// flat row-major copy.
    fn primitive(&self) -> (r: Vec<T>)
        requires
            self.wf(),
        ensures
            r@ == self.prim(),
    ;

    /// Performs one explicit time-integration step of the given order.
    /// Only order 1 is supported: any other order is signalled as an
    /// unsupported operation and mutates nothing.
    fn advance(&mut self, rk_order: usize, dt: T) -> (r: Result<(), SolverError>)
        requires
            old(self).wf(),
        ensures
            final(self).wf(),
            rk_order == 1 ==> r is Ok && final(self).state() == old(self).next_state(dt)
                && final(self).same_setup(old(self)),
            rk_order != 1 ==> r == Err::<(), SolverError>(SolverError::UnsupportedOperation)
                && *final(self) == *old(self),
    ;
}

} // verus!
