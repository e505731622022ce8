//! Physics configuration records consumed by the numerical kernels. The
//! solver core passes them through unchanged and never reads their
//! contents, so they are plain value records over the scalar type `T`.

use vstd::prelude::*;

verus! {

/// Which execution strategy a backend uses for the per-zone work of one
/// integration step.
#[derive(Clone, Copy)]
pub enum ExecutionMode {
    /// Fully sequential, single thread of control.
    CPU,
    /// Shared-memory parallel: per-zone work distributed over worker
    /// threads inside each kernel invocation.
    OMP,
    /// Kernel execution offloaded to an accelerator device.
    GPU,
}

/// Pressure closure selected for the numerical kernels; exactly one
/// variant is active at a time.
#[derive(Debug, Clone, Copy)]
pub enum EquationOfState<T> {
    /// Globally constant sound speed.
    Isothermal { sound_speed: T },
    /// Sound speed set by a fixed Mach number and the local orbital state.
    LocallyIsothermal { mach_number: T },
    /// Ideal-gas closure with the given adiabatic index.
    GammaLaw { gamma_law_index: T },
}

/// A gravitating, optionally accreting body exerting a force and sink
/// term on the fluid; zero or more instances may be supplied per step.
#[derive(Debug, Clone, Copy)]
pub struct PointMass<T> {
    pub x: T,
    pub y: T,
    pub mass: T,
    pub rate: T,
    pub radius: T,
}

/// Optional damping region near the domain edge that relaxes the flow
/// toward a reference profile, used to suppress boundary reflections.
#[derive(Debug, Clone, Copy)]
pub enum BufferZone<T> {
    /// No damping region.
    Inactive,
    /// Relaxation toward a Keplerian profile around a central mass.
    Keplerian {
        surface_density: T,
        central_mass: T,
        driving_rate: T,
        outer_radius: T,
        onset_width: T,
    },
}

} // verus!
