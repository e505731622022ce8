//! Patch-based field storage and multi-backend time-advance dispatch for a
//! two-dimensional hydrodynamics solver core.
//!
//! The crate is generic over the scalar type `T` that fills the field
//! buffers: the verified layer owns the mesh geometry, the halo-capable
//! flat storage, and the double-buffered update protocol, while the
//! numerical kernels that fill the buffers are supplied by the embedding
//! application through the [`kernel::Kernel`] trait.

pub mod cpu;
pub mod frozen;
pub mod interior;
pub mod kernel;
pub mod laws;
pub mod mesh;
pub mod omp;
pub mod patch;
pub mod physics;
pub mod solve;

pub use kernel::Kernel;
pub use mesh::Mesh;
pub use patch::Patch;
pub use physics::BufferZone;
pub use physics::EquationOfState;
pub use physics::ExecutionMode;
pub use physics::PointMass;
pub use solve::Solve;
pub use solve::SolverError;
