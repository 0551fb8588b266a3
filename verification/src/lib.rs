//! Core of a small real-time 3D engine: scene storage (entities and their
//! transform, mesh and light components), primitive-shape mesh topology, and
//! the per-frame render plan that a GPU backend executes.
//!
//! Scalar quantities (positions, rotations, intensities) are carried as the
//! 32-bit patterns of IEEE-754 single-precision values and are never
//! interpreted arithmetically here; all floating-point computation lives in
//! the numeric layer of the host application. What this crate owns — and what
//! is verified — is the discrete behaviour of the engine: entity lifecycle,
//! component bookkeeping, mesh index generation, light collection and the
//! ordering and content of the draw lists.

pub mod camera;
pub mod ecs;
pub mod light;
pub mod math;
pub mod mesh;
pub mod objects;
pub mod render;
pub mod table;
pub mod transform;
