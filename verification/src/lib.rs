//! A minimal 2D rigid-body physics engine with verified fixed-point
//! arithmetic.
//!
//! Scalars are signed 64-bit fixed-point numbers: a raw value `v` denotes
//! the real number `v / fx::SCALE`, and rotations are carried as fixed-point
//! cosine/sine pairs, so the core needs no floating point and no
//! trigonometry. Every arithmetic operation saturates at the `i64` range and
//! truncates toward zero, and every public function's contract states its
//! result exactly over those operations: narrow-phase manifold construction,
//! the generational handle storage, the force registry, the iterative
//! impulse solver, and the per-frame pipeline are verified end to end. The
//! `laws` module states and proves the engine-wide properties (normal
//! symmetry, resting contacts, immovable bodies, momentum).

pub mod fx;
pub mod vec2;
pub mod geometry;
pub mod arena;
pub mod algo;
pub mod queries;
pub mod collider;
pub mod body;
pub mod sets;
pub mod force;
pub mod pipeline;
pub mod world;
pub mod laws;
